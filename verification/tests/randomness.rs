use whitelist_transfer_hook::pubkey::Pubkey;
use whitelist_transfer_hook::randomness::{AccountMetaData, ReqRandom};

fn key(b: u8) -> Pubkey {
    Pubkey::new_from_array([b; 32])
}

const VRF_PROGRAM: [u8; 32] = [
    7, 100, 104, 119, 200, 241, 253, 43, 158, 185, 243, 92, 234, 235, 93, 25, 63, 162, 158, 196,
    92, 7, 181, 101, 242, 27, 167, 177, 39, 172, 247, 127,
];
const SLOT_HASHES: [u8; 32] = [
    6, 167, 213, 23, 25, 47, 10, 175, 198, 242, 101, 227, 251, 119, 204, 122, 218, 130, 197, 41,
    208, 190, 59, 19, 110, 45, 0, 85, 32, 0, 0, 0,
];

#[test]
fn randomness_request_instruction() {
    let req = ReqRandom { payer: key(1), user_account: key(2), oracle_queue: key(3) };
    let program = key(4);
    let ix = req.request_randomness(9, &program, vec![11, 12, 13]);
    assert_eq!(ix.program_id, Pubkey::new_from_array(VRF_PROGRAM));
    assert_eq!(ix.accounts.len(), 5);
    assert_eq!(ix.accounts[0], AccountMetaData { pubkey: key(1), is_signer: true, is_writable: true });
    assert!(ix.accounts[1].is_signer && !ix.accounts[1].is_writable);
    assert_eq!(ix.accounts[2], AccountMetaData { pubkey: key(3), is_signer: false, is_writable: true });
    assert_eq!(ix.accounts[3], AccountMetaData { pubkey: key(0), is_signer: false, is_writable: false });
    assert_eq!(
        ix.accounts[4],
        AccountMetaData { pubkey: Pubkey::new_from_array(SLOT_HASHES), is_signer: false, is_writable: false }
    );
    let mut expected: Vec<u8> = vec![10, 0, 0, 0, 0, 0, 0, 0];
    expected.extend_from_slice(&[9u8; 32]);
    expected.extend_from_slice(&[4u8; 32]);
    expected.extend_from_slice(&[3, 0, 0, 0, 11, 12, 13]);
    expected.extend_from_slice(&[1, 0, 0, 0]);
    expected.extend_from_slice(&[2u8; 32]);
    expected.extend_from_slice(&[0, 1]);
    expected.extend_from_slice(&[0, 0, 0, 0]);
    assert_eq!(ix.data, expected);
}

#[test]
fn randomness_seed_follows_client_seed() {
    let req = ReqRandom { payer: key(1), user_account: key(2), oracle_queue: key(3) };
    let a = req.request_randomness(1, &key(4), vec![]);
    let b = req.request_randomness(2, &key(4), vec![]);
    assert_eq!(&a.data[8..40], &[1u8; 32]);
    assert_eq!(&b.data[8..40], &[2u8; 32]);
    assert_eq!(a.data.len(), 84 + 34);
    assert_eq!(a.accounts[1], b.accounts[1]);
}
