use vstd::prelude::*;

use ephemeral_vrf_sdk::instructions::{create_request_randomness_ix as vrf_request_ix, RequestRandomnessParams};
use ephemeral_vrf_sdk::types::SerializableAccountMeta;

use crate::pubkey::Pubkey;

verus! {

broadcast use vstd::array::group_array_axioms;

/// An account that an instruction names, and how it uses it.
#[derive(Clone, Copy, Debug, PartialEq, Eq)]
pub struct AccountMetaData {
    pub pubkey: Pubkey,
    pub is_signer: bool,
    pub is_writable: bool,
}

impl View for AccountMetaData {
    type V = (Seq<u8>, bool, bool);

    open spec fn view(&self) -> (Seq<u8>, bool, bool) {
        (self.pubkey@, self.is_signer, self.is_writable)
    }
}

/// An instruction for another program: the program, the accounts it names and its data.
#[derive(Clone, Debug, PartialEq, Eq)]
pub struct InstructionData {
    pub program_id: Pubkey,
    pub accounts: Vec<AccountMetaData>,
    pub data: Vec<u8>,
}

impl View for InstructionData {
    type V = (Seq<u8>, Seq<(Seq<u8>, bool, bool)>, Seq<u8>);

    open spec fn view(&self) -> (Seq<u8>, Seq<(Seq<u8>, bool, bool)>, Seq<u8>) {
        (self.program_id@, self.accounts@.map_values(|m: AccountMetaData| m@), self.data@)
    }
}

/// The address of the VRF program.
pub open spec fn vrf_program_id() -> Seq<u8> {
    seq![
        7u8, 100, 104, 119, 200, 241, 253, 43, 158, 185, 243, 92, 234, 235, 93, 25, 63, 162, 158,
        196, 92, 7, 181, 101, 242, 27, 167, 177, 39, 172, 247, 127,
    ]
}

/// The address of the slot-hashes sysvar.
pub open spec fn slot_hashes_id() -> Seq<u8> {
    seq![
        6u8, 167, 213, 23, 25, 47, 10, 175, 198, 242, 101, 227, 251, 119, 204, 122, 218, 130, 197,
        41, 208, 190, 59, 19, 110, 45, 0, 85, 32, 0, 0, 0,
    ]
}

/// The address of the system program: 32 zero bytes.
pub open spec fn system_program_id() -> Seq<u8> {
    Seq::new(32, |_i: int| 0u8)
}

/// The instruction that the VRF SDK builds to request randomness (scoped identity, regular
/// priority), from the payer, the oracle queue, the callback program, the callback's
/// discriminator, the caller's seed and the accounts handed to the callback.
pub uninterp spec fn vrf_request_instruction(
    payer: Seq<u8>,
    oracle_queue: Seq<u8>,
    callback_program_id: Seq<u8>,
    callback_discriminator: Seq<u8>,
    caller_seed: Seq<u8>,
    callback_accounts: Seq<(Seq<u8>, bool, bool)>,
) -> (Seq<u8>, Seq<(Seq<u8>, bool, bool)>, Seq<u8>);

/// Calls `ephemeral_vrf_sdk::instructions::create_request_randomness_ix` with these parameters
/// and no callback arguments. Its result is taken to be a function of the arguments alone
/// (`vrf_request_instruction`). Beside that, as the SDK's source builds it: the VRF program is
/// called with five accounts: the payer (signer, writable), the callback program's identity
/// address (signer, read-only; derived by hashing, not stated), the oracle queue (writable, not a
/// signer), the system program and the slot-hashes sysvar (both read-only). The data starts with
/// the variant byte 10 and seven zero bytes, then the caller's seed and the callback program's
/// address; then come the length-prefixed discriminator, the length-prefixed callback accounts
/// (34 bytes each) and an empty argument list, which gives its length. The SDK writes each list's
/// length as a `u32` and panics on a longer one, so both lists are bounded by `u32::MAX`.
#[verifier::external_body]
fn create_request_randomness_ix(
    payer: &Pubkey,
    oracle_queue: &Pubkey,
    callback_program_id: &Pubkey,
    callback_discriminator: Vec<u8>,
    caller_seed: [u8; 32],
    accounts_metas: &Vec<AccountMetaData>,
) -> (ix: InstructionData)
    requires
        callback_discriminator@.len() <= u32::MAX,
        accounts_metas@.len() <= u32::MAX,
    ensures
        ix@ == vrf_request_instruction(
            payer@,
            oracle_queue@,
            callback_program_id@,
            callback_discriminator@,
            caller_seed@,
            accounts_metas@.map_values(|m: AccountMetaData| m@),
        ),
        ix.program_id@ == vrf_program_id(),
        ix.accounts@.len() == 5,
        ix.accounts@[0] == (AccountMetaData { pubkey: *payer, is_signer: true, is_writable: true }),
        ix.accounts@[1].is_signer && !ix.accounts@[1].is_writable,
        ix.accounts@[2] == (AccountMetaData { pubkey: *oracle_queue, is_signer: false, is_writable: true }),
        ix.accounts@[3]@ == (system_program_id(), false, false),
        ix.accounts@[4]@ == (slot_hashes_id(), false, false),
        ix.data@.len() == 84 + callback_discriminator@.len() + 34 * accounts_metas@.len(),
        ix.data@.subrange(0, 8) == seq![10u8, 0, 0, 0, 0, 0, 0, 0],
        ix.data@.subrange(8, 40) == caller_seed@,
        ix.data@.subrange(40, 72) == callback_program_id@,
{
    let metas = accounts_metas.iter().map(|m| SerializableAccountMeta { pubkey: m.pubkey.bytes.into(), is_signer: m.is_signer, is_writable: m.is_writable });
    let ix = vrf_request_ix(RequestRandomnessParams { payer: payer.bytes.into(), oracle_queue: oracle_queue.bytes.into(), callback_program_id: callback_program_id.bytes.into(), callback_discriminator, accounts_metas: Some(metas.collect()), caller_seed, ..Default::default() });
    let accounts = ix.accounts.iter().map(|m| AccountMetaData { pubkey: Pubkey { bytes: m.pubkey.to_bytes() }, is_signer: m.is_signer, is_writable: m.is_writable });
    InstructionData { program_id: Pubkey { bytes: ix.program_id.to_bytes() }, accounts: accounts.collect(), data: ix.data }
}

/// The accounts of a randomness request for a user's account.
#[derive(Clone, Copy, Debug)]
pub struct ReqRandom {
    pub payer: Pubkey,
    pub user_account: Pubkey,
    pub oracle_queue: Pubkey,
}

impl ReqRandom {
    /// The instruction that requests randomness for the user's account: paid by the payer, from
    /// the oracle queue, with `client_seed` repeated 32 times as the caller's seed, calling back
    /// `program_id` with `callback_discriminator` and the user's account (writable, not a signer).
    /// The discriminator's length must fit in a `u32`, as the request's encoding writes it.
    pub fn request_randomness(
        &self,
        client_seed: u8,
        program_id: &Pubkey,
        callback_discriminator: Vec<u8>,
    ) -> (ix: InstructionData)
        requires
            callback_discriminator@.len() <= u32::MAX,
        ensures
            ix@ == vrf_request_instruction(
                self.payer@,
                self.oracle_queue@,
                program_id@,
                callback_discriminator@,
                Seq::new(32, |_i: int| client_seed),
                seq![(self.user_account@, false, true)],
            ),
            ix.program_id@ == vrf_program_id(),
            ix.data@.subrange(8, 40) == Seq::new(32, |_i: int| client_seed),
    {
        let caller_seed: [u8; 32] = [client_seed; 32];
        let mut metas: Vec<AccountMetaData> = Vec::new();
        metas.push(AccountMetaData { pubkey: self.user_account, is_signer: false, is_writable: true });
        let ix = create_request_randomness_ix(
            &self.payer,
            &self.oracle_queue,
            program_id,
            callback_discriminator,
            caller_seed,
            &metas,
        );
        proof {
            assert(caller_seed@ =~= Seq::new(32, |_i: int| client_seed));
            assert(metas@.map_values(|m: AccountMetaData| m@) =~= seq![(self.user_account@, false, true)]);
        }
        ix
    }
}

} // verus!
