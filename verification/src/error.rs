use vstd::prelude::*;

verus! {

/// First code number that a program's own error variants are given;
/// the variant at position `i` of its enum has the code `ERROR_CODE_OFFSET + i`.
pub const ERROR_CODE_OFFSET: u32 = 6000;

/// Errors of the whitelist, deposit and withdrawal rules.
#[derive(Clone, Copy, Debug, PartialEq, Eq, Structural)]
pub enum TransferHookError {
    /// Transfer hook was invoked outside of a transfer
    NotTransferring,
    /// Transfer must involve the vault token account
    TransferMustTouchVault,
    /// Source owner is not whitelisted for vault deposit
    SourceNotWhitelisted,
    /// Destination owner is not whitelisted for vault withdrawal
    DestinationNotWhitelisted,
    /// Mint does not match the vault mint
    InvalidVaultMint,
    /// User is not whitelisted
    UserNotWhitelisted,
    /// Insufficient balance recorded for this whitelisted user
    InsufficientWhitelistedBalance,
    /// Amount must be greater than zero
    InvalidAmount,
    /// Math overflow
    MathOverflow,
}

impl TransferHookError {
    /// Position of the variant in the declaration, counted from zero.
    pub open spec fn spec_position(self) -> u32 {
        match self {
            TransferHookError::NotTransferring => 0,
            TransferHookError::TransferMustTouchVault => 1,
            TransferHookError::SourceNotWhitelisted => 2,
            TransferHookError::DestinationNotWhitelisted => 3,
            TransferHookError::InvalidVaultMint => 4,
            TransferHookError::UserNotWhitelisted => 5,
            TransferHookError::InsufficientWhitelistedBalance => 6,
            TransferHookError::InvalidAmount => 7,
            TransferHookError::MathOverflow => 8,
        }
    }

    /// The variant's name, as the error reports it.
    pub open spec fn spec_name(self) -> Seq<char> {
        match self {
            TransferHookError::NotTransferring => "NotTransferring"@,
            TransferHookError::TransferMustTouchVault => "TransferMustTouchVault"@,
            TransferHookError::SourceNotWhitelisted => "SourceNotWhitelisted"@,
            TransferHookError::DestinationNotWhitelisted => "DestinationNotWhitelisted"@,
            TransferHookError::InvalidVaultMint => "InvalidVaultMint"@,
            TransferHookError::UserNotWhitelisted => "UserNotWhitelisted"@,
            TransferHookError::InsufficientWhitelistedBalance => "InsufficientWhitelistedBalance"@,
            TransferHookError::InvalidAmount => "InvalidAmount"@,
            TransferHookError::MathOverflow => "MathOverflow"@,
        }
    }

    /// The human-readable message of the variant.
    pub open spec fn spec_message(self) -> Seq<char> {
        match self {
            TransferHookError::NotTransferring => "Transfer hook was invoked outside of a transfer"@,
            TransferHookError::TransferMustTouchVault => "Transfer must involve the vault token account"@,
            TransferHookError::SourceNotWhitelisted => "Source owner is not whitelisted for vault deposit"@,
            TransferHookError::DestinationNotWhitelisted => "Destination owner is not whitelisted for vault withdrawal"@,
            TransferHookError::InvalidVaultMint => "Mint does not match the vault mint"@,
            TransferHookError::UserNotWhitelisted => "User is not whitelisted"@,
            TransferHookError::InsufficientWhitelistedBalance => "Insufficient balance recorded for this whitelisted user"@,
            TransferHookError::InvalidAmount => "Amount must be greater than zero"@,
            TransferHookError::MathOverflow => "Math overflow"@,
        }
    }

    /// The error code number: the offset plus the variant's position.
    pub fn code(&self) -> (code: u32)
        ensures
            code == ERROR_CODE_OFFSET + self.spec_position(),
    {
        match self {
            TransferHookError::NotTransferring => ERROR_CODE_OFFSET + 0,
            TransferHookError::TransferMustTouchVault => ERROR_CODE_OFFSET + 1,
            TransferHookError::SourceNotWhitelisted => ERROR_CODE_OFFSET + 2,
            TransferHookError::DestinationNotWhitelisted => ERROR_CODE_OFFSET + 3,
            TransferHookError::InvalidVaultMint => ERROR_CODE_OFFSET + 4,
            TransferHookError::UserNotWhitelisted => ERROR_CODE_OFFSET + 5,
            TransferHookError::InsufficientWhitelistedBalance => ERROR_CODE_OFFSET + 6,
            TransferHookError::InvalidAmount => ERROR_CODE_OFFSET + 7,
            TransferHookError::MathOverflow => ERROR_CODE_OFFSET + 8,
        }
    }

    /// The variant's name.
    pub fn name(&self) -> (name: String)
        ensures
            name@ == self.spec_name(),
    {
        match self {
            TransferHookError::NotTransferring => {
                proof { reveal_strlit("NotTransferring"); }
                "NotTransferring".to_owned()
            },
            TransferHookError::TransferMustTouchVault => {
                proof { reveal_strlit("TransferMustTouchVault"); }
                "TransferMustTouchVault".to_owned()
            },
            TransferHookError::SourceNotWhitelisted => {
                proof { reveal_strlit("SourceNotWhitelisted"); }
                "SourceNotWhitelisted".to_owned()
            },
            TransferHookError::DestinationNotWhitelisted => {
                proof { reveal_strlit("DestinationNotWhitelisted"); }
                "DestinationNotWhitelisted".to_owned()
            },
            TransferHookError::InvalidVaultMint => {
                proof { reveal_strlit("InvalidVaultMint"); }
                "InvalidVaultMint".to_owned()
            },
            TransferHookError::UserNotWhitelisted => {
                proof { reveal_strlit("UserNotWhitelisted"); }
                "UserNotWhitelisted".to_owned()
            },
            TransferHookError::InsufficientWhitelistedBalance => {
                proof { reveal_strlit("InsufficientWhitelistedBalance"); }
                "InsufficientWhitelistedBalance".to_owned()
            },
            TransferHookError::InvalidAmount => {
                proof { reveal_strlit("InvalidAmount"); }
                "InvalidAmount".to_owned()
            },
            TransferHookError::MathOverflow => {
                proof { reveal_strlit("MathOverflow"); }
                "MathOverflow".to_owned()
            },
        }
    }

    /// The message shown for the error.
    pub fn message(&self) -> (message: String)
        ensures
            message@ == self.spec_message(),
    {
        match self {
            TransferHookError::NotTransferring => {
                proof { reveal_strlit("Transfer hook was invoked outside of a transfer"); }
                "Transfer hook was invoked outside of a transfer".to_owned()
            },
            TransferHookError::TransferMustTouchVault => {
                proof { reveal_strlit("Transfer must involve the vault token account"); }
                "Transfer must involve the vault token account".to_owned()
            },
            TransferHookError::SourceNotWhitelisted => {
                proof { reveal_strlit("Source owner is not whitelisted for vault deposit"); }
                "Source owner is not whitelisted for vault deposit".to_owned()
            },
            TransferHookError::DestinationNotWhitelisted => {
                proof { reveal_strlit("Destination owner is not whitelisted for vault withdrawal"); }
                "Destination owner is not whitelisted for vault withdrawal".to_owned()
            },
            TransferHookError::InvalidVaultMint => {
                proof { reveal_strlit("Mint does not match the vault mint"); }
                "Mint does not match the vault mint".to_owned()
            },
            TransferHookError::UserNotWhitelisted => {
                proof { reveal_strlit("User is not whitelisted"); }
                "User is not whitelisted".to_owned()
            },
            TransferHookError::InsufficientWhitelistedBalance => {
                proof { reveal_strlit("Insufficient balance recorded for this whitelisted user"); }
                "Insufficient balance recorded for this whitelisted user".to_owned()
            },
            TransferHookError::InvalidAmount => {
                proof { reveal_strlit("Amount must be greater than zero"); }
                "Amount must be greater than zero".to_owned()
            },
            TransferHookError::MathOverflow => {
                proof { reveal_strlit("Math overflow"); }
                "Math overflow".to_owned()
            },
        }
    }
}

/// Errors about the vault itself.
#[derive(Clone, Copy, Debug, PartialEq, Eq, Structural)]
pub enum VaultError {
    /// Mint does not match the vault mint
    InvalidVaultMint,
    /// Insufficient balance in the vault
    InsufficientBalance,
}

impl VaultError {
    /// Position of the variant in the declaration, counted from zero.
    pub open spec fn spec_position(self) -> u32 {
        match self {
            VaultError::InvalidVaultMint => 0,
            VaultError::InsufficientBalance => 1,
        }
    }

    /// The variant's name, as the error reports it.
    pub open spec fn spec_name(self) -> Seq<char> {
        match self {
            VaultError::InvalidVaultMint => "InvalidVaultMint"@,
            VaultError::InsufficientBalance => "InsufficientBalance"@,
        }
    }

    /// The human-readable message of the variant.
    pub open spec fn spec_message(self) -> Seq<char> {
        match self {
            VaultError::InvalidVaultMint => "Mint does not match the vault mint"@,
            VaultError::InsufficientBalance => "Insufficient balance in the vault"@,
        }
    }

    /// The error code number: the offset plus the variant's position.
    pub fn code(&self) -> (code: u32)
        ensures
            code == ERROR_CODE_OFFSET + self.spec_position(),
    {
        match self {
            VaultError::InvalidVaultMint => ERROR_CODE_OFFSET + 0,
            VaultError::InsufficientBalance => ERROR_CODE_OFFSET + 1,
        }
    }

    /// The variant's name.
    pub fn name(&self) -> (name: String)
        ensures
            name@ == self.spec_name(),
    {
        match self {
            VaultError::InvalidVaultMint => {
                proof { reveal_strlit("InvalidVaultMint"); }
                "InvalidVaultMint".to_owned()
            },
            VaultError::InsufficientBalance => {
                proof { reveal_strlit("InsufficientBalance"); }
                "InsufficientBalance".to_owned()
            },
        }
    }

    /// The message shown for the error.
    pub fn message(&self) -> (message: String)
        ensures
            message@ == self.spec_message(),
    {
        match self {
            VaultError::InvalidVaultMint => {
                proof { reveal_strlit("Mint does not match the vault mint"); }
                "Mint does not match the vault mint".to_owned()
            },
            VaultError::InsufficientBalance => {
                proof { reveal_strlit("Insufficient balance in the vault"); }
                "Insufficient balance in the vault".to_owned()
            },
        }
    }
}

/// Errors of minting through the vault.
#[derive(Clone, Copy, Debug, PartialEq, Eq, Structural)]
pub enum MintError {
    /// Only vault admin can mint
    UnauthorizedAdmin,
    /// Amount must be greater than zero
    InvalidAmount,
}

impl MintError {
    /// Position of the variant in the declaration, counted from zero.
    pub open spec fn spec_position(self) -> u32 {
        match self {
            MintError::UnauthorizedAdmin => 0,
            MintError::InvalidAmount => 1,
        }
    }

    /// The variant's name, as the error reports it.
    pub open spec fn spec_name(self) -> Seq<char> {
        match self {
            MintError::UnauthorizedAdmin => "UnauthorizedAdmin"@,
            MintError::InvalidAmount => "InvalidAmount"@,
        }
    }

    /// The human-readable message of the variant.
    pub open spec fn spec_message(self) -> Seq<char> {
        match self {
            MintError::UnauthorizedAdmin => "Only vault admin can mint"@,
            MintError::InvalidAmount => "Amount must be greater than zero"@,
        }
    }

    /// The error code number: the offset plus the variant's position.
    pub fn code(&self) -> (code: u32)
        ensures
            code == ERROR_CODE_OFFSET + self.spec_position(),
    {
        match self {
            MintError::UnauthorizedAdmin => ERROR_CODE_OFFSET + 0,
            MintError::InvalidAmount => ERROR_CODE_OFFSET + 1,
        }
    }

    /// The variant's name.
    pub fn name(&self) -> (name: String)
        ensures
            name@ == self.spec_name(),
    {
        match self {
            MintError::UnauthorizedAdmin => {
                proof { reveal_strlit("UnauthorizedAdmin"); }
                "UnauthorizedAdmin".to_owned()
            },
            MintError::InvalidAmount => {
                proof { reveal_strlit("InvalidAmount"); }
                "InvalidAmount".to_owned()
            },
        }
    }

    /// The message shown for the error.
    pub fn message(&self) -> (message: String)
        ensures
            message@ == self.spec_message(),
    {
        match self {
            MintError::UnauthorizedAdmin => {
                proof { reveal_strlit("Only vault admin can mint"); }
                "Only vault admin can mint".to_owned()
            },
            MintError::InvalidAmount => {
                proof { reveal_strlit("Amount must be greater than zero"); }
                "Amount must be greater than zero".to_owned()
            },
        }
    }
}

/// Errors of the escrow program.
#[derive(Clone, Copy, Debug, PartialEq, Eq, Structural)]
pub enum EscrowError {
    /// Escrow has expired
    EscrowExpired,
}

impl EscrowError {
    /// Position of the variant in the declaration, counted from zero.
    pub open spec fn spec_position(self) -> u32 {
        match self {
            EscrowError::EscrowExpired => 0,
        }
    }

    /// The variant's name, as the error reports it.
    pub open spec fn spec_name(self) -> Seq<char> {
        match self {
            EscrowError::EscrowExpired => "EscrowExpired"@,
        }
    }

    /// The human-readable message of the variant.
    pub open spec fn spec_message(self) -> Seq<char> {
        match self {
            EscrowError::EscrowExpired => "Escrow has expired"@,
        }
    }

    /// The error code number: the offset plus the variant's position.
    pub fn code(&self) -> (code: u32)
        ensures
            code == ERROR_CODE_OFFSET + self.spec_position(),
    {
        match self {
            EscrowError::EscrowExpired => ERROR_CODE_OFFSET + 0,
        }
    }

    /// The variant's name.
    pub fn name(&self) -> (name: String)
        ensures
            name@ == self.spec_name(),
    {
        match self {
            EscrowError::EscrowExpired => {
                proof { reveal_strlit("EscrowExpired"); }
                "EscrowExpired".to_owned()
            },
        }
    }

    /// The message shown for the error.
    pub fn message(&self) -> (message: String)
        ensures
            message@ == self.spec_message(),
    {
        match self {
            EscrowError::EscrowExpired => {
                proof { reveal_strlit("Escrow has expired"); }
                "Escrow has expired".to_owned()
            },
        }
    }
}

/// The error with which an instruction of the whitelist vault fails.
#[derive(Clone, Copy, Debug, PartialEq, Eq, Structural)]
pub enum InstructionError {
    /// A whitelist or transfer rule was broken.
    TransferHook(TransferHookError),
    /// A vault rule was broken.
    Vault(VaultError),
    /// A minting rule was broken.
    Mint(MintError),
}

impl InstructionError {
    /// The code number of the wrapped error.
    pub open spec fn spec_code(self) -> u32 {
        match self {
            InstructionError::TransferHook(e) => (ERROR_CODE_OFFSET + e.spec_position()) as u32,
            InstructionError::Vault(e) => (ERROR_CODE_OFFSET + e.spec_position()) as u32,
            InstructionError::Mint(e) => (ERROR_CODE_OFFSET + e.spec_position()) as u32,
        }
    }

    /// The code number of the wrapped error.
    pub fn code(&self) -> (code: u32)
        ensures
            code == self.spec_code(),
    {
        match self {
            InstructionError::TransferHook(e) => e.code(),
            InstructionError::Vault(e) => e.code(),
            InstructionError::Mint(e) => e.code(),
        }
    }

    /// The message of the wrapped error.
    pub fn message(&self) -> (message: String)
        ensures
            message@ == (match self {
                InstructionError::TransferHook(e) => e.spec_message(),
                InstructionError::Vault(e) => e.spec_message(),
                InstructionError::Mint(e) => e.spec_message(),
            }),
    {
        match self {
            InstructionError::TransferHook(e) => e.message(),
            InstructionError::Vault(e) => e.message(),
            InstructionError::Mint(e) => e.message(),
        }
    }
}

} // verus!
