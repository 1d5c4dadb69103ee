use vstd::prelude::*;

verus! {

/// An account: opaque, compared for equality only.
pub type AccountId = u64;

/// A hash-sized token, as returned by a randomness source.
pub type Hash256 = [u8; 32];

/// The total supply a ledger starts with when none is requested.
pub const DEFAULT_TOTAL_SUPPLY: u64 = 1000;

/// Who a call was authenticated as by the dispatcher.
#[derive(Clone, Copy, Debug, PartialEq, Eq)]
pub enum Origin {
    /// Signed by this account.
    Signed(AccountId),
    /// Submitted without a signature.
    Unsigned,
}

impl Origin {
    /// The signing account, if any.
    pub open spec fn signer(self) -> Option<AccountId> {
        match self {
            Origin::Signed(a) => Some(a),
            Origin::Unsigned => None,
        }
    }
}

/// Why an operation was refused. A refused operation changes nothing.
#[derive(Clone, Copy, Debug, PartialEq, Eq)]
pub enum Error {
    /// The call did not come from the kind of origin the operation needs.
    BadOrigin,
    /// The ledger has already been initialised.
    AlreadyInitialized,
    /// The ledger has not been initialised yet.
    NotInitialized,
    /// The sender holds less than the amount asked for.
    InsufficientFunds,
    /// A sum would not fit in the balance type.
    Overflow,
    /// The caller is not the configured authority.
    Unauthorized,
    /// The guess did not match the drawn value.
    IncorrectGuess,
    /// A required input was empty.
    InvalidInput,
    /// The first submitted amount is not above the threshold.
    NoImportantValueFound,
}

/// What a successful operation records.
#[derive(Clone, Copy, Debug, PartialEq, Eq)]
pub enum Event {
    /// The ledger was initialised by this account.
    Initialized(AccountId),
    /// `amount` moved from the first account to the second.
    Transferred(AccountId, AccountId, u64),
    /// New supply was minted to this account.
    MintedNewSupply(AccountId, u64),
    /// The authority set the privileged value.
    ImportantValSet(AccountId, u64),
    /// This account guessed the drawn value.
    NewWinner(AccountId),
    /// A price was taken into the price list.
    NewPrice { price: u32, block_number: u64, maybe_who: Option<AccountId> },
    /// An important value was found among the submitted amounts.
    FoundVal(AccountId, u64),
    /// Amounts were stored for this account.
    DidWork(AccountId),
}

/// A call into the module, as the dispatcher hands it over.
#[derive(Debug, PartialEq, Eq)]
pub enum Call {
    Init { supply: u64 },
    Transfer { to: AccountId, amount: u64 },
    Mint { amount: u64 },
    SetImportantVal { new_val: u64 },
    Guess { guess: Hash256 },
    SubmitPriceUnsigned { block_number: u64, price: u32 },
    SubmitPrice { block_number: u64, price: u32 },
    RecordFirstAmount { useful_amounts: Vec<u64> },
    FindImportantValue { useful_amounts: Vec<u64> },
    DoWork { useful_amounts: Vec<u64> },
}

/// Why an unsigned transaction is not admitted to the pool.
#[derive(Clone, Copy, Debug, PartialEq, Eq)]
pub enum InvalidTransaction {
    /// The call may not be submitted unsigned.
    Call,
}

/// The pool's terms for admitting an unsigned transaction.
#[derive(Clone, Copy, Debug, PartialEq, Eq)]
pub struct ValidTransaction {
    /// Higher goes first.
    pub priority: u64,
    /// Deduplication tag: a second transaction with the same tag is dropped
    /// while the first is valid. Here the block number and the price.
    pub provides: (u64, u32),
    /// Number of blocks the transaction stays valid.
    pub longevity: u64,
    /// Whether the transaction is gossiped to peers.
    pub propagate: bool,
}

} // verus!
