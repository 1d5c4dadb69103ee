use vstd::prelude::*;

use crate::balances::{balance_in, keys_unique, set_entry, sum_of, Entries};
use crate::price_list::MAX_PRICES;
use crate::types::{AccountId, Error, Event, InvalidTransaction, Origin, ValidTransaction};

verus! {

/// A first submitted amount must exceed this to count as important.
pub const IMPORTANT_VALUE_THRESHOLD: u64 = 1000;

/// Number of blocks an admitted unsigned price submission stays valid.
pub const PRICE_TX_LONGEVITY: u64 = 5;

/// The module's whole state, as plain values.
pub struct PalletState {
    /// `(account, balance)` entries; an account without one holds zero.
    pub balances: Entries,
    /// The supply handed out at initialisation, plus everything minted since.
    pub total_supply: u64,
    /// Whether `init` has succeeded.
    pub initialized: bool,
    /// The only account allowed to set `important_val`.
    pub authority: AccountId,
    /// The value guarded by `authority`.
    pub important_val: u64,
    /// The last important value found among submitted amounts.
    pub found_val: u64,
    /// The amounts stored by the last `do_work`.
    pub useful_amounts: Seq<u64>,
    /// Draw counter of the guessing game.
    pub nonce: u64,
    /// The last account that guessed right.
    pub winner: Option<AccountId>,
    /// Recently submitted prices.
    pub prices: Seq<u32>,
    /// Base priority of unsigned price submissions.
    pub unsigned_priority: u64,
    /// Everything recorded by successful operations, oldest first.
    pub events: Seq<Event>,
}

impl PalletState {
    /// The balance of `a`.
    pub open spec fn balance(self, a: AccountId) -> nat {
        balance_in(self.balances, a)
    }

    /// The state's invariant: one entry per account, balances that add up to
    /// the total supply once initialised (and to nothing before), and a price
    /// list within its capacity.
    pub open spec fn wf(self) -> bool {
        &&& keys_unique(self.balances)
        &&& sum_of(self.balances) == (if self.initialized { self.total_supply as nat } else { 0 })
        &&& self.prices.len() <= MAX_PRICES
    }
}

/// The state and result after `init(origin, supply)`: the signer receives the
/// whole supply (`supply`, or the current total where `supply` is zero).
pub open spec fn init_spec(s: PalletState, origin: Origin, supply: u64) -> (PalletState, Result<(), Error>) {
    match origin {
        Origin::Unsigned => (s, Err(Error::BadOrigin)),
        Origin::Signed(c) => if s.initialized {
            (s, Err(Error::AlreadyInitialized))
        } else {
            let total = if supply > 0 { supply } else { s.total_supply };
            (
                PalletState {
                    balances: set_entry(s.balances, c, total),
                    total_supply: total,
                    initialized: true,
                    events: s.events.push(Event::Initialized(c)),
                    ..s
                },
                Ok(()),
            )
        },
    }
}

/// The state and result after `transfer(origin, to, amount)`.
pub open spec fn transfer_spec(s: PalletState, origin: Origin, to: AccountId, amount: u64) -> (PalletState, Result<(), Error>) {
    match origin {
        Origin::Unsigned => (s, Err(Error::BadOrigin)),
        Origin::Signed(from) => {
            let event = Event::Transferred(from, to, amount);
            if amount > s.balance(from) {
                (s, Err(Error::InsufficientFunds))
            } else if from == to {
                (PalletState { events: s.events.push(event), ..s }, Ok(()))
            } else if s.balance(to) + amount > u64::MAX {
                (s, Err(Error::Overflow))
            } else {
                let debited = set_entry(s.balances, from, (s.balance(from) - amount) as u64);
                (
                    PalletState {
                        balances: set_entry(debited, to, (s.balance(to) + amount) as u64),
                        events: s.events.push(event),
                        ..s
                    },
                    Ok(()),
                )
            }
        },
    }
}

/// The state and result after `mint(origin, amount)`: new supply is created
/// and credited to the signer. A total that would pass the balance maximum is
/// refused as an overflow, whether or not the ledger is initialised.
pub open spec fn mint_spec(s: PalletState, origin: Origin, amount: u64) -> (PalletState, Result<(), Error>) {
    match origin {
        Origin::Unsigned => (s, Err(Error::BadOrigin)),
        Origin::Signed(c) => if s.total_supply + amount > u64::MAX {
            (s, Err(Error::Overflow))
        } else if !s.initialized {
            (s, Err(Error::NotInitialized))
        } else {
            (
                PalletState {
                    balances: set_entry(s.balances, c, (s.balance(c) + amount) as u64),
                    total_supply: (s.total_supply + amount) as u64,
                    events: s.events.push(Event::MintedNewSupply(c, amount)),
                    ..s
                },
                Ok(()),
            )
        },
    }
}

/// The state and result after `set_important_val(origin, v)`: only the
/// authority may set the value.
pub open spec fn set_important_val_spec(s: PalletState, origin: Origin, v: u64) -> (PalletState, Result<(), Error>) {
    if origin == Origin::Signed(s.authority) {
        (
            PalletState {
                important_val: v,
                events: s.events.push(Event::ImportantValSet(s.authority, v)),
                ..s
            },
            Ok(()),
        )
    } else {
        (s, Err(Error::Unauthorized))
    }
}

/// The state and result after `find_important_value(origin, amounts)`: the
/// first amount is kept where it exceeds the threshold.
pub open spec fn find_important_value_spec(s: PalletState, origin: Origin, amounts: Seq<u64>) -> (PalletState, Result<(), Error>) {
    match origin {
        Origin::Unsigned => (s, Err(Error::BadOrigin)),
        Origin::Signed(c) => if amounts.len() == 0 {
            (s, Err(Error::InvalidInput))
        } else if amounts[0] <= IMPORTANT_VALUE_THRESHOLD {
            (s, Err(Error::NoImportantValueFound))
        } else {
            (
                PalletState {
                    found_val: amounts[0],
                    events: s.events.push(Event::FoundVal(c, amounts[0])),
                    ..s
                },
                Ok(()),
            )
        },
    }
}

/// The state and result after `record_first_amount(origin, amounts)`: a
/// positive first amount is kept; the first amount is reported either way.
pub open spec fn record_first_amount_spec(s: PalletState, origin: Origin, amounts: Seq<u64>) -> (PalletState, Result<(), Error>) {
    match origin {
        Origin::Unsigned => (s, Err(Error::BadOrigin)),
        Origin::Signed(c) => if amounts.len() == 0 {
            (s, Err(Error::InvalidInput))
        } else {
            (
                PalletState {
                    found_val: if amounts[0] > 0 { amounts[0] } else { s.found_val },
                    events: s.events.push(Event::FoundVal(c, amounts[0])),
                    ..s
                },
                Ok(()),
            )
        },
    }
}

/// The state and result after `do_work(origin, amounts)`: the amounts are stored.
pub open spec fn do_work_spec(s: PalletState, origin: Origin, amounts: Seq<u64>) -> (PalletState, Result<(), Error>) {
    match origin {
        Origin::Unsigned => (s, Err(Error::BadOrigin)),
        Origin::Signed(c) => (
            PalletState { useful_amounts: amounts, events: s.events.push(Event::DidWork(c)), ..s },
            Ok(()),
        ),
    }
}

/// The price list after taking in `price`: appended while there is room;
/// once full, it overwrites the slot at `price` modulo the list's length.
pub open spec fn prices_with(prices: Seq<u32>, price: u32) -> Seq<u32> {
    if prices.len() < MAX_PRICES {
        prices.push(price)
    } else {
        prices.update(price as int % prices.len() as int, price)
    }
}

/// The state after a price from `maybe_who` is taken in.
pub open spec fn add_price_spec(s: PalletState, maybe_who: Option<AccountId>, price: u32, block_number: u64) -> PalletState {
    PalletState {
        prices: prices_with(s.prices, price),
        events: s.events.push(Event::NewPrice { price, block_number, maybe_who }),
        ..s
    }
}

/// The state and result after `submit_price_unsigned(origin, block_number, price)`:
/// only unsigned submissions are taken, with no submitter recorded.
pub open spec fn submit_price_spec(s: PalletState, origin: Origin, block_number: u64, price: u32) -> (PalletState, Result<(), Error>) {
    match origin {
        Origin::Signed(_) => (s, Err(Error::BadOrigin)),
        Origin::Unsigned => (add_price_spec(s, None, price, block_number), Ok(())),
    }
}

/// The state and result after `submit_price(origin, block_number, price)`:
/// only signed submissions are taken, with the signer recorded.
pub open spec fn submit_signed_price_spec(s: PalletState, origin: Origin, block_number: u64, price: u32) -> (PalletState, Result<(), Error>) {
    match origin {
        Origin::Signed(who) => (add_price_spec(s, Some(who), price, block_number), Ok(())),
        Origin::Unsigned => (s, Err(Error::BadOrigin)),
    }
}

/// `x + y`, or `u32::MAX` where the sum does not fit.
pub open spec fn saturating_add_u32(x: u32, y: u32) -> u32 {
    if x + y > u32::MAX { u32::MAX } else { (x + y) as u32 }
}

/// The prices summed from the first on, each addition saturating.
pub open spec fn saturating_sum(p: Seq<u32>) -> u32
    decreases p.len(),
{
    if p.len() == 0 { 0 } else { saturating_add_u32(saturating_sum(p.drop_last()), p.last()) }
}

/// The average of the prices (rounded down, over a saturated sum), or none
/// for an empty list.
pub open spec fn average_spec(p: Seq<u32>) -> Option<u32> {
    if p.len() == 0 { None } else { Some((saturating_sum(p) as nat / p.len()) as u32) }
}

/// How far `price` lies from the average; zero where there is no average.
pub open spec fn price_gap(avg: Option<u32>, price: u32) -> u32 {
    match avg {
        Some(a) => if a > price { (a - price) as u32 } else { (price - a) as u32 },
        None => 0,
    }
}

/// The pool's verdict on an unsigned call: only a price submission is
/// admitted, with a priority that grows with its distance from the current
/// average, and tagged by its block number and price.
pub open spec fn validate_price_spec(s: PalletState, block_number: u64, price: u32) -> Result<ValidTransaction, InvalidTransaction> {
    let gap = price_gap(average_spec(s.prices), price);
    Ok(
        ValidTransaction {
            priority: if s.unsigned_priority + gap > u64::MAX { u64::MAX } else { (s.unsigned_priority + gap) as u64 },
            provides: (block_number, price),
            longevity: PRICE_TX_LONGEVITY,
            propagate: true,
        },
    )
}

/// The first `k` little-endian bytes of `n`.
pub open spec fn le_bytes(n: nat, k: nat) -> Seq<u8>
    decreases k,
{
    if k == 0 { Seq::empty() } else { seq![(n % 256) as u8] + le_bytes(n / 256, (k - 1) as nat) }
}

/// The state after one draw: the nonce moves on by one. (A nonce of
/// `u64::MAX` is never drawn, so no nonce comes round twice.)
pub open spec fn next_nonce_spec(s: PalletState) -> PalletState {
    PalletState { nonce: (s.nonce + 1) as u64, ..s }
}

/// The state and result of a guess against a drawn `target`.
pub open spec fn resolve_guess_spec(s: PalletState, caller: AccountId, guess: Seq<u8>, target: Seq<u8>) -> (PalletState, Result<(), Error>) {
    if guess == target {
        (
            PalletState { winner: Some(caller), events: s.events.push(Event::NewWinner(caller)), ..s },
            Ok(()),
        )
    } else {
        (s, Err(Error::IncorrectGuess))
    }
}

} // verus!
