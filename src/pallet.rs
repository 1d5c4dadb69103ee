use vstd::prelude::*;

use frame_support::traits::ConstU32;
use frame_support::BoundedVec;

use crate::balances::{
    balance_of, lemma_balance_le_sum, lemma_set_entry, set_balance, set_entry,
};
use crate::price_list::{
    new_prices, price_items, price_list, set_price, try_push_price, MAX_PRICES,
};
use crate::state::{
    add_price_spec, average_spec, do_work_spec, record_first_amount_spec, submit_signed_price_spec, find_important_value_spec, init_spec, le_bytes,
    mint_spec, next_nonce_spec, resolve_guess_spec, saturating_sum, set_important_val_spec,
    submit_price_spec, transfer_spec, validate_price_spec, PalletState, IMPORTANT_VALUE_THRESHOLD,
    PRICE_TX_LONGEVITY,
};
use crate::types::{
    AccountId, Call, Error, Event, Hash256, InvalidTransaction, Origin, ValidTransaction,
    DEFAULT_TOTAL_SUPPLY,
};

verus! {

/// A source of values that callers cannot choose, keyed by a subject.
///
/// Values derived from public chain state can be foreseen by anyone who sees
/// that state first: such a source is not fit to guard anything of worth.
pub trait Randomness {
    /// The value drawn for `subject`.
    fn random(&self, subject: &Vec<u8>) -> Hash256;
}

/// The ledger module and all of its state.
pub struct Pallet {
    balances: Vec<(u64, u64)>,
    total_supply: u64,
    initialized: bool,
    authority: AccountId,
    important_val: u64,
    found_val: u64,
    useful_amounts: Vec<u64>,
    nonce: u64,
    winner: Option<AccountId>,
    prices: BoundedVec<u32, ConstU32<MAX_PRICES>>,
    unsigned_priority: u64,
    events: Vec<Event>,
}

impl View for Pallet {
    type V = PalletState;

    closed spec fn view(&self) -> PalletState {
        PalletState {
            balances: self.balances@,
            total_supply: self.total_supply,
            initialized: self.initialized,
            authority: self.authority,
            important_val: self.important_val,
            found_val: self.found_val,
            useful_amounts: self.useful_amounts@,
            nonce: self.nonce,
            winner: self.winner,
            prices: price_list(self.prices),
            unsigned_priority: self.unsigned_priority,
            events: self.events@,
        }
    }
}

impl Pallet {
    /// A fresh module: no balances, the default total supply, not initialised,
    /// `authority` as the holder of the privileged value, an empty price list,
    /// and `unsigned_priority` as the base priority of price submissions.
    pub fn new(authority: AccountId, unsigned_priority: u64) -> (r: Pallet)
        ensures
            r@ == (PalletState {
                balances: Seq::empty(),
                total_supply: DEFAULT_TOTAL_SUPPLY,
                initialized: false,
                authority,
                important_val: 0,
                found_val: 0,
                useful_amounts: Seq::empty(),
                nonce: 0,
                winner: None,
                prices: Seq::empty(),
                unsigned_priority,
                events: Seq::empty(),
            }),
            r@.wf(),
    {
        let r = Pallet {
            balances: Vec::new(),
            total_supply: DEFAULT_TOTAL_SUPPLY,
            initialized: false,
            authority,
            important_val: 0,
            found_val: 0,
            useful_amounts: Vec::new(),
            nonce: 0,
            winner: None,
            prices: new_prices(),
            unsigned_priority,
            events: Vec::new(),
        };
        proof {
            assert(r@.balances =~= Seq::empty());
            assert(r@.useful_amounts =~= Seq::empty());
            assert(r@.events =~= Seq::empty());
        }
        r
    }

    /// Initialises the ledger once: the signer receives the whole supply.
    /// A nonzero `supply` replaces the configured total first.
    pub fn init(&mut self, origin: Origin, supply: u64) -> (r: Result<(), Error>)
        requires
            old(self)@.wf(),
        ensures
            final(self)@.wf(),
            (final(self)@, r) == init_spec(old(self)@, origin, supply),
    {
        let caller = match origin {
            Origin::Signed(a) => a,
            Origin::Unsigned => return Err(Error::BadOrigin),
        };
        if self.initialized {
            return Err(Error::AlreadyInitialized);
        }
        let total: u64 = if supply > 0 { supply } else { self.total_supply };
        proof {
            lemma_set_entry(self.balances@, caller, total);
            lemma_balance_le_sum(self.balances@, caller);
        }
        set_balance(&mut self.balances, caller, total);
        self.total_supply = total;
        self.initialized = true;
        self.events.push(Event::Initialized(caller));
        Ok(())
    }

    /// Moves `amount` from the signer to `to`, or changes nothing and says why.
    pub fn transfer(&mut self, origin: Origin, to: AccountId, amount: u64) -> (r: Result<(), Error>)
        requires
            old(self)@.wf(),
        ensures
            final(self)@.wf(),
            (final(self)@, r) == transfer_spec(old(self)@, origin, to, amount),
    {
        let from = match origin {
            Origin::Signed(a) => a,
            Origin::Unsigned => return Err(Error::BadOrigin),
        };
        let from_balance = balance_of(&self.balances, from);
        if amount > from_balance {
            return Err(Error::InsufficientFunds);
        }
        if from == to {
            self.events.push(Event::Transferred(from, to, amount));
            return Ok(());
        }
        let to_balance = balance_of(&self.balances, to);
        let new_to: u64 = match to_balance.checked_add(amount) {
            Some(b) => b,
            None => return Err(Error::Overflow),
        };
        let new_from: u64 = from_balance - amount;
        proof {
            lemma_set_entry(self.balances@, from, new_from);
            lemma_set_entry(set_entry(self.balances@, from, new_from), to, new_to);
        }
        set_balance(&mut self.balances, from, new_from);
        set_balance(&mut self.balances, to, new_to);
        self.events.push(Event::Transferred(from, to, amount));
        Ok(())
    }

    /// Creates `amount` of new supply and credits it to the signer. A total
    /// that would not fit is refused as an overflow before anything else.
    pub fn mint(&mut self, origin: Origin, amount: u64) -> (r: Result<(), Error>)
        requires
            old(self)@.wf(),
        ensures
            final(self)@.wf(),
            (final(self)@, r) == mint_spec(old(self)@, origin, amount),
    {
        let caller = match origin {
            Origin::Signed(a) => a,
            Origin::Unsigned => return Err(Error::BadOrigin),
        };
        let new_total: u64 = match self.total_supply.checked_add(amount) {
            Some(t) => t,
            None => return Err(Error::Overflow),
        };
        if !self.initialized {
            return Err(Error::NotInitialized);
        }
        let balance = balance_of(&self.balances, caller);
        proof {
            lemma_balance_le_sum(self.balances@, caller);
        }
        let new_balance: u64 = balance + amount;
        proof {
            lemma_set_entry(self.balances@, caller, new_balance);
        }
        set_balance(&mut self.balances, caller, new_balance);
        self.total_supply = new_total;
        self.events.push(Event::MintedNewSupply(caller, amount));
        Ok(())
    }

    /// Sets the privileged value. Only a call signed by the authority gets
    /// through; any other is refused before anything else is looked at.
    pub fn set_important_val(&mut self, origin: Origin, new_val: u64) -> (r: Result<(), Error>)
        requires
            old(self)@.wf(),
        ensures
            final(self)@.wf(),
            (final(self)@, r) == set_important_val_spec(old(self)@, origin, new_val),
    {
        let authorized = match origin {
            Origin::Signed(a) => a == self.authority,
            Origin::Unsigned => false,
        };
        if !authorized {
            return Err(Error::Unauthorized);
        }
        self.important_val = new_val;
        self.events.push(Event::ImportantValSet(self.authority, new_val));
        Ok(())
    }

    /// Keeps the first of `useful_amounts` where it is above the threshold.
    /// An empty list is refused as invalid input.
    pub fn find_important_value(&mut self, origin: Origin, useful_amounts: Vec<u64>) -> (r: Result<(), Error>)
        requires
            old(self)@.wf(),
        ensures
            final(self)@.wf(),
            (final(self)@, r) == find_important_value_spec(old(self)@, origin, useful_amounts@),
    {
        let caller = match origin {
            Origin::Signed(a) => a,
            Origin::Unsigned => return Err(Error::BadOrigin),
        };
        if useful_amounts.len() == 0 {
            return Err(Error::InvalidInput);
        }
        let first = useful_amounts[0];
        if first <= IMPORTANT_VALUE_THRESHOLD {
            return Err(Error::NoImportantValueFound);
        }
        self.found_val = first;
        self.events.push(Event::FoundVal(caller, first));
        Ok(())
    }

    /// Keeps the first of `useful_amounts` where it is positive, and reports
    /// it either way. An empty list is refused as invalid input.
    pub fn record_first_amount(&mut self, origin: Origin, useful_amounts: Vec<u64>) -> (r: Result<(), Error>)
        requires
            old(self)@.wf(),
        ensures
            final(self)@.wf(),
            (final(self)@, r) == record_first_amount_spec(old(self)@, origin, useful_amounts@),
    {
        let caller = match origin {
            Origin::Signed(a) => a,
            Origin::Unsigned => return Err(Error::BadOrigin),
        };
        if useful_amounts.len() == 0 {
            return Err(Error::InvalidInput);
        }
        let first = useful_amounts[0];
        if first > 0 {
            self.found_val = first;
        }
        self.events.push(Event::FoundVal(caller, first));
        Ok(())
    }

    /// Stores `useful_amounts`. Its cost grows with their number: see
    /// [`crate::weights::MyWeightFunction`].
    pub fn do_work(&mut self, origin: Origin, useful_amounts: Vec<u64>) -> (r: Result<(), Error>)
        requires
            old(self)@.wf(),
        ensures
            final(self)@.wf(),
            (final(self)@, r) == do_work_spec(old(self)@, origin, useful_amounts@),
    {
        let caller = match origin {
            Origin::Signed(a) => a,
            Origin::Unsigned => return Err(Error::BadOrigin),
        };
        self.useful_amounts = useful_amounts;
        self.events.push(Event::DidWork(caller));
        Ok(())
    }

    /// Takes an unsigned price submission into the price list.
    pub fn submit_price_unsigned(&mut self, origin: Origin, block_number: u64, price: u32) -> (r: Result<(), Error>)
        requires
            old(self)@.wf(),
        ensures
            final(self)@.wf(),
            (final(self)@, r) == submit_price_spec(old(self)@, origin, block_number, price),
    {
        match origin {
            Origin::Signed(_) => Err(Error::BadOrigin),
            Origin::Unsigned => {
                self.add_price(None, price, block_number);
                Ok(())
            },
        }
    }

    /// Takes a signed price submission into the price list, recording the
    /// signer as its submitter.
    pub fn submit_price(&mut self, origin: Origin, block_number: u64, price: u32) -> (r: Result<(), Error>)
        requires
            old(self)@.wf(),
        ensures
            final(self)@.wf(),
            (final(self)@, r) == submit_signed_price_spec(old(self)@, origin, block_number, price),
    {
        match origin {
            Origin::Signed(who) => {
                self.add_price(Some(who), price, block_number);
                Ok(())
            },
            Origin::Unsigned => Err(Error::BadOrigin),
        }
    }

    /// Takes `price` into the list, appending while there is room and
    /// otherwise overwriting the slot at `price` modulo the list's length.
    fn add_price(&mut self, maybe_who: Option<AccountId>, price: u32, block_number: u64)
        requires
            old(self)@.wf(),
        ensures
            final(self)@.wf(),
            final(self)@ == add_price_spec(old(self)@, maybe_who, price, block_number),
    {
        if try_push_price(&mut self.prices, price).is_err() {
            let len: usize = price_items(&self.prices).len();
            let slot: usize = price as usize % len;
            set_price(&mut self.prices, slot, price);
        }
        self.events.push(Event::NewPrice { price, block_number, maybe_who });
    }

    /// The average of the listed prices, summed with saturation; none while
    /// the list is empty.
    pub fn average_price(&self) -> (r: Option<u32>)
        requires
            self@.wf(),
        ensures
            r == average_spec(self@.prices),
    {
        let items = price_items(&self.prices);
        let n: usize = items.len();
        if n == 0 {
            return None;
        }
        let mut acc: u32 = 0;
        let mut i: usize = 0;
        while i < n
            invariant
                n == items@.len(),
                items@ == self@.prices,
                i <= n,
                acc == saturating_sum(items@.take(i as int)),
            decreases n - i,
        {
            proof {
                assert(items@.take(i + 1).drop_last() =~= items@.take(i as int));
            }
            acc = acc.saturating_add(items[i]);
            i = i + 1;
        }
        proof {
            assert(items@.take(n as int) =~= items@);
        }
        Some(acc / (n as u32))
    }

    /// Decides whether the pool admits `call` unsigned. Only a price
    /// submission is admitted; its priority is the base priority plus the
    /// distance of its price from the current average.
    pub fn validate_unsigned(&self, call: &Call) -> (r: Result<ValidTransaction, InvalidTransaction>)
        requires
            self@.wf(),
        ensures
            match call {
                Call::SubmitPriceUnsigned { block_number, price } => r == validate_price_spec(self@, *block_number, *price),
                _ => r == (Err::<ValidTransaction, InvalidTransaction>(InvalidTransaction::Call)),
            },
    {
        match call {
            Call::SubmitPriceUnsigned { block_number, price } => {
                let gap: u32 = match self.average_price() {
                    Some(avg) => if avg > *price { avg - *price } else { *price - avg },
                    None => 0,
                };
                Ok(ValidTransaction {
                    priority: self.unsigned_priority.saturating_add(gap as u64),
                    provides: (*block_number, *price),
                    longevity: PRICE_TX_LONGEVITY,
                    propagate: true,
                })
            },
            _ => Err(InvalidTransaction::Call),
        }
    }

    /// Moves the nonce on by one and returns the old nonce as eight
    /// little-endian bytes, the subject of the next draw.
    pub fn get_and_increment_nonce(&mut self) -> (r: Vec<u8>)
        requires
            old(self)@.wf(),
            old(self)@.nonce < u64::MAX,
        ensures
            final(self)@.wf(),
            final(self)@ == next_nonce_spec(old(self)@),
            final(self)@.nonce == old(self)@.nonce + 1,
            r@ == le_bytes(old(self)@.nonce as nat, 8),
    {
        let nonce = self.nonce;
        self.nonce = nonce + 1;
        encode_u64(nonce)
    }

    /// Guesses the next drawn value. Every signed call that draws uses up one
    /// nonce, whether the guess is right or not; a right guess makes the
    /// signer the winner. Once the nonces are used up (at `u64::MAX`) no
    /// more draws are made: the call is refused as an overflow and changes
    /// nothing.
    pub fn guess<R: Randomness>(&mut self, source: &R, origin: Origin, guess: Hash256) -> (r: Result<(), Error>)
        requires
            old(self)@.wf(),
        ensures
            final(self)@.wf(),
            match origin {
                Origin::Unsigned => final(self)@ == old(self)@ && r == (Err::<(), Error>(Error::BadOrigin)),
                Origin::Signed(c) => if old(self)@.nonce == u64::MAX {
                    final(self)@ == old(self)@ && r == (Err::<(), Error>(Error::Overflow))
                } else {
                    exists|target: Seq<u8>|
                        (final(self)@, r) == resolve_guess_spec(next_nonce_spec(old(self)@), c, guess@, target)
                },
            },
    {
        let caller = match origin {
            Origin::Signed(a) => a,
            Origin::Unsigned => return Err(Error::BadOrigin),
        };
        if self.nonce == u64::MAX {
            return Err(Error::Overflow);
        }
        let subject = self.get_and_increment_nonce();
        let target = source.random(&subject);
        let r = self.resolve_guess(caller, &guess, &target);
        proof {
            assert((self@, r) == resolve_guess_spec(next_nonce_spec(old(self)@), caller, guess@, target@));
        }
        r
    }

    /// Settles a guess against the drawn `target`: a match makes `caller`
    /// the winner, a miss changes nothing.
    pub fn resolve_guess(&mut self, caller: AccountId, guess: &Hash256, target: &Hash256) -> (r: Result<(), Error>)
        requires
            old(self)@.wf(),
        ensures
            final(self)@.wf(),
            (final(self)@, r) == resolve_guess_spec(old(self)@, caller, guess@, target@),
    {
        if !same_hash(guess, target) {
            return Err(Error::IncorrectGuess);
        }
        self.winner = Some(caller);
        self.events.push(Event::NewWinner(caller));
        Ok(())
    }

    /// Runs one call, as the dispatcher routes it, with the effect of the
    /// operation it names.
    pub fn dispatch<R: Randomness>(&mut self, source: &R, origin: Origin, call: Call) -> (r: Result<(), Error>)
        requires
            old(self)@.wf(),
        ensures
            final(self)@.wf(),
            match call {
                Call::Init { supply } => (final(self)@, r) == init_spec(old(self)@, origin, supply),
                Call::Transfer { to, amount } => (final(self)@, r) == transfer_spec(old(self)@, origin, to, amount),
                Call::Mint { amount } => (final(self)@, r) == mint_spec(old(self)@, origin, amount),
                Call::SetImportantVal { new_val } => (final(self)@, r) == set_important_val_spec(old(self)@, origin, new_val),
                Call::Guess { guess } => match origin {
                    Origin::Unsigned => final(self)@ == old(self)@ && r == (Err::<(), Error>(Error::BadOrigin)),
                    Origin::Signed(c) => if old(self)@.nonce == u64::MAX {
                        final(self)@ == old(self)@ && r == (Err::<(), Error>(Error::Overflow))
                    } else {
                        exists|target: Seq<u8>|
                            (final(self)@, r) == resolve_guess_spec(next_nonce_spec(old(self)@), c, guess@, target)
                    },
                },
                Call::SubmitPriceUnsigned { block_number, price } => (final(self)@, r) == submit_price_spec(old(self)@, origin, block_number, price),
                Call::SubmitPrice { block_number, price } => (final(self)@, r) == submit_signed_price_spec(old(self)@, origin, block_number, price),
                Call::RecordFirstAmount { useful_amounts } => (final(self)@, r) == record_first_amount_spec(old(self)@, origin, useful_amounts@),
                Call::FindImportantValue { useful_amounts } => (final(self)@, r) == find_important_value_spec(old(self)@, origin, useful_amounts@),
                Call::DoWork { useful_amounts } => (final(self)@, r) == do_work_spec(old(self)@, origin, useful_amounts@),
            },
    {
        match call {
            Call::Init { supply } => self.init(origin, supply),
            Call::Transfer { to, amount } => self.transfer(origin, to, amount),
            Call::Mint { amount } => self.mint(origin, amount),
            Call::SetImportantVal { new_val } => self.set_important_val(origin, new_val),
            Call::Guess { guess } => self.guess(source, origin, guess),
            Call::SubmitPriceUnsigned { block_number, price } => self.submit_price_unsigned(origin, block_number, price),
            Call::SubmitPrice { block_number, price } => self.submit_price(origin, block_number, price),
            Call::RecordFirstAmount { useful_amounts } => self.record_first_amount(origin, useful_amounts),
            Call::FindImportantValue { useful_amounts } => self.find_important_value(origin, useful_amounts),
            Call::DoWork { useful_amounts } => self.do_work(origin, useful_amounts),
        }
    }

    /// The total supply.
    pub fn total_supply(&self) -> (r: u64)
        ensures
            r == self@.total_supply,
    {
        self.total_supply
    }

    /// Whether the ledger has been initialised.
    pub fn is_init(&self) -> (r: bool)
        ensures
            r == self@.initialized,
    {
        self.initialized
    }

    /// The balance of `who`.
    pub fn get_balance(&self, who: AccountId) -> (r: u64)
        requires
            self@.wf(),
        ensures
            r == self@.balance(who),
    {
        balance_of(&self.balances, who)
    }

    /// The privileged value.
    pub fn get_important_val(&self) -> (r: u64)
        ensures
            r == self@.important_val,
    {
        self.important_val
    }

    /// The last important value found.
    pub fn get_val(&self) -> (r: u64)
        ensures
            r == self@.found_val,
    {
        self.found_val
    }

    /// The amounts stored by the last `do_work`.
    pub fn useful_amounts(&self) -> (r: &Vec<u64>)
        ensures
            r@ == self@.useful_amounts,
    {
        &self.useful_amounts
    }

    /// The nonce of the next draw.
    pub fn get_nonce(&self) -> (r: u64)
        ensures
            r == self@.nonce,
    {
        self.nonce
    }

    /// The last account that guessed right.
    pub fn get_winner(&self) -> (r: Option<AccountId>)
        ensures
            r == self@.winner,
    {
        self.winner
    }

    /// The listed prices.
    pub fn prices(&self) -> (r: &Vec<u32>)
        ensures
            r@ == self@.prices,
    {
        price_items(&self.prices)
    }

    /// Everything recorded so far, oldest first.
    pub fn events(&self) -> (r: &Vec<Event>)
        ensures
            r@ == self@.events,
    {
        &self.events
    }
}

/// Whether two hashes hold the same bytes.
fn same_hash(a: &Hash256, b: &Hash256) -> (r: bool)
    ensures
        r == (a@ == b@),
{
    let mut i: usize = 0;
    while i < 32
        invariant
            i <= 32,
            a@.len() == 32,
            b@.len() == 32,
            forall|j: int| 0 <= j < i ==> a@[j] == b@[j],
        decreases 32 - i,
    {
        if a[i] != b[i] {
            return false;
        }
        i = i + 1;
    }
    proof {
        assert(a@ =~= b@);
    }
    true
}

/// `n` as eight little-endian bytes.
fn encode_u64(n: u64) -> (r: Vec<u8>)
    ensures
        r@ == le_bytes(n as nat, 8),
{
    let mut out: Vec<u8> = Vec::new();
    let mut x: u64 = n;
    let mut i: usize = 0;
    while i < 8
        invariant
            i <= 8,
            out@ + le_bytes(x as nat, (8 - i) as nat) == le_bytes(n as nat, 8),
        decreases 8 - i,
    {
        let ghost before = out@;
        let byte: u8 = (x % 256) as u8;
        proof {
            assert(le_bytes(x as nat, (8 - i) as nat) == seq![byte] + le_bytes(x as nat / 256, (8 - i - 1) as nat));
        }
        out.push(byte);
        x = x / 256;
        i = i + 1;
        proof {
            assert(before + (seq![byte] + le_bytes(x as nat, (8 - i) as nat)) =~= out@ + le_bytes(x as nat, (8 - i) as nat));
        }
    }
    proof {
        assert(out@ + le_bytes(x as nat, 0) =~= out@);
    }
    out
}

} // verus!
