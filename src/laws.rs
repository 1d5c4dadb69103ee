use vstd::prelude::*;

use crate::balances::{lemma_balance_le_sum, lemma_set_entry, set_entry, sum_of};
use crate::state::{
    init_spec, mint_spec, next_nonce_spec, prices_with, resolve_guess_spec, set_important_val_spec,
    submit_price_spec, transfer_spec, PalletState,
};
use crate::price_list::MAX_PRICES;
use crate::types::{AccountId, Error, Origin};

verus! {

/// The state after the transfers `steps`, each `(origin, to, amount)`, in order.
pub open spec fn after_transfers(s: PalletState, steps: Seq<(Origin, AccountId, u64)>) -> PalletState
    decreases steps.len(),
{
    if steps.len() == 0 {
        s
    } else {
        let step = steps.last();
        transfer_spec(after_transfers(s, steps.drop_last()), step.0, step.1, step.2).0
    }
}

/// The state after the unsigned price submissions `subs`, each
/// `(block_number, price)`, in order.
pub open spec fn after_submissions(s: PalletState, subs: Seq<(u64, u32)>) -> PalletState
    decreases subs.len(),
{
    if subs.len() == 0 {
        s
    } else {
        let sub = subs.last();
        submit_price_spec(after_submissions(s, subs.drop_last()), Origin::Unsigned, sub.0, sub.1).0
    }
}

/// A transfer keeps the invariant, the total supply and the initialised flag.
pub proof fn lemma_transfer_preserves(s: PalletState, origin: Origin, to: AccountId, amount: u64)
    requires
        s.wf(),
    ensures
        transfer_spec(s, origin, to, amount).0.wf(),
        transfer_spec(s, origin, to, amount).0.total_supply == s.total_supply,
        transfer_spec(s, origin, to, amount).0.initialized == s.initialized,
{
    if let Origin::Signed(from) = origin {
        lemma_balance_le_sum(s.balances, from);
        lemma_balance_le_sum(s.balances, to);
        if amount <= s.balance(from) && from != to && s.balance(to) + amount <= u64::MAX {
            let debit = (s.balance(from) - amount) as u64;
            lemma_set_entry(s.balances, from, debit);
            lemma_set_entry(set_entry(s.balances, from, debit), to, (s.balance(to) + amount) as u64);
        }
    }
}

/// Conservation: on an initialised ledger, whatever transfers run (those that
/// succeed and those that are refused), the balances add up to the total
/// supply afterwards, and the total supply does not move.
pub proof fn law_transfers_conserve_supply(s: PalletState, steps: Seq<(Origin, AccountId, u64)>)
    requires
        s.wf(),
        s.initialized,
    ensures
        after_transfers(s, steps).wf(),
        after_transfers(s, steps).total_supply == s.total_supply,
        sum_of(after_transfers(s, steps).balances) == after_transfers(s, steps).total_supply,
    decreases steps.len(),
{
    if steps.len() > 0 {
        law_transfers_conserve_supply(s, steps.drop_last());
        let step = steps.last();
        lemma_transfer_preserves(after_transfers(s, steps.drop_last()), step.0, step.1, step.2);
    }
}

/// Initialisation happens once: after a successful `init`, a second one is
/// refused (as already initialised, where it is signed) and leaves the state
/// exactly as the first call left it.
pub proof fn law_init_only_once(s: PalletState, first: Origin, supply: u64, second: Origin, supply_again: u64)
    requires
        init_spec(s, first, supply).1 is Ok,
    ensures
        init_spec(init_spec(s, first, supply).0, second, supply_again).0 == init_spec(s, first, supply).0,
        second is Signed ==> init_spec(init_spec(s, first, supply).0, second, supply_again).1
            == (Err::<(), Error>(Error::AlreadyInitialized)),
{
}

/// A transfer of more than the sender holds is refused for insufficient funds
/// and changes no balance (nor anything else).
pub proof fn law_overdraft_refused(s: PalletState, from: AccountId, to: AccountId, amount: u64)
    requires
        amount > s.balance(from),
    ensures
        transfer_spec(s, Origin::Signed(from), to, amount) == (s, (Err::<(), Error>(Error::InsufficientFunds))),
        transfer_spec(s, Origin::Signed(from), to, amount).0.balance(from) == s.balance(from),
        transfer_spec(s, Origin::Signed(from), to, amount).0.balance(to) == s.balance(to),
{
}

/// A transfer to oneself of no more than one holds succeeds and leaves every
/// balance as it was.
pub proof fn law_self_transfer_keeps_balance(s: PalletState, a: AccountId, amount: u64)
    requires
        amount <= s.balance(a),
    ensures
        transfer_spec(s, Origin::Signed(a), a, amount).1 is Ok,
        forall|b: AccountId| #[trigger] transfer_spec(s, Origin::Signed(a), a, amount).0.balance(b) == s.balance(b),
{
}

/// The price list never grows past its capacity: from an empty list, after
/// any number of unsigned submissions its length is that number or the
/// capacity, whichever is smaller.
pub proof fn law_price_list_bounded(s: PalletState, subs: Seq<(u64, u32)>)
    requires
        s.prices.len() == 0,
    ensures
        after_submissions(s, subs).prices.len() == if subs.len() < MAX_PRICES { subs.len() } else { MAX_PRICES as nat },
        after_submissions(s, subs).prices.len() <= MAX_PRICES,
    decreases subs.len(),
{
    if subs.len() > 0 {
        law_price_list_bounded(s, subs.drop_last());
        let t = after_submissions(s, subs.drop_last());
        let sub = subs.last();
        let p = prices_with(t.prices, sub.1);
        if t.prices.len() < MAX_PRICES {
            assert(p.len() == t.prices.len() + 1);
        } else {
            assert(p.len() == t.prices.len());
        }
    }
}

/// A call from anyone but the authority cannot set the privileged value: it
/// is refused as unauthorised, the value stays, and no event is recorded.
pub proof fn law_unauthorized_cannot_set(s: PalletState, origin: Origin, v: u64)
    requires
        origin != Origin::Signed(s.authority),
    ensures
        set_important_val_spec(s, origin, v) == (s, (Err::<(), Error>(Error::Unauthorized))),
        set_important_val_spec(s, origin, v).0.important_val == s.important_val,
        set_important_val_spec(s, origin, v).0.events == s.events,
{
}

/// A draw uses up exactly one nonce, whatever the guess: a right guess makes
/// the caller the winner, a wrong one is refused and keeps the winner. (At
/// `u64::MAX` no draw is made at all, so the nonce never comes round again.)
pub proof fn law_guess_uses_one_nonce(s: PalletState, caller: AccountId, guess: Seq<u8>, target: Seq<u8>)
    requires
        s.nonce < u64::MAX,
    ensures
        resolve_guess_spec(next_nonce_spec(s), caller, guess, target).0.nonce == s.nonce + 1,
        guess == target ==> resolve_guess_spec(next_nonce_spec(s), caller, guess, target).1 is Ok
            && resolve_guess_spec(next_nonce_spec(s), caller, guess, target).0.winner == Some(caller),
        guess != target ==> resolve_guess_spec(next_nonce_spec(s), caller, guess, target).1
            == (Err::<(), Error>(Error::IncorrectGuess))
            && resolve_guess_spec(next_nonce_spec(s), caller, guess, target).0.winner == s.winner,
{
}

/// Minting past the balance maximum is refused as an overflow and changes
/// nothing, whether or not the ledger is initialised.
pub proof fn law_mint_overflow_refused(s: PalletState, who: AccountId, amount: u64)
    requires
        s.total_supply + amount > u64::MAX,
    ensures
        mint_spec(s, Origin::Signed(who), amount) == (s, (Err::<(), Error>(Error::Overflow))),
{
}

} // verus!
