use vstd::prelude::*;

use crate::types::Call;

verus! {

/// A weight that grows with the number of amounts a call carries: the
/// per-item cost times the item count, capped at the largest weight.
pub struct MyWeightFunction(pub u64);

/// `x * y`, or `u64::MAX` where the product does not fit.
pub open spec fn saturating_product(x: u64, y: u64) -> u64 {
    if x * y > u64::MAX {
        u64::MAX
    } else {
        (x * y) as u64
    }
}

impl MyWeightFunction {
    /// The weight of a call that carries `amounts`.
    pub fn weigh_data(&self, amounts: &Vec<u64>) -> (r: u64)
        ensures
            r == saturating_product(self.0, amounts@.len() as u64),
    {
        let n: u64 = amounts.len() as u64;
        match self.0.checked_mul(n) {
            Some(w) => w,
            None => u64::MAX,
        }
    }
}

/// The weight of a call whose cost does not depend on its input.
pub const BASE_CALL_WEIGHT: u64 = 10_000;

/// The weight of each amount that `do_work` stores.
pub const PER_AMOUNT_WEIGHT: u64 = 10_000_000;

/// The weight of each amount that `find_important_value` or
/// `record_first_amount` is handed.
pub const PER_CARRIED_AMOUNT_WEIGHT: u64 = 1_000;

/// `x + y`, or `u64::MAX` where the sum does not fit.
pub open spec fn saturating_sum_u64(x: u64, y: u64) -> u64 {
    if x + y > u64::MAX {
        u64::MAX
    } else {
        (x + y) as u64
    }
}

/// The weight declared for `call`: every call costs at least the base
/// weight, and a call that carries a list of amounts costs in proportion to
/// its length on top (most for `DoWork`, which stores them all).
pub open spec fn call_weight(call: Call) -> u64 {
    match call {
        Call::DoWork { useful_amounts } => saturating_sum_u64(
            BASE_CALL_WEIGHT,
            saturating_product(PER_AMOUNT_WEIGHT, useful_amounts@.len() as u64),
        ),
        Call::FindImportantValue { useful_amounts } | Call::RecordFirstAmount { useful_amounts } => saturating_sum_u64(
            BASE_CALL_WEIGHT,
            saturating_product(PER_CARRIED_AMOUNT_WEIGHT, useful_amounts@.len() as u64),
        ),
        _ => BASE_CALL_WEIGHT,
    }
}

impl Call {
    /// The weight the dispatcher charges for this call.
    pub fn weight(&self) -> (r: u64)
        ensures
            r == call_weight(*self),
    {
        let per_item: u64 = match self {
            Call::DoWork { useful_amounts } => MyWeightFunction(PER_AMOUNT_WEIGHT).weigh_data(useful_amounts),
            Call::FindImportantValue { useful_amounts } | Call::RecordFirstAmount { useful_amounts } => MyWeightFunction(PER_CARRIED_AMOUNT_WEIGHT).weigh_data(useful_amounts),
            _ => 0,
        };
        BASE_CALL_WEIGHT.saturating_add(per_item)
    }
}

} // verus!
