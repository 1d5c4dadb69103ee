use vstd::prelude::*;

use frame_support::traits::ConstU32;
use frame_support::BoundedVec;

verus! {

/// How many prices the list keeps.
pub const MAX_PRICES: u32 = 16;

#[verifier::external_type_specification]
#[verifier::external_body]
#[verifier::reject_recursive_types(T)]
#[verifier::reject_recursive_types(S)]
pub struct ExBoundedVec<T, S>(BoundedVec<T, S>);

#[verifier::external_type_specification]
#[verifier::external_body]
pub struct ExConstU32<const N: u32>(ConstU32<N>);

/// The prices a bounded price vector holds, in order.
pub uninterp spec fn price_list(v: BoundedVec<u32, ConstU32<MAX_PRICES>>) -> Seq<u32>;

/// Relies on `BoundedVec::new`: a new bounded vector holds nothing.
#[verifier::external_body]
pub(crate) fn new_prices() -> (r: BoundedVec<u32, ConstU32<MAX_PRICES>>)
    ensures
        price_list(r) == Seq::<u32>::empty(),
{
    BoundedVec::new()
}

/// Relies on `BoundedVec`'s `Deref`, which hands out the inner `Vec` of the
/// items in order.
#[verifier::external_body]
pub(crate) fn price_items(v: &BoundedVec<u32, ConstU32<MAX_PRICES>>) -> (r: &Vec<u32>)
    ensures
        r@ == price_list(*v),
{
    &**v
}

/// Relies on `BoundedVec::try_push`: below the bound (`ConstU32<N>` gives
/// `N`) it appends, at the bound it hands the price back and changes nothing.
#[verifier::external_body]
pub(crate) fn try_push_price(v: &mut BoundedVec<u32, ConstU32<MAX_PRICES>>, price: u32) -> (r: Result<(), u32>)
    ensures
        price_list(*old(v)).len() < MAX_PRICES ==> r == (Ok::<(), u32>(()))
            && price_list(*final(v)) == price_list(*old(v)).push(price),
        price_list(*old(v)).len() >= MAX_PRICES ==> r == (Err::<(), u32>(price))
            && price_list(*final(v)) == price_list(*old(v)),
{
    v.try_push(price)
}

/// Relies on `BoundedVec`'s `IndexMut`, which indexes the inner `Vec`: the
/// price at `i` is overwritten.
#[verifier::external_body]
pub(crate) fn set_price(v: &mut BoundedVec<u32, ConstU32<MAX_PRICES>>, i: usize, price: u32)
    requires
        i < price_list(*old(v)).len(),
    ensures
        price_list(*final(v)) == price_list(*old(v)).update(i as int, price),
{
    v[i] = price;
}

} // verus!
