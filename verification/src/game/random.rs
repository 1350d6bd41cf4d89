//! The random source. Every draw of the generator goes through the two
//! functions below; their contracts are taken on trust from the `rand` crate
//! and say only what holds of every outcome.

use rand::rngs::StdRng;
use rand::seq::IndexedRandom;
use rand::Rng;
use vstd::prelude::*;

verus! {

/// `rand::rngs::StdRng`, the generator that callers seed and hand in.
#[verifier::external_type_specification]
#[verifier::external_body]
pub struct ExStdRng(StdRng);

/// Calls `rand::Rng::random_range` on the inclusive range `low..=high`.
///
/// Trusted: the value lies in the range. The call panics on an empty range,
/// which `low <= high` rules out.
#[verifier::external_body]
pub(crate) fn draw_between(rng: &mut StdRng, low: u64, high: u64) -> (value: u64)
    requires
        low <= high,
    ensures
        low <= value <= high,
{
    rng.random_range(low..=high)
}

/// Whether `name` is the text of one of `names`.
pub open spec fn is_candidate(names: Seq<String>, name: Seq<char>) -> bool {
    exists|i: int| 0 <= i < names.len() && (#[trigger] names[i])@ == name
}

/// Calls `rand::seq::IndexedRandom::choose` on the list of names and clones
/// what it picked.
///
/// Trusted: nothing is picked from an empty list, and from any other list one
/// of its entries is.
#[verifier::external_body]
pub(crate) fn choose_name(rng: &mut StdRng, names: &Vec<String>) -> (picked: Option<String>)
    ensures
        names@.len() == 0 ==> picked is None,
        names@.len() > 0 ==> picked is Some,
        picked matches Some(name) ==> is_candidate(names@, name@),
{
    names.choose(rng).cloned()
}

} // verus!
