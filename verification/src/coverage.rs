//! Which parts of a container were read: the ranges noted, sorted and
//! merged by the interval collection of `rust_lapper`.

use rust_lapper::{Interval, Lapper};
use vstd::prelude::*;
use vstd::relations::{sorted_by, total_ordering};

verus! {

/// A collection of intervals of `rust_lapper`, each from a start to a stop
/// and with nothing attached.
#[verifier::external_body]
pub struct Coverage {
    lapper: Lapper<u64, ()>,
}

/// The ranges that a collection holds, in its order, each as its start and
/// its stop.
pub uninterp spec fn covered(coverage: Coverage) -> Seq<(u64, u64)>;

/// What `Lapper::merge_overlaps` leaves of a collection that held `sorted`.
pub uninterp spec fn merged_overlaps(sorted: Seq<(u64, u64)>) -> Seq<(u64, u64)>;

/// The order in which a collection keeps its ranges: by start, and among
/// equal starts by stop.
pub open spec fn range_leq() -> spec_fn((u64, u64), (u64, u64)) -> bool {
    |a: (u64, u64), b: (u64, u64)| a.0 < b.0 || (a.0 == b.0 && a.1 <= b.1)
}

/// Whether every range stops before the next one starts.
pub open spec fn separated(ranges: Seq<(u64, u64)>) -> bool {
    forall|i: int| 0 <= i < ranges.len() - 1 ==> (#[trigger] ranges[i]).1 < ranges[i + 1].0
}

/// `Lapper::new`: a collection of the given ranges. It sorts them by start
/// and then by stop, and holds all of them and nothing else.
#[verifier::external_body]
fn coverage_new(ranges: &Vec<(u64, u64)>) -> (coverage: Coverage)
    ensures
        sorted_by(covered(coverage), range_leq()),
        covered(coverage).to_multiset() == ranges@.to_multiset(),
{
    Coverage {
        lapper: Lapper::new(
            ranges.iter().map(|r| Interval { start: r.0, stop: r.1, val: () }).collect(),
        ),
    }
}

/// `Lapper::merge_overlaps`: walks the ranges in their order and lets each
/// one that starts no later than the stop of the last one kept widen that
/// one instead of being kept itself. What is left depends on the ranges
/// alone. A range is kept only if it starts after the stop of the one kept
/// before it, and the first range is always kept, with its start.
#[verifier::external_body]
fn coverage_merge_overlaps(coverage: &mut Coverage)
    ensures
        covered(*final(coverage)) == merged_overlaps(covered(*old(coverage))),
        separated(covered(*final(coverage))),
        covered(*final(coverage)).len() <= covered(*old(coverage)).len(),
        covered(*old(coverage)).len() > 0 ==> covered(*final(coverage)).len() > 0 && covered(
            *final(coverage),
        )[0].0 == covered(*old(coverage))[0].0,
{
    coverage.lapper.merge_overlaps()
}

/// `Lapper::iter`: the ranges that the collection holds, in its order.
#[verifier::external_body]
fn coverage_ranges(coverage: &Coverage) -> (ranges: Vec<(u64, u64)>)
    ensures
        ranges@ == covered(*coverage),
{
    coverage.lapper.iter().map(|iv| (iv.start, iv.stop)).collect()
}

/// The order of ranges is a total order.
pub proof fn lemma_range_leq_total()
    ensures
        total_ordering(range_leq()),
{
    let leq = range_leq();
    assert forall|x: (u64, u64), y: (u64, u64)| #[trigger] leq(x, y) && #[trigger] leq(y, x) implies x == y by {}
}

/// The ranges sorted by start and then by stop.
pub open spec fn sorted_ranges(ranges: Seq<(u64, u64)>) -> Seq<(u64, u64)> {
    ranges.sort_by(range_leq())
}

/// Sorts the ranges and merges those that overlap or touch.
pub fn merge_ranges(ranges: &Vec<(u64, u64)>) -> (merged: Vec<(u64, u64)>)
    ensures
        merged@ == merged_overlaps(sorted_ranges(ranges@)),
        separated(merged@),
        merged@.len() <= ranges@.len(),
        ranges@.len() > 0 ==> merged@.len() > 0 && merged@[0].0 == sorted_ranges(ranges@)[0].0,
{
    let mut coverage = coverage_new(ranges);
    proof {
        lemma_range_leq_total();
        ranges@.lemma_sort_by_ensures(range_leq());
        vstd::seq_lib::lemma_sorted_unique(covered(coverage), sorted_ranges(ranges@), range_leq());
        ranges@.to_multiset_ensures();
        covered(coverage).to_multiset_ensures();
    }
    coverage_merge_overlaps(&mut coverage);
    coverage_ranges(&coverage)
}

} // verus!
