use vstd::prelude::*;
use crate::{advanced, event_of, TransferView};

verus! {

/// The state after each of `deltas` was observed, in order.
pub open spec fn advanced_by_all(s: TransferView, deltas: Seq<nat>) -> TransferView
    decreases deltas.len(),
{
    if deltas.len() == 0 {
        s
    } else {
        advanced(advanced_by_all(s, deltas.drop_last()), deltas.last())
    }
}

proof fn offset_grows(s: TransferView, deltas: Seq<nat>, i: int, j: int)
    requires
        s.offset <= usize::MAX,
        0 <= i <= j <= deltas.len(),
    ensures
        advanced_by_all(s, deltas.take(i)).offset <= advanced_by_all(s, deltas.take(j)).offset,
        advanced_by_all(s, deltas.take(j)).total == s.total,
        advanced_by_all(s, deltas.take(j)).offset <= usize::MAX,
    decreases j,
{
    if j > 0 {
        assert(deltas.take(j).drop_last() =~= deltas.take(j - 1));
        if i < j {
            offset_grows(s, deltas, i, j - 1);
        } else {
            offset_grows(s, deltas, 0, j - 1);
        }
    } else {
        assert(deltas.take(0) =~= Seq::<nat>::empty());
    }
}

/// Over any sequence of updates whose sizes add up to at most the expected
/// size, the reported fraction never decreases and always lies between zero
/// and one.
pub proof fn fraction_is_monotone_and_bounded(
    s: TransferView,
    deltas: Seq<nat>,
    i: int,
    j: int,
    ti: nat,
    tj: nat,
)
    requires
        s.total > 0,
        s.offset <= usize::MAX,
        s.offset + deltas.fold_left(0nat, |acc: nat, d: nat| acc + d) <= s.total,
        0 <= i <= j <= deltas.len(),
    ensures
        ({
            let ei = event_of(advanced_by_all(s, deltas.take(i)), ti);
            let ej = event_of(advanced_by_all(s, deltas.take(j)), tj);
            &&& ei.fraction_den > 0 && ei.fraction_num <= ei.fraction_den
            &&& ej.fraction_den > 0 && ej.fraction_num <= ej.fraction_den
            &&& ei.fraction_num * ej.fraction_den <= ej.fraction_num * ei.fraction_den
        }),
{
    offset_grows(s, deltas, i, j);
    offset_grows(s, deltas, 0, i);
    let ei = event_of(advanced_by_all(s, deltas.take(i)), ti);
    let ej = event_of(advanced_by_all(s, deltas.take(j)), tj);
    assert(ei.fraction_den == s.total && ej.fraction_den == s.total);
    assert(ei.fraction_num <= ej.fraction_num);
    assert(ei.fraction_num * s.total <= ej.fraction_num * s.total) by (nonlinear_arith)
        requires
            ei.fraction_num <= ej.fraction_num,
    ;
}

/// Once the bytes observed reach or pass the expected size, the reported
/// fraction is exactly one and no time remains.
pub proof fn complete_transfer_reports_no_remaining_time(s: TransferView, elapsed: nat)
    requires
        s.offset >= s.total,
    ensures
        event_of(s, elapsed).fraction_num == event_of(s, elapsed).fraction_den,
        event_of(s, elapsed).fraction_den > 0,
        event_of(s, elapsed).remaining_nanos == 0,
{
}

/// Successive events carry the elapsed times at which they were made, so
/// they strictly increase when time passes between the calls.
pub proof fn elapsed_time_increases(s: TransferView, d1: nat, d2: nat, t1: nat, t2: nat)
    requires
        t1 < t2,
    ensures
        event_of(advanced(s, d1), t1).elapsed_nanos < event_of(
            advanced(advanced(s, d1), d2),
            t2,
        ).elapsed_nanos,
{
}

/// Two updates applied in either order leave the same state, and, short of
/// the machine limit, the byte count grows by exactly their sum.
pub proof fn updates_commute(s: TransferView, a: nat, b: nat)
    requires
        s.offset <= usize::MAX,
    ensures
        advanced(advanced(s, a), b) == advanced(advanced(s, b), a),
        s.offset + a + b <= usize::MAX ==> advanced(advanced(s, a), b).offset == s.offset + a
            + b,
{
}

} // verus!
