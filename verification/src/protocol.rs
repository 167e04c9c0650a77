//! The extraction protocol: catch, type-check, consume or re-raise.

use vstd::prelude::*;

use crate::payload::Evaluation;
use crate::payload::Payload;
use crate::payload::PayloadKind;
use crate::payload::Termination;
use crate::terminator::DisasterWaitingToHappen;

verus! {

/// What the protocol yields for one pair, given what the protected region
/// observed and which payload kind the catch site expects:
/// a normal return is a contract violation, trapped as a fresh termination
/// with the fixed catastrophic-success diagnostic; a caught termination whose
/// payload matches the expected kind is consumed into that payload; any other
/// termination is handed on unchanged.
pub open spec fn outcome(eval: Evaluation, expected: PayloadKind) -> Result<Payload, Termination> {
    match eval {
        Evaluation::Returned => Err(Termination { payload: Payload::CatastrophicSuccess }),
        Evaluation::Terminated(t) => if t.payload.kind() == expected {
            Ok(t.payload)
        } else {
            Err(t)
        },
    }
}

/// One step of the extraction protocol, applied to what a protected region
/// observed. `Ok` is the extracted payload, of the expected kind; `Err` is a
/// termination that keeps propagating: either the original one, untouched,
/// or the catastrophic-success diagnostic if the expression returned
/// normally.
pub fn extract(eval: Evaluation, expected: PayloadKind) -> (r: Result<Payload, Termination>)
    ensures
        r == outcome(eval, expected),
{
    match eval {
        Evaluation::Returned => Err(Termination { payload: Payload::CatastrophicSuccess }),
        Evaluation::Terminated(t) => {
            if t.payload.kind_of() == expected {
                Ok(t.payload)
            } else {
                Err(t)
            }
        },
    }
}

/// The extraction protocol for a single pair: invokes the terminator inside
/// the protected region, then extracts. A matching payload comes back as the
/// typed value; a mismatch keeps the original termination propagating,
/// unchanged.
pub fn catastrophe<F: DisasterWaitingToHappen>(f: F, expected: PayloadKind) -> (r: Result<
    Payload,
    Termination,
>)
    requires
        f.armed(),
    ensures
        r == outcome(Evaluation::Terminated(Termination { payload: f.thrown() }), expected),
        f.thrown().kind() == expected ==> r == Ok::<Payload, Termination>(f.thrown()),
        f.thrown().kind() != expected ==> r == Err::<Payload, Termination>(
            Termination { payload: f.thrown() },
        ),
{
    extract(Evaluation::Terminated(f.HALT_AND_CATCH_FIRE()), expected)
}

/// The extraction protocol for two pairs, evaluated strictly left to right.
/// On full success the result is the pair of extracted payloads in the given
/// order. If the first pair mismatches, its termination propagates and the
/// second terminator is never invoked; hence the second pair's precondition
/// is owed only when the first pair matches.
pub fn catastrophe2<F1: DisasterWaitingToHappen, F2: DisasterWaitingToHappen>(
    f1: F1,
    k1: PayloadKind,
    f2: F2,
    k2: PayloadKind,
) -> (r: Result<(Payload, Payload), Termination>)
    requires
        f1.armed(),
        f1.thrown().kind() == k1 ==> f2.armed(),
    ensures
        f1.thrown().kind() == k1 && f2.thrown().kind() == k2 ==> r == Ok::<
            (Payload, Payload),
            Termination,
        >((f1.thrown(), f2.thrown())),
        f1.thrown().kind() != k1 ==> r == Err::<(Payload, Payload), Termination>(
            Termination { payload: f1.thrown() },
        ),
        f1.thrown().kind() == k1 && f2.thrown().kind() != k2 ==> r == Err::<
            (Payload, Payload),
            Termination,
        >(Termination { payload: f2.thrown() }),
{
    match catastrophe(f1, k1) {
        Ok(v1) => match catastrophe(f2, k2) {
            Ok(v2) => Ok((v1, v2)),
            Err(t) => Err(t),
        },
        Err(t) => Err(t),
    }
}

/// The extraction protocol for four pairs, evaluated strictly left to right.
/// On full success the result is the four extracted payloads in the given
/// order. The first mismatch propagates its own termination and stops the
/// protocol: terminators after it are never invoked, so each pair's
/// precondition is owed only while every earlier pair matches.
pub fn catastrophe4<
    F1: DisasterWaitingToHappen,
    F2: DisasterWaitingToHappen,
    F3: DisasterWaitingToHappen,
    F4: DisasterWaitingToHappen,
>(
    f1: F1,
    k1: PayloadKind,
    f2: F2,
    k2: PayloadKind,
    f3: F3,
    k3: PayloadKind,
    f4: F4,
    k4: PayloadKind,
) -> (r: Result<(Payload, Payload, Payload, Payload), Termination>)
    requires
        f1.armed(),
        f1.thrown().kind() == k1 ==> f2.armed(),
        f1.thrown().kind() == k1 && f2.thrown().kind() == k2 ==> f3.armed(),
        f1.thrown().kind() == k1 && f2.thrown().kind() == k2 && f3.thrown().kind() == k3
            ==> f4.armed(),
    ensures
        f1.thrown().kind() == k1 && f2.thrown().kind() == k2 && f3.thrown().kind() == k3
            && f4.thrown().kind() == k4 ==> r == Ok::<
            (Payload, Payload, Payload, Payload),
            Termination,
        >((f1.thrown(), f2.thrown(), f3.thrown(), f4.thrown())),
        f1.thrown().kind() != k1 ==> r == Err::<(Payload, Payload, Payload, Payload), Termination>(
            Termination { payload: f1.thrown() },
        ),
        f1.thrown().kind() == k1 && f2.thrown().kind() != k2 ==> r == Err::<
            (Payload, Payload, Payload, Payload),
            Termination,
        >(Termination { payload: f2.thrown() }),
        f1.thrown().kind() == k1 && f2.thrown().kind() == k2 && f3.thrown().kind() != k3 ==> r
            == Err::<(Payload, Payload, Payload, Payload), Termination>(
            Termination { payload: f3.thrown() },
        ),
        f1.thrown().kind() == k1 && f2.thrown().kind() == k2 && f3.thrown().kind() == k3
            && f4.thrown().kind() != k4 ==> r == Err::<
            (Payload, Payload, Payload, Payload),
            Termination,
        >(Termination { payload: f4.thrown() }),
{
    match catastrophe(f1, k1) {
        Ok(v1) => match catastrophe(f2, k2) {
            Ok(v2) => match catastrophe(f3, k3) {
                Ok(v3) => match catastrophe(f4, k4) {
                    Ok(v4) => Ok((v1, v2, v3, v4)),
                    Err(t) => Err(t),
                },
                Err(t) => Err(t),
            },
            Err(t) => Err(t),
        },
        Err(t) => Err(t),
    }
}

/// What the protocol yields for a whole list of (thrown payload, expected
/// kind) pairs, left to right: if every pair matches, the payloads in the
/// given order; otherwise the termination of the first mismatching pair,
/// unchanged, with no pair after it taking part.
pub open spec fn multi_outcome(pairs: Seq<(Payload, PayloadKind)>) -> Result<
    Seq<Payload>,
    Termination,
>
    decreases pairs.len(),
{
    if pairs.len() == 0 {
        Ok(Seq::empty())
    } else if pairs[0].0.kind() == pairs[0].1 {
        match multi_outcome(pairs.drop_first()) {
            Ok(rest) => Ok(seq![pairs[0].0] + rest),
            Err(t) => Err(t),
        }
    } else {
        Err(Termination { payload: pairs[0].0 })
    }
}

/// The payload each terminator of a pair list throws, beside its expected
/// kind.
pub open spec fn thrown_pairs<F: DisasterWaitingToHappen>(
    pairs: Seq<(F, PayloadKind)>,
) -> Seq<(Payload, PayloadKind)> {
    pairs.map_values(|pr: (F, PayloadKind)| (pr.0.thrown(), pr.1))
}

/// Whether every pair of the list, up to but not including position `i`,
/// throws a payload of its expected kind.
pub open spec fn matches_below(pairs: Seq<(Payload, PayloadKind)>, i: int) -> bool {
    forall|j: int| 0 <= j < i ==> (#[trigger] pairs[j]).0.kind() == pairs[j].1
}

/// The extraction protocol for a list of pairs of one terminator type,
/// evaluated strictly left to right with the same short-circuit rule as the
/// fixed-arity forms: each terminator is invoked only while every earlier
/// pair matched, so its precondition is owed only then.
fn extract_pairs<F: DisasterWaitingToHappen>(pairs: Vec<(F, PayloadKind)>) -> (r: Result<
    Vec<Payload>,
    Termination,
>)
    requires
        forall|i: int| 0 <= i < pairs@.len() ==> matches_below(thrown_pairs(pairs@), i) ==> (
        #[trigger] pairs@[i]).0.armed(),
    ensures
        (match multi_outcome(thrown_pairs(pairs@)) {
            Ok(s) => r matches Ok(v) && v@ == s,
            Err(t) => r matches Err(u) && u == t,
        }),
    decreases pairs@.len(),
{
    let ghost entry = pairs@;
    let mut pairs = pairs;
    if pairs.len() == 0 {
        proof {
            assert(thrown_pairs(entry) =~= Seq::empty());
        }
        Ok(Vec::new())
    } else {
        let (f, k) = pairs.remove(0);
        proof {
            assert(matches_below(thrown_pairs(entry), 0));
            assert(entry[0].0.armed());
        }
        match catastrophe(f, k) {
            Err(t) => Err(t),
            Ok(v) => {
                proof {
                    assert(thrown_pairs(pairs@) =~= thrown_pairs(entry).drop_first());
                    assert forall|i: int|
                        0 <= i < pairs@.len() && matches_below(
                            thrown_pairs(pairs@),
                            i,
                        ) implies (#[trigger] pairs@[i]).0.armed() by {
                        assert forall|j: int| 0 <= j < i + 1 implies (#[trigger] thrown_pairs(
                            entry,
                        )[j]).0.kind() == thrown_pairs(entry)[j].1 by {
                            if j == 0 {
                                assert(thrown_pairs(entry)[0].0 == f.thrown());
                            } else {
                                assert(thrown_pairs(entry)[j] == thrown_pairs(pairs@)[j - 1]);
                                assert((thrown_pairs(pairs@)[j - 1]).0.kind() == thrown_pairs(
                                    pairs@,
                                )[j - 1].1);
                            }
                        }
                        assert(matches_below(thrown_pairs(entry), i + 1));
                        assert(pairs@[i] == entry[i + 1]);
                    }
                }
                match extract_pairs(pairs) {
                    Ok(mut vs) => {
                        vs.insert(0, v);
                        proof {
                            assert(vs@ =~= seq![v] + vs@.drop_first());
                        }
                        Ok(vs)
                    },
                    Err(t) => Err(t),
                }
            },
        }
    }
}

/// The extraction protocol for a list of one or more pairs of one terminator
/// type: each pair's terminator is invoked inside its own protected region,
/// strictly left to right. On full success the result holds the extracted
/// payloads in the given order; the first mismatch propagates its own
/// termination unchanged and no terminator after it is invoked, so each
/// pair's precondition is owed only while every earlier pair matches.
pub fn catastrophe_list<F: DisasterWaitingToHappen>(pairs: Vec<(F, PayloadKind)>) -> (r: Result<
    Vec<Payload>,
    Termination,
>)
    requires
        pairs@.len() >= 1,
        forall|i: int| 0 <= i < pairs@.len() ==> matches_below(thrown_pairs(pairs@), i) ==> (
        #[trigger] pairs@[i]).0.armed(),
    ensures
        (match multi_outcome(thrown_pairs(pairs@)) {
            Ok(s) => r matches Ok(v) && v@ == s,
            Err(t) => r matches Err(u) && u == t,
        }),
{
    extract_pairs(pairs)
}

} // verus!
