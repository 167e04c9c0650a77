//! The guarantees of the extraction protocol, stated and proved once for all
//! inputs.

use vstd::prelude::*;

use crate::payload::Evaluation;
use crate::payload::Payload;
use crate::payload::PayloadKind;
use crate::payload::Termination;
use crate::protocol::matches_below;
use crate::protocol::multi_outcome;
use crate::protocol::outcome;

verus! {

/// Round-trip identity: a payload thrown and immediately extracted with its
/// own kind comes back as exactly the value that was thrown.
pub proof fn lemma_round_trip_identity(p: Payload)
    ensures
        outcome(Evaluation::Terminated(Termination { payload: p }), p.kind()) == Ok::<
            Payload,
            Termination,
        >(p),
{
}

/// Type-mismatch pass-through: a caught payload of some other kind than the
/// expected one is never consumed into a value; the original termination
/// keeps propagating unchanged, and an outer extraction expecting the
/// payload's own kind recovers the original value.
pub proof fn lemma_type_mismatch_pass_through(p: Payload, expected: PayloadKind)
    requires
        p.kind() != expected,
    ensures
        outcome(Evaluation::Terminated(Termination { payload: p }), expected) == Err::<
            Payload,
            Termination,
        >(Termination { payload: p }),
        outcome(Evaluation::Terminated(Termination { payload: p }), p.kind()) == Ok::<
            Payload,
            Termination,
        >(p),
{
}

/// Catastrophic success: whatever kind the catch site expects, a normal
/// return from the protected region yields the fixed diagnostic termination,
/// never an extracted value; and the diagnostic payload is the only payload
/// of its kind, so no user payload can be mistaken for it.
pub proof fn lemma_catastrophic_success(expected: PayloadKind)
    ensures
        outcome(Evaluation::Returned, expected) == Err::<Payload, Termination>(
            Termination { payload: Payload::CatastrophicSuccess },
        ),
        forall|p: Payload|
            (#[trigger] p.kind()) == PayloadKind::CatastrophicSuccess <==> p
                == Payload::CatastrophicSuccess,
{
}

/// Multi-pair ordering and aggregation: when every pair of the list throws a
/// payload of its expected kind, the protocol yields exactly those payloads,
/// in the order the pairs were given.
pub proof fn lemma_multi_pair_ordering(pairs: Seq<(Payload, PayloadKind)>)
    requires
        matches_below(pairs, pairs.len() as int),
    ensures
        multi_outcome(pairs) == Ok::<Seq<Payload>, Termination>(
            pairs.map_values(|pr: (Payload, PayloadKind)| pr.0),
        ),
    decreases pairs.len(),
{
    let vals = pairs.map_values(|pr: (Payload, PayloadKind)| pr.0);
    if pairs.len() == 0 {
        assert(vals =~= Seq::empty());
    } else {
        let rest = pairs.drop_first();
        assert(pairs[0].0.kind() == pairs[0].1);
        assert forall|j: int| 0 <= j < rest.len() implies (#[trigger] rest[j]).0.kind()
            == rest[j].1 by {
            assert(rest[j] == pairs[j + 1]);
            assert((pairs[j + 1]).0.kind() == pairs[j + 1].1);
        }
        lemma_multi_pair_ordering(rest);
        assert(vals =~= seq![pairs[0].0] + rest.map_values(|pr: (Payload, PayloadKind)| pr.0));
    }
}

/// Left-to-right short-circuit: if every pair before position `k` matches its
/// expected kind and the pair at `k` does not, the whole protocol yields the
/// termination of pair `k`, unchanged — and the pairs after `k` have no part
/// in the result, which is the same as for the list cut off right after `k`.
pub proof fn lemma_short_circuit(pairs: Seq<(Payload, PayloadKind)>, k: int)
    requires
        0 <= k < pairs.len(),
        matches_below(pairs, k),
        pairs[k].0.kind() != pairs[k].1,
    ensures
        multi_outcome(pairs) == Err::<Seq<Payload>, Termination>(
            Termination { payload: pairs[k].0 },
        ),
        multi_outcome(pairs) == multi_outcome(pairs.take(k + 1)),
    decreases k,
{
    if k == 0 {
        assert(pairs.take(1)[0] == pairs[0]);
    } else {
        let rest = pairs.drop_first();
        assert(pairs[0].0.kind() == pairs[0].1);
        assert forall|j: int| 0 <= j < k - 1 implies (#[trigger] rest[j]).0.kind() == rest[j].1 by {
            assert(rest[j] == pairs[j + 1]);
            assert((pairs[j + 1]).0.kind() == pairs[j + 1].1);
        }
        assert(rest[k - 1] == pairs[k]);
        lemma_short_circuit(rest, k - 1);
        let cut = pairs.take(k + 1);
        assert(cut[0] == pairs[0]);
        assert(cut.drop_first() =~= rest.take(k));
    }
}

} // verus!
