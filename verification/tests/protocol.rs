use catastrophe::payload::Evaluation;
use catastrophe::payload::Payload;
use catastrophe::payload::PayloadKind;
use catastrophe::payload::Termination;
use catastrophe::protocol::catastrophe2;
use catastrophe::protocol::catastrophe4;
use catastrophe::protocol::catastrophe_list;
use catastrophe::protocol::extract;
use catastrophe::protocol::catastrophe;
use catastrophe::terminator::DisasterWaitingToHappen;
use catastrophe::terminator::Thrower;

#[test]
fn test_kind_of() {
    assert_eq!(Payload::Int(-4).kind_of(), PayloadKind::Int);
    assert_eq!(Payload::Flag(false).kind_of(), PayloadKind::Flag);
    assert_eq!(Payload::IntRange(2, 8).kind_of(), PayloadKind::IntRange);
    assert_eq!(
        Payload::CatastrophicSuccess.kind_of(),
        PayloadKind::CatastrophicSuccess
    );
}

#[test]
fn test_round_trip_int() {
    let thrown = Thrower { payload: Payload::Int(7) };
    assert_eq!(catastrophe(thrown, PayloadKind::Int), Ok(Payload::Int(7)));
}

#[test]
fn test_round_trip_flag() {
    let thrown = Thrower { payload: Payload::Flag(true) };
    assert_eq!(catastrophe(thrown, PayloadKind::Flag), Ok(Payload::Flag(true)));
}

#[test]
fn test_round_trip_range() {
    let thrown = Thrower { payload: Payload::IntRange(3, 9) };
    assert_eq!(
        catastrophe(thrown, PayloadKind::IntRange),
        Ok(Payload::IntRange(3, 9))
    );
}

#[test]
fn test_mismatch_passes_through_unchanged() {
    let thrown = Thrower { payload: Payload::Flag(true) };
    let kept = match catastrophe(thrown, PayloadKind::Int) {
        Ok(_) => panic!("a mismatched payload must not be extracted"),
        Err(t) => t,
    };
    assert_eq!(kept.payload, Payload::Flag(true));
    // An outer handler expecting the payload's own kind recovers the value.
    let outer = extract(Evaluation::Terminated(kept), PayloadKind::Flag);
    assert_eq!(outer, Ok(Payload::Flag(true)));
}

#[test]
fn test_normal_return_is_catastrophic_success() {
    let r = extract(Evaluation::Returned, PayloadKind::Int);
    let diagnostic = match r {
        Ok(_) => panic!("a normal return must never extract"),
        Err(t) => t.payload,
    };
    assert_eq!(diagnostic, Payload::CatastrophicSuccess);
    // The diagnostic is its own kind, distinguishable from every user payload.
    assert_ne!(diagnostic.kind_of(), PayloadKind::Int);
    assert_ne!(diagnostic.kind_of(), Payload::Int(0).kind_of());
    assert_ne!(diagnostic.kind_of(), Payload::Flag(false).kind_of());
    assert_ne!(diagnostic.kind_of(), Payload::IntRange(0, 1).kind_of());
}

#[test]
fn test_multi_pair_order() {
    let r = catastrophe4(
        Thrower { payload: Payload::Int(1) },
        PayloadKind::Int,
        Thrower { payload: Payload::Flag(true) },
        PayloadKind::Flag,
        Thrower { payload: Payload::IntRange(0, 5) },
        PayloadKind::IntRange,
        Thrower { payload: Payload::Int(9) },
        PayloadKind::Int,
    );
    assert_eq!(
        r,
        Ok((
            Payload::Int(1),
            Payload::Flag(true),
            Payload::IntRange(0, 5),
            Payload::Int(9),
        ))
    );
}

#[test]
fn test_short_circuit_two_pairs() {
    let r = catastrophe2(
        Thrower { payload: Payload::Int(1) },
        PayloadKind::Int,
        Thrower { payload: Payload::Flag(false) },
        PayloadKind::Int,
    );
    assert_eq!(r, Err(Termination { payload: Payload::Flag(false) }));
}

#[test]
fn test_short_circuit_first_mismatch_wins() {
    // Pair two is the first mismatch; the mismatches after it have no say.
    let r = catastrophe4(
        Thrower { payload: Payload::Int(1) },
        PayloadKind::Int,
        Thrower { payload: Payload::IntRange(1, 2) },
        PayloadKind::Flag,
        Thrower { payload: Payload::Flag(true) },
        PayloadKind::Int,
        Thrower { payload: Payload::Int(4) },
        PayloadKind::Flag,
    );
    assert_eq!(r, Err(Termination { payload: Payload::IntRange(1, 2) }));
}

#[test]
fn test_list_protocol_order() {
    let pairs = vec![
        (Thrower { payload: Payload::Int(10) }, PayloadKind::Int),
        (Thrower { payload: Payload::Flag(false) }, PayloadKind::Flag),
        (Thrower { payload: Payload::Int(30) }, PayloadKind::Int),
    ];
    let r = catastrophe_list(pairs);
    assert_eq!(
        r,
        Ok(vec![Payload::Int(10), Payload::Flag(false), Payload::Int(30)])
    );
}

#[test]
fn test_list_protocol_single_pair() {
    let pairs = vec![(Thrower { payload: Payload::Int(10) }, PayloadKind::Int)];
    assert_eq!(catastrophe_list(pairs), Ok(vec![Payload::Int(10)]));
}

#[test]
fn test_list_protocol_short_circuit() {
    let pairs = vec![
        (Thrower { payload: Payload::Int(10) }, PayloadKind::Int),
        (Thrower { payload: Payload::Int(20) }, PayloadKind::Flag),
        (Thrower { payload: Payload::Flag(true) }, PayloadKind::Int),
    ];
    let r = catastrophe_list(pairs);
    assert_eq!(r, Err(Termination { payload: Payload::Int(20) }));
}

#[test]
fn test_thrower_throws_its_payload() {
    let t = Thrower { payload: Payload::Int(-12) }.HALT_AND_CATCH_FIRE();
    assert_eq!(t.payload, Payload::Int(-12));
}
