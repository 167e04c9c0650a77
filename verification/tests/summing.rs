use catastrophe::payload::Payload;
use catastrophe::payload::PayloadKind;
use catastrophe::protocol::catastrophe;
use catastrophe::summing::QuadSummer;
use catastrophe::summing::RangeSummer;
use catastrophe::terminator::Thrower;

#[test]
fn test_add() {
    let nums = Thrower { payload: Payload::IntRange(1, 100) };
    let sum = match catastrophe(RangeSummer { ranger: nums }, PayloadKind::Int) {
        Ok(Payload::Int(sum)) => sum,
        other => panic!("the summed range must come back as an integer, not {:?}", other),
    };
    println!("{}", sum);
    assert_eq!((1..100).sum::<i64>(), sum);
}

#[test]
fn test_add4() {
    let a = 12;
    let b = 34;
    let c = 56;
    let d = 78;
    let four = QuadSummer {
        first: Thrower { payload: Payload::Int(a) },
        second: Thrower { payload: Payload::Int(b) },
        third: Thrower { payload: Payload::Int(c) },
        fourth: Thrower { payload: Payload::Int(d) },
    };
    let sum = match catastrophe(four, PayloadKind::Int) {
        Ok(Payload::Int(sum)) => sum,
        other => panic!("the four summands must come back as an integer, not {:?}", other),
    };
    assert_eq!(a + b + c + d, sum)
}

#[test]
fn test_add_single_element_range() {
    let nums = Thrower { payload: Payload::IntRange(5, 6) };
    let r = catastrophe(RangeSummer { ranger: nums }, PayloadKind::Int);
    assert_eq!(r, Ok(Payload::Int(5)));
}

#[test]
fn test_add_negative_range() {
    let nums = Thrower { payload: Payload::IntRange(-3, 1) };
    let r = catastrophe(RangeSummer { ranger: nums }, PayloadKind::Int);
    assert_eq!(r, Ok(Payload::Int(-6)));
}

#[test]
fn test_range_summer_passes_other_payloads_through() {
    // The inner terminator throws a boolean; the summer's own extraction
    // mismatches, so the original termination keeps propagating and an
    // enclosing extraction expecting the boolean recovers it unchanged.
    let summer = RangeSummer { ranger: Thrower { payload: Payload::Flag(true) } };
    let r = catastrophe(summer, PayloadKind::Flag);
    assert_eq!(r, Ok(Payload::Flag(true)));
}

#[test]
fn test_quad_summer_passes_other_payloads_through() {
    let four = QuadSummer {
        first: Thrower { payload: Payload::Int(1) },
        second: Thrower { payload: Payload::IntRange(1, 3) },
        third: Thrower { payload: Payload::Int(3) },
        fourth: Thrower { payload: Payload::Int(4) },
    };
    let r = catastrophe(four, PayloadKind::IntRange);
    assert_eq!(r, Ok(Payload::IntRange(1, 3)));
}

#[test]
fn test_add4_extreme_values() {
    let four = QuadSummer {
        first: Thrower { payload: Payload::Int(i64::MAX) },
        second: Thrower { payload: Payload::Int(-1) },
        third: Thrower { payload: Payload::Int(0) },
        fourth: Thrower { payload: Payload::Int(0) },
    };
    let r = catastrophe(four, PayloadKind::Int);
    assert_eq!(r, Ok(Payload::Int(i64::MAX - 1)));
}
