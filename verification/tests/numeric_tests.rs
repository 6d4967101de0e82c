use widgets::numeric::NumericKind;
use widgets::numeric::NumericValue;
use widgets::numeric::RangeEdge;
use widgets::numeric::format_i128;
use widgets::numeric::parse_i128;
use widgets::numeric::trim_chars;

fn chars(s: &str) -> Vec<char> {
    s.chars().collect()
}

fn text(v: &[char]) -> String {
    v.iter().collect()
}

#[test]
fn set_value_clamps_into_the_bounds() {
    let mut n = NumericValue::new(NumericKind::I32);
    n.set_bounds(RangeEdge::Included(0), RangeEdge::Included(10));
    n.set_value(-3);
    assert_eq!(n.get_value(), 0);
    n.set_value(5);
    assert_eq!(n.get_value(), 5);
    n.set_value(99);
    assert_eq!(n.get_value(), 10);
}

#[test]
fn exclusive_upper_bound_still_saturates_at_the_maximum() {
    // The pinned policy: clamping saturates at the recorded maximum itself,
    // whether or not the range was described with an inclusive upper edge.
    let mut n = NumericValue::new(NumericKind::I64);
    n.set_bounds(RangeEdge::Included(0), RangeEdge::Excluded(10));
    assert!(!n.end_inclusive());
    n.set_value(15);
    assert_eq!(n.get_value(), 10);
}

#[test]
fn reclamping_a_clamped_value_changes_nothing() {
    let mut n = NumericValue::new(NumericKind::I32);
    n.set_bounds(RangeEdge::Included(-5), RangeEdge::Included(5));
    for v in [-100i128, -5, 0, 3, 5, 100] {
        n.set_value(v);
        let once = n.get_value();
        n.set_value(once);
        assert_eq!(n.get_value(), once);
    }
}

#[test]
fn set_bounds_leaves_the_stored_value_alone() {
    let mut n = NumericValue::new(NumericKind::I32);
    n.set_value(50);
    n.set_bounds(RangeEdge::Included(0), RangeEdge::Excluded(10));
    // The stored value may now lie outside the bounds; only the next
    // assignment projects it.
    assert_eq!(n.get_value(), 50);
    n.set_value(50);
    assert_eq!(n.get_value(), 10);
}

#[test]
fn unsigned_kinds_clamp_at_zero_and_their_width() {
    let mut n = NumericValue::new(NumericKind::U8);
    n.set_value(-1);
    assert_eq!(n.get_value(), 0);
    n.set_value(300);
    assert_eq!(n.get_value(), 255);
}

#[test]
fn unbounded_sides_fall_back_to_the_kind_range() {
    let mut n = NumericValue::new(NumericKind::I8);
    n.set_bounds(RangeEdge::Unbounded, RangeEdge::Included(10));
    n.set_value(-300);
    assert_eq!(n.get_value(), -128);
    n.set_value(50);
    assert_eq!(n.get_value(), 10);
}

#[test]
fn parse_accepts_signed_decimal() {
    assert_eq!(parse_i128(&chars("42")), Some(42));
    assert_eq!(parse_i128(&chars("+42")), Some(42));
    assert_eq!(parse_i128(&chars("-42")), Some(-42));
    assert_eq!(parse_i128(&chars("0")), Some(0));
    assert_eq!(
        parse_i128(&chars("170141183460469231731687303715884105727")),
        Some(i128::MAX)
    );
    assert_eq!(
        parse_i128(&chars("-170141183460469231731687303715884105728")),
        Some(i128::MIN)
    );
}

#[test]
fn parse_rejects_garbage_and_overflow() {
    assert_eq!(parse_i128(&chars("")), None);
    assert_eq!(parse_i128(&chars("-")), None);
    assert_eq!(parse_i128(&chars("+")), None);
    assert_eq!(parse_i128(&chars("4a2")), None);
    assert_eq!(parse_i128(&chars(" 42")), None);
    assert_eq!(parse_i128(&chars("4.2")), None);
    assert_eq!(
        parse_i128(&chars("170141183460469231731687303715884105728")),
        None
    );
    assert_eq!(
        parse_i128(&chars("-170141183460469231731687303715884105729")),
        None
    );
    assert_eq!(parse_i128(&chars("999999999999999999999999999999999999999999")), None);
}

#[test]
fn format_writes_canonical_decimal() {
    assert_eq!(text(&format_i128(0)), "0");
    assert_eq!(text(&format_i128(7)), "7");
    assert_eq!(text(&format_i128(-7)), "-7");
    assert_eq!(text(&format_i128(1203)), "1203");
    assert_eq!(
        text(&format_i128(i128::MAX)),
        "170141183460469231731687303715884105727"
    );
    assert_eq!(
        text(&format_i128(i128::MIN)),
        "-170141183460469231731687303715884105728"
    );
}

#[test]
fn format_then_parse_round_trips() {
    for v in [0i128, 1, -1, 9, 10, -10, 12345, -98765, i128::MAX, i128::MIN] {
        assert_eq!(parse_i128(&format_i128(v)), Some(v));
    }
}

#[test]
fn trim_strips_ascii_whitespace_at_both_ends() {
    assert_eq!(text(&trim_chars(&chars("  42\t"))), "42");
    assert_eq!(text(&trim_chars(&chars("42"))), "42");
    assert_eq!(text(&trim_chars(&chars("   "))), "");
    assert_eq!(text(&trim_chars(&chars(""))), "");
    assert_eq!(text(&trim_chars(&chars("\n a b \r"))), "a b");
}

#[test]
fn drag_moves_by_the_step_and_clamps() {
    let mut n = NumericValue::new(NumericKind::I32);
    n.set_bounds(RangeEdge::Included(0), RangeEdge::Included(100));
    n.set_value(50);
    n.drag_by(1, 0);
    assert_eq!(n.get_value(), 51);
    n.drag_by(0, 1);
    assert_eq!(n.get_value(), 50);
    n.set_drag_step(10);
    n.drag_by(2, -1);
    assert_eq!(n.get_value(), 80);
    n.drag_by(5, 0);
    assert_eq!(n.get_value(), 100);
    n.drag_by(0, 100);
    assert_eq!(n.get_value(), 0);
}

#[test]
fn drag_saturates_on_extreme_products() {
    let mut n = NumericValue::new(NumericKind::I128);
    n.set_drag_step(i64::MAX);
    n.set_value(i128::MAX);
    n.drag_by(i32::MAX, 0);
    assert_eq!(n.get_value(), i128::MAX);
    n.set_value(i128::MIN);
    n.drag_by(0, i32::MAX);
    assert_eq!(n.get_value(), i128::MIN);
}
