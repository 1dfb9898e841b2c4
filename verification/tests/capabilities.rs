use nmos_core::capabilities::{
    make_caps_boolean_constraint, make_caps_integer_constraint, make_caps_rational_constraint,
    make_caps_string_constraint, match_boolean_constraint, match_constraint,
    match_enum_constraint, match_integer_constraint, match_minimum_maximum_constraint,
    match_pattern_constraint, match_rational_constraint, match_string_constraint, pattern_met,
    Constraint, ConstraintValue, Rational,
};

fn unconstrained() -> Constraint {
    Constraint { enum_values: None, minimum: None, maximum: None, pattern: None }
}

fn text(s: &str) -> ConstraintValue {
    ConstraintValue::String(s.to_string())
}

fn ratio(numerator: i64, denominator: u64) -> Rational {
    Rational { numerator, denominator }
}

#[test]
fn the_makers_fill_in_what_they_are_given() {
    assert_eq!(
        make_caps_string_constraint(&vec!["a".to_string(), "b".to_string()], "^[ab]$"),
        Constraint {
            enum_values: Some(vec![text("a"), text("b")]),
            minimum: None,
            maximum: None,
            pattern: Some("^[ab]$".to_string()),
        }
    );
    assert_eq!(
        make_caps_integer_constraint(&vec![1, 2, 3], -5, 10),
        Constraint {
            enum_values: Some(vec![
                ConstraintValue::Integer(1),
                ConstraintValue::Integer(2),
                ConstraintValue::Integer(3)
            ]),
            minimum: Some(ConstraintValue::Integer(-5)),
            maximum: Some(ConstraintValue::Integer(10)),
            pattern: None,
        }
    );
    assert_eq!(
        make_caps_boolean_constraint(&vec![true]),
        Constraint {
            enum_values: Some(vec![ConstraintValue::Boolean(true)]),
            minimum: None,
            maximum: None,
            pattern: None,
        }
    );
    assert_eq!(
        make_caps_rational_constraint(&vec![ratio(25, 1)], ratio(24, 1), ratio(60000, 1001)),
        Constraint {
            enum_values: Some(vec![ConstraintValue::Rational(ratio(25, 1))]),
            minimum: Some(ConstraintValue::Rational(ratio(24, 1))),
            maximum: Some(ConstraintValue::Rational(ratio(60000, 1001))),
            pattern: None,
        }
    );
}

#[test]
fn what_is_absent_does_not_constrain() {
    let c = unconstrained();
    assert!(match_string_constraint("anything", &c));
    assert!(match_integer_constraint(i64::MIN, &c));
    assert!(match_boolean_constraint(false, &c));
    assert!(match_rational_constraint(&ratio(1, 3), &c));
    assert!(match_constraint(&text(""), &c));
}

#[test]
fn the_allowed_values_are_compared_by_kind_and_value() {
    let c = Constraint {
        enum_values: Some(vec![
            text("1"),
            ConstraintValue::Integer(2),
            ConstraintValue::Boolean(true),
            ConstraintValue::Rational(ratio(1, 2)),
        ]),
        ..unconstrained()
    };
    assert!(match_enum_constraint(&text("1"), &c));
    assert!(!match_enum_constraint(&text("2"), &c));
    assert!(match_enum_constraint(&ConstraintValue::Integer(2), &c));
    assert!(!match_enum_constraint(&ConstraintValue::Integer(1), &c));
    assert!(match_enum_constraint(&ConstraintValue::Boolean(true), &c));
    assert!(!match_enum_constraint(&ConstraintValue::Boolean(false), &c));
    assert!(match_enum_constraint(&ConstraintValue::Rational(ratio(2, 4)), &c));
    assert!(!match_enum_constraint(&ConstraintValue::Rational(ratio(2, 1)), &c));
    let none = Constraint { enum_values: Some(vec![]), ..unconstrained() };
    assert!(!match_enum_constraint(&text("1"), &none));
    assert!(!match_boolean_constraint(true, &none));
}

#[test]
fn integers_are_held_to_their_bounds() {
    let c = make_caps_integer_constraint(&vec![-5, 0, 5, 10, 11], -5, 10);
    assert!(match_integer_constraint(-5, &c));
    assert!(match_integer_constraint(10, &c));
    assert!(match_integer_constraint(0, &c));
    assert!(!match_integer_constraint(11, &c));
    assert!(!match_integer_constraint(1, &c));
    let bounds = Constraint { enum_values: None, ..c };
    assert!(match_integer_constraint(1, &bounds));
    assert!(!match_integer_constraint(-6, &bounds));
    assert!(!match_integer_constraint(i64::MAX, &bounds));
    assert!(match_minimum_maximum_constraint(&ConstraintValue::Integer(10), &bounds));
    assert!(!match_minimum_maximum_constraint(&ConstraintValue::Integer(11), &bounds));
}

#[test]
fn fractions_are_compared_as_fractions() {
    let c = Constraint {
        minimum: Some(ConstraintValue::Rational(ratio(24000, 1001))),
        maximum: Some(ConstraintValue::Rational(ratio(60, 1))),
        ..unconstrained()
    };
    assert!(match_rational_constraint(&ratio(25, 1), &c));
    assert!(match_rational_constraint(&ratio(24000, 1001), &c));
    assert!(match_rational_constraint(&ratio(48000, 2002), &c));
    assert!(match_rational_constraint(&ratio(120, 2), &c));
    assert!(!match_rational_constraint(&ratio(23976, 1001), &c));
    assert!(!match_rational_constraint(&ratio(61, 1), &c));
    assert!(ratio(i64::MAX, u64::MAX).at_most(&ratio(i64::MAX, u64::MAX - 1)));
    assert!(ratio(i64::MIN, 1).at_most(&ratio(i64::MIN, u64::MAX)));
    assert!(!ratio(i64::MIN, u64::MAX).at_most(&ratio(i64::MIN, 1)));
    assert!(ratio(-1, 2).same_as(&ratio(-2, 4)));
    assert!(!ratio(1, 2).same_as(&ratio(-1, 2)));
}

#[test]
fn a_bound_of_another_kind_is_not_met() {
    let c = Constraint { minimum: Some(text("0")), ..unconstrained() };
    assert!(!match_integer_constraint(1, &c));
    let d = Constraint { maximum: Some(ConstraintValue::Integer(5)), ..unconstrained() };
    assert!(!match_rational_constraint(&ratio(1, 1), &d));
    assert!(match_integer_constraint(5, &d));
    // strings and booleans are not held to bounds
    assert!(match_string_constraint("1", &c));
    assert!(match_boolean_constraint(true, &d));
}

#[test]
fn strings_are_held_to_their_pattern() {
    let c = Constraint { pattern: Some("^urn:x-nmos:[a-z]+$".to_string()), ..unconstrained() };
    assert!(match_pattern_constraint("urn:x-nmos:format", &c));
    assert!(!match_pattern_constraint("urn:x-nmos:Format", &c));
    assert!(match_string_constraint("urn:x-nmos:format", &c));
    assert!(!match_string_constraint("urn:x-nmos:", &c));
    // a pattern matches anywhere unless it is anchored
    let loose = Constraint { pattern: Some("b+".to_string()), ..unconstrained() };
    assert!(match_string_constraint("abba", &loose));
    assert!(!match_string_constraint("aa", &loose));
    // the pattern and the text are not interchangeable
    let swapped = Constraint { pattern: Some("abba".to_string()), ..unconstrained() };
    assert!(!match_string_constraint("b+", &swapped));
    // integers are not held to a pattern
    assert!(match_integer_constraint(7, &c));
}

#[test]
fn what_is_no_pattern_is_not_matched() {
    let c = Constraint { pattern: Some("(".to_string()), ..unconstrained() };
    assert!(!match_pattern_constraint("(", &c));
    assert!(!match_string_constraint("", &c));
    assert!(pattern_met(Some(true)));
    assert!(!pattern_met(Some(false)));
    assert!(!pattern_met(None));
}

#[test]
fn a_string_has_to_meet_both() {
    let c = make_caps_string_constraint(&vec!["ab".to_string(), "cd".to_string()], "^a");
    assert!(match_string_constraint("ab", &c));
    assert!(!match_string_constraint("cd", &c));
    assert!(!match_string_constraint("ax", &c));
    assert!(match_constraint(&text("ab"), &c));
    assert!(!match_constraint(&text("cd"), &c));
}

#[test]
fn match_constraint_goes_by_the_kind_of_the_value() {
    let c = Constraint {
        enum_values: None,
        minimum: Some(ConstraintValue::Integer(0)),
        maximum: Some(ConstraintValue::Integer(9)),
        pattern: Some("^x$".to_string()),
    };
    assert!(match_constraint(&ConstraintValue::Integer(3), &c));
    assert!(!match_constraint(&ConstraintValue::Integer(12), &c));
    assert!(match_constraint(&text("x"), &c));
    assert!(!match_constraint(&text("3"), &c));
    assert!(match_constraint(&ConstraintValue::Boolean(true), &c));
    assert!(!match_constraint(&ConstraintValue::Rational(ratio(3, 1)), &c));
}
