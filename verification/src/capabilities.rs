//! Constraints on the values of parameters, and whether a value meets them.

use vstd::prelude::*;
use vstd::string::*;
use crate::text::str_eq;

verus! {

/// A fraction. Its denominator is meant to be positive.
#[derive(Debug, Clone, Copy, PartialEq, Eq, Structural)]
pub struct Rational {
    pub numerator: i64,
    pub denominator: u64,
}

/// A value that a constraint can speak of.
#[derive(Debug, Clone, PartialEq, Eq)]
pub enum ConstraintValue {
    String(String),
    Integer(i64),
    Boolean(bool),
    Rational(Rational),
}

/// A constraint: the values that are allowed, the least and the greatest
/// value, and the pattern that a string has to match. What is `None` does not
/// constrain.
#[derive(Debug, Clone, PartialEq, Eq)]
pub struct Constraint {
    pub enum_values: Option<Vec<ConstraintValue>>,
    pub minimum: Option<ConstraintValue>,
    pub maximum: Option<ConstraintValue>,
    pub pattern: Option<String>,
}

/// Whether a regular expression matches somewhere in a text: `None` where the
/// pattern is no regular expression.
pub uninterp spec fn regex_match(pattern: Seq<char>, text: Seq<char>) -> Option<bool>;

/// Matches a text against a regular expression.
///
/// Compiles the pattern with `Regex::new` of the crate `regex` and asks
/// `Regex::is_match` of the text. A pattern that does not compile gives `None`.
/// The result depends on the pattern and the text alone; the contract gives it
/// its name and claims nothing more of it.
#[verifier::external_body]
pub(crate) fn regex_is_match(pattern: &str, text: &str) -> (r: Option<bool>)
    ensures
        r == regex_match(pattern@, text@),
{
    match regex::Regex::new(pattern) {
        Ok(regex) => Some(regex.is_match(text)),
        Err(_) => None,
    }
}

/// A value as contracts speak of it.
pub enum ValueView {
    String(Seq<char>),
    Integer(i64),
    Boolean(bool),
    Rational(Rational),
}

/// A constraint as contracts speak of it.
pub struct ConstraintView {
    pub enum_values: Option<Seq<ValueView>>,
    pub minimum: Option<ValueView>,
    pub maximum: Option<ValueView>,
    pub pattern: Option<Seq<char>>,
}

impl View for ConstraintValue {
    type V = ValueView;

    open spec fn view(&self) -> ValueView {
        match *self {
            ConstraintValue::String(s) => ValueView::String(s@),
            ConstraintValue::Integer(n) => ValueView::Integer(n),
            ConstraintValue::Boolean(b) => ValueView::Boolean(b),
            ConstraintValue::Rational(r) => ValueView::Rational(r),
        }
    }
}

/// The views of a list of values.
pub open spec fn values_view(values: Seq<ConstraintValue>) -> Seq<ValueView> {
    Seq::new(values.len(), |i: int| values[i]@)
}

/// The view of an optional value.
pub open spec fn value_view(value: Option<ConstraintValue>) -> Option<ValueView> {
    match value {
        Some(v) => Some(v@),
        None => None,
    }
}

impl View for Constraint {
    type V = ConstraintView;

    open spec fn view(&self) -> ConstraintView {
        ConstraintView {
            enum_values: match self.enum_values {
                Some(values) => Some(values_view(values@)),
                None => None,
            },
            minimum: value_view(self.minimum),
            maximum: value_view(self.maximum),
            pattern: match self.pattern {
                Some(p) => Some(p@),
                None => None,
            },
        }
    }
}

/// `a` is no greater than `b`, as fractions with positive denominators.
pub open spec fn rational_le(a: Rational, b: Rational) -> bool {
    a.numerator * b.denominator <= b.numerator * a.denominator
}

/// `a` and `b` are the same fraction, where the denominators are positive.
pub open spec fn rational_eq(a: Rational, b: Rational) -> bool {
    a.numerator * b.denominator == b.numerator * a.denominator
}

/// Two values are of the same kind and equal.
pub open spec fn same_value(a: ValueView, b: ValueView) -> bool {
    match (a, b) {
        (ValueView::String(x), ValueView::String(y)) => x == y,
        (ValueView::Integer(x), ValueView::Integer(y)) => x == y,
        (ValueView::Boolean(x), ValueView::Boolean(y)) => x == y,
        (ValueView::Rational(x), ValueView::Rational(y)) => rational_eq(x, y),
        _ => false,
    }
}

/// Two values are both integers or both fractions, and `a` is no greater than `b`.
pub open spec fn value_le(a: ValueView, b: ValueView) -> bool {
    match (a, b) {
        (ValueView::Integer(x), ValueView::Integer(y)) => x <= y,
        (ValueView::Rational(x), ValueView::Rational(y)) => rational_le(x, y),
        _ => false,
    }
}

/// The value is one of the allowed values, if the constraint names any.
pub open spec fn meets_enum(value: ValueView, constraint: ConstraintView) -> bool {
    constraint.enum_values is Some ==> exists|i: int|
        0 <= i < constraint.enum_values->0.len() && same_value(
            #[trigger] constraint.enum_values->0[i],
            value,
        )
}

/// The value is no less than the minimum and no greater than the maximum, as
/// far as the constraint has them. A bound of another kind than the value is
/// not met.
pub open spec fn meets_minimum_maximum(value: ValueView, constraint: ConstraintView) -> bool {
    &&& constraint.minimum is Some ==> value_le(constraint.minimum->0, value)
    &&& constraint.maximum is Some ==> value_le(value, constraint.maximum->0)
}

/// The text matches the pattern, if the constraint has one. A pattern that is
/// no regular expression is not matched.
pub open spec fn meets_pattern(text: Seq<char>, constraint: ConstraintView) -> bool {
    constraint.pattern is Some ==> regex_match(constraint.pattern->0, text) == Some(true)
}

/// Whether a value meets a constraint: a string its allowed values and its
/// pattern, an integer and a fraction their allowed values and their bounds,
/// a boolean its allowed values.
pub open spec fn meets_constraint(value: ValueView, constraint: ConstraintView) -> bool {
    match value {
        ValueView::String(s) => meets_enum(value, constraint) && meets_pattern(s, constraint),
        ValueView::Integer(_) => meets_enum(value, constraint) && meets_minimum_maximum(
            value,
            constraint,
        ),
        ValueView::Boolean(_) => meets_enum(value, constraint),
        ValueView::Rational(_) => meets_enum(value, constraint) && meets_minimum_maximum(
            value,
            constraint,
        ),
    }
}

/// The product of a numerator and a denominator fits in 128 bits.
proof fn lemma_cross_product_fits(n: i64, d: u64)
    ensures
        i128::MIN <= n * d <= i128::MAX,
{
    assert(-0x8000_0000_0000_0000 * 0xffff_ffff_ffff_ffff <= n * d <= 0x7fff_ffff_ffff_ffff
        * 0xffff_ffff_ffff_ffff) by (nonlinear_arith)
        requires
            -0x8000_0000_0000_0000 <= n <= 0x7fff_ffff_ffff_ffff,
            0 <= d <= 0xffff_ffff_ffff_ffff,
    ;
}

fn cross_product(n: i64, d: u64) -> (r: i128)
    ensures
        r == n * d,
{
    proof {
        lemma_cross_product_fits(n, d);
    }
    (n as i128) * (d as i128)
}

impl Rational {
    /// Whether `self` is no greater than `other`.
    pub fn at_most(&self, other: &Rational) -> (r: bool)
        ensures
            r == rational_le(*self, *other),
    {
        cross_product(self.numerator, other.denominator) <= cross_product(
            other.numerator,
            self.denominator,
        )
    }

    /// Whether `self` and `other` are the same fraction.
    pub fn same_as(&self, other: &Rational) -> (r: bool)
        ensures
            r == rational_eq(*self, *other),
    {
        cross_product(self.numerator, other.denominator) == cross_product(
            other.numerator,
            self.denominator,
        )
    }
}

impl ConstraintValue {
    /// Whether two values are of the same kind and equal.
    pub fn same_as(&self, other: &ConstraintValue) -> (r: bool)
        ensures
            r == same_value(self@, other@),
    {
        match (self, other) {
            (ConstraintValue::String(x), ConstraintValue::String(y)) => str_eq(
                x.as_str(),
                y.as_str(),
            ),
            (ConstraintValue::Integer(x), ConstraintValue::Integer(y)) => *x == *y,
            (ConstraintValue::Boolean(x), ConstraintValue::Boolean(y)) => *x == *y,
            (ConstraintValue::Rational(x), ConstraintValue::Rational(y)) => x.same_as(y),
            _ => false,
        }
    }

    /// Whether two values are both integers or both fractions, and `self` is
    /// no greater than `other`.
    pub fn at_most(&self, other: &ConstraintValue) -> (r: bool)
        ensures
            r == value_le(self@, other@),
    {
        match (self, other) {
            (ConstraintValue::Integer(x), ConstraintValue::Integer(y)) => *x <= *y,
            (ConstraintValue::Rational(x), ConstraintValue::Rational(y)) => x.at_most(y),
            _ => false,
        }
    }
}

/// Whether the value is one of the allowed values, if the constraint names any.
pub fn match_enum_constraint(value: &ConstraintValue, constraint: &Constraint) -> (r: bool)
    ensures
        r == meets_enum(value@, constraint@),
{
    match &constraint.enum_values {
        None => true,
        Some(allowed) => {
            let ghost views = values_view(allowed@);
            let mut i: usize = 0;
            while i < allowed.len()
                invariant
                    i <= allowed@.len(),
                    views == values_view(allowed@),
                    constraint@.enum_values == Some(views),
                    forall|k: int| 0 <= k < i ==> !same_value(#[trigger] views[k], value@),
                decreases allowed@.len() - i,
            {
                if allowed[i].same_as(value) {
                    assert(views[i as int] == allowed@[i as int]@);
                    assert(same_value(constraint@.enum_values->0[i as int], value@));
                    return true;
                }
                i = i + 1;
            }
            false
        },
    }
}

/// Whether the value lies within the bounds of the constraint.
pub fn match_minimum_maximum_constraint(value: &ConstraintValue, constraint: &Constraint) -> (r:
    bool)
    ensures
        r == meets_minimum_maximum(value@, constraint@),
{
    if let Some(minimum) = &constraint.minimum {
        if !minimum.at_most(value) {
            return false;
        }
    }
    if let Some(maximum) = &constraint.maximum {
        if !value.at_most(maximum) {
            return false;
        }
    }
    true
}

/// Whether what came of matching a text against the pattern of a constraint
/// says that the pattern is met.
pub fn pattern_met(matched: Option<bool>) -> (r: bool)
    ensures
        r == (matched == Some(true)),
{
    match matched {
        Some(true) => true,
        _ => false,
    }
}

/// Whether the text matches the pattern of the constraint, if it has one.
pub fn match_pattern_constraint(value: &str, constraint: &Constraint) -> (r: bool)
    ensures
        r == meets_pattern(value@, constraint@),
{
    match &constraint.pattern {
        None => true,
        Some(pattern) => pattern_met(regex_is_match(pattern.as_str(), value)),
    }
}

/// Whether a string meets a constraint: its allowed values and its pattern.
pub fn match_string_constraint(value: &str, constraint: &Constraint) -> (r: bool)
    ensures
        r == meets_constraint(ValueView::String(value@), constraint@),
{
    let owned = ConstraintValue::String(value.to_owned());
    match_enum_constraint(&owned, constraint) && match_pattern_constraint(value, constraint)
}

/// Whether an integer meets a constraint: its allowed values and its bounds.
pub fn match_integer_constraint(value: i64, constraint: &Constraint) -> (r: bool)
    ensures
        r == meets_constraint(ValueView::Integer(value), constraint@),
{
    let value = ConstraintValue::Integer(value);
    match_enum_constraint(&value, constraint) && match_minimum_maximum_constraint(
        &value,
        constraint,
    )
}

/// Whether a boolean meets a constraint: its allowed values.
pub fn match_boolean_constraint(value: bool, constraint: &Constraint) -> (r: bool)
    ensures
        r == meets_constraint(ValueView::Boolean(value), constraint@),
{
    match_enum_constraint(&ConstraintValue::Boolean(value), constraint)
}

/// Whether a fraction meets a constraint: its allowed values and its bounds.
pub fn match_rational_constraint(value: &Rational, constraint: &Constraint) -> (r: bool)
    ensures
        r == meets_constraint(ValueView::Rational(*value), constraint@),
{
    let value = ConstraintValue::Rational(*value);
    match_enum_constraint(&value, constraint) && match_minimum_maximum_constraint(
        &value,
        constraint,
    )
}

/// Whether a value meets a constraint.
pub fn match_constraint(value: &ConstraintValue, constraint: &Constraint) -> (r: bool)
    ensures
        r == meets_constraint(value@, constraint@),
{
    match value {
        ConstraintValue::String(s) => match_enum_constraint(value, constraint)
            && match_pattern_constraint(s.as_str(), constraint),
        ConstraintValue::Integer(_) => match_enum_constraint(value, constraint)
            && match_minimum_maximum_constraint(value, constraint),
        ConstraintValue::Boolean(_) => match_enum_constraint(value, constraint),
        ConstraintValue::Rational(_) => match_enum_constraint(value, constraint)
            && match_minimum_maximum_constraint(value, constraint),
    }
}

/// The views of a list of strings, as values.
pub open spec fn strings_as_values(strings: Seq<String>) -> Seq<ValueView> {
    Seq::new(strings.len(), |i: int| ValueView::String(strings[i]@))
}

/// Makes the constraint on a string: its allowed values and its pattern.
pub fn make_caps_string_constraint(enum_values: &Vec<String>, pattern: &str) -> (r: Constraint)
    ensures
        r@ == (ConstraintView {
            enum_values: Some(strings_as_values(enum_values@)),
            minimum: None,
            maximum: None,
            pattern: Some(pattern@),
        }),
{
    let mut allowed: Vec<ConstraintValue> = Vec::new();
    let mut i: usize = 0;
    while i < enum_values.len()
        invariant
            i <= enum_values@.len(),
            allowed@.len() == i,
            forall|k: int|
                0 <= k < i ==> (#[trigger] allowed@[k])@ == ValueView::String(enum_values@[k]@),
        decreases enum_values@.len() - i,
    {
        allowed.push(ConstraintValue::String(enum_values[i].clone()));
        i = i + 1;
    }
    assert(values_view(allowed@) =~= strings_as_values(enum_values@));
    Constraint {
        enum_values: Some(allowed),
        minimum: None,
        maximum: None,
        pattern: Some(pattern.to_owned()),
    }
}

/// Makes the constraint on an integer: its allowed values and its bounds.
pub fn make_caps_integer_constraint(enum_values: &Vec<i64>, minimum: i64, maximum: i64) -> (r:
    Constraint)
    ensures
        r@ == (ConstraintView {
            enum_values: Some(enum_values@.map_values(|v: i64| ValueView::Integer(v))),
            minimum: Some(ValueView::Integer(minimum)),
            maximum: Some(ValueView::Integer(maximum)),
            pattern: None,
        }),
{
    let mut allowed: Vec<ConstraintValue> = Vec::new();
    let mut i: usize = 0;
    while i < enum_values.len()
        invariant
            i <= enum_values@.len(),
            allowed@.len() == i,
            forall|k: int|
                0 <= k < i ==> (#[trigger] allowed@[k])@ == ValueView::Integer(enum_values@[k]),
        decreases enum_values@.len() - i,
    {
        allowed.push(ConstraintValue::Integer(enum_values[i]));
        i = i + 1;
    }
    assert(values_view(allowed@) =~= enum_values@.map_values(|v: i64| ValueView::Integer(v)));
    Constraint {
        enum_values: Some(allowed),
        minimum: Some(ConstraintValue::Integer(minimum)),
        maximum: Some(ConstraintValue::Integer(maximum)),
        pattern: None,
    }
}

/// Makes the constraint on a boolean: its allowed values.
pub fn make_caps_boolean_constraint(enum_values: &Vec<bool>) -> (r: Constraint)
    ensures
        r@ == (ConstraintView {
            enum_values: Some(enum_values@.map_values(|v: bool| ValueView::Boolean(v))),
            minimum: None,
            maximum: None,
            pattern: None,
        }),
{
    let mut allowed: Vec<ConstraintValue> = Vec::new();
    let mut i: usize = 0;
    while i < enum_values.len()
        invariant
            i <= enum_values@.len(),
            allowed@.len() == i,
            forall|k: int|
                0 <= k < i ==> (#[trigger] allowed@[k])@ == ValueView::Boolean(enum_values@[k]),
        decreases enum_values@.len() - i,
    {
        allowed.push(ConstraintValue::Boolean(enum_values[i]));
        i = i + 1;
    }
    assert(values_view(allowed@) =~= enum_values@.map_values(|v: bool| ValueView::Boolean(v)));
    Constraint { enum_values: Some(allowed), minimum: None, maximum: None, pattern: None }
}

/// Makes the constraint on a fraction: its allowed values and its bounds.
pub fn make_caps_rational_constraint(
    enum_values: &Vec<Rational>,
    minimum: Rational,
    maximum: Rational,
) -> (r: Constraint)
    ensures
        r@ == (ConstraintView {
            enum_values: Some(enum_values@.map_values(|v: Rational| ValueView::Rational(v))),
            minimum: Some(ValueView::Rational(minimum)),
            maximum: Some(ValueView::Rational(maximum)),
            pattern: None,
        }),
{
    let mut allowed: Vec<ConstraintValue> = Vec::new();
    let mut i: usize = 0;
    while i < enum_values.len()
        invariant
            i <= enum_values@.len(),
            allowed@.len() == i,
            forall|k: int|
                0 <= k < i ==> (#[trigger] allowed@[k])@ == ValueView::Rational(enum_values@[k]),
        decreases enum_values@.len() - i,
    {
        allowed.push(ConstraintValue::Rational(enum_values[i]));
        i = i + 1;
    }
    assert(values_view(allowed@) =~= enum_values@.map_values(|v: Rational| ValueView::Rational(v)));
    Constraint {
        enum_values: Some(allowed),
        minimum: Some(ConstraintValue::Rational(minimum)),
        maximum: Some(ConstraintValue::Rational(maximum)),
        pattern: None,
    }
}

} // verus!
