//! API versions of the form `v<major>.<minor>`.

use vstd::prelude::*;
use vstd::string::*;
use crate::text::{
    chars_of, decimal_text, decimal_value, is_digit, is_numeral, lemma_decimal_text_value, parse_decimal,
    push_decimal,
};

verus! {

/// A protocol version. Versions are ordered by major number, then by minor number.
#[derive(Debug, Clone, Copy, PartialEq, Eq, Structural, PartialOrd, Ord, Hash)]
pub struct ApiVersion {
    pub major: u32,
    pub minor: u32,
}

/// `s` reads `v`, a numeral, a dot at position `dot`, and a second numeral,
/// both numerals within 32 bits.
pub open spec fn is_version_text(s: Seq<char>, dot: int) -> bool {
    &&& 0 < dot < s.len()
    &&& s[0] == 'v'
    &&& s[dot] == '.'
    &&& is_numeral(s.subrange(1, dot))
    &&& is_numeral(s.subrange(dot + 1, s.len() as int))
    &&& decimal_value(s.subrange(1, dot)) <= u32::MAX
    &&& decimal_value(s.subrange(dot + 1, s.len() as int)) <= u32::MAX
}

/// The version that a text with its dot at `dot` denotes.
pub open spec fn version_of_text(s: Seq<char>, dot: int) -> ApiVersion {
    ApiVersion {
        major: decimal_value(s.subrange(1, dot)) as u32,
        minor: decimal_value(s.subrange(dot + 1, s.len() as int)) as u32,
    }
}

/// What a text denotes: the version it spells, or nothing where it spells none.
pub open spec fn parsed_version(s: Seq<char>) -> Option<ApiVersion> {
    if exists|dot: int| is_version_text(s, dot) {
        Some(version_of_text(s, choose|dot: int| is_version_text(s, dot)))
    } else {
        None
    }
}

/// The text of a version: `v`, the major number, a dot, the minor number.
pub open spec fn version_text(v: ApiVersion) -> Seq<char> {
    seq!['v'] + decimal_text(v.major as nat) + seq!['.'] + decimal_text(v.minor as nat)
}

/// A text spells a version in one way only: the dot of a version text is its first dot.
pub proof fn lemma_version_dot_unique(s: Seq<char>, d1: int, d2: int)
    requires
        is_version_text(s, d1),
        is_version_text(s, d2),
    ensures
        d1 == d2,
{
    if d1 < d2 {
        let major = s.subrange(1, d2);
        assert(is_digit(major[d1 - 1]));
    } else if d2 < d1 {
        let major = s.subrange(1, d1);
        assert(is_digit(major[d2 - 1]));
    }
}

/// A text that spells a version with its dot at `dot` denotes that version.
pub proof fn lemma_parsed_version(s: Seq<char>, dot: int)
    requires
        is_version_text(s, dot),
    ensures
        parsed_version(s) == Some(version_of_text(s, dot)),
{
    let chosen = choose|d: int| is_version_text(s, d);
    lemma_version_dot_unique(s, dot, chosen);
}

/// A text that spells no version denotes none.
pub proof fn lemma_no_parsed_version(s: Seq<char>)
    requires
        forall|dot: int| !is_version_text(s, dot),
    ensures
        parsed_version(s) is None,
{
}

/// Reading the text of a version gives that version back.
pub proof fn lemma_parse_version_text(v: ApiVersion)
    ensures
        parsed_version(version_text(v)) == Some(v),
{
    let s = version_text(v);
    let major = decimal_text(v.major as nat);
    let minor = decimal_text(v.minor as nat);
    let dot = 1 + major.len() as int;
    lemma_decimal_text_value(v.major as nat);
    lemma_decimal_text_value(v.minor as nat);
    assert(s.subrange(1, dot) =~= major);
    assert(s.subrange(dot + 1, s.len() as int) =~= minor);
    lemma_parsed_version(s, dot);
}

impl ApiVersion {
    /// Lexicographic order on (major, minor).
    pub open spec fn spec_le(self, other: ApiVersion) -> bool {
        self.major < other.major || (self.major == other.major && self.minor <= other.minor)
    }

    /// Strict lexicographic order on (major, minor).
    pub open spec fn spec_lt(self, other: ApiVersion) -> bool {
        self.major < other.major || (self.major == other.major && self.minor < other.minor)
    }

    /// The version with the given major and minor number.
    pub fn new(major: u32, minor: u32) -> (v: ApiVersion)
        ensures
            v == (ApiVersion { major, minor }),
    {
        ApiVersion { major, minor }
    }

    /// Whether `self` comes before `other` or equals it.
    pub fn at_most(&self, other: &ApiVersion) -> (r: bool)
        ensures
            r == self.spec_le(*other),
    {
        self.major < other.major || (self.major == other.major && self.minor <= other.minor)
    }

    /// Whether `self` comes strictly before `other`.
    pub fn before(&self, other: &ApiVersion) -> (r: bool)
        ensures
            r == self.spec_lt(*other),
    {
        self.major < other.major || (self.major == other.major && self.minor < other.minor)
    }

    /// Reads a version from text such as `v1.2`: the letter `v`, the major number,
    /// a dot and the minor number, each a run of decimal digits that fits in 32 bits.
    /// Any other text gives `None`.
    pub fn parse(version: &str) -> (r: Option<ApiVersion>)
        ensures
            r == parsed_version(version@),
    {
        let chars = chars_of(version);
        let n = chars.len();
        if n == 0 || chars[0] != 'v' {
            return None;
        }
        let mut dot: usize = 1;
        while dot < n && chars[dot] != '.'
            invariant
                1 <= dot <= n,
                n == version@.len(),
                chars@ == version@,
                forall|k: int| 1 <= k < dot ==> version@[k] != '.',
            decreases n - dot,
        {
            dot = dot + 1;
        }
        proof {
            // A dot inside a numeral is no digit, so the first dot is the only candidate.
            assert forall|d: int| d != dot && is_version_text(version@, d) implies false by {
                if d < dot {
                    assert(version@[d] == '.');
                } else if dot < n {
                    let major = version@.subrange(1, d);
                    assert(is_digit(major[dot - 1]));
                    assert(major[dot - 1] == version@[dot as int]);
                }
            }
        }
        if dot >= n {
            return None;
        }
        let major = parse_decimal(&chars, 1, dot);
        let minor = parse_decimal(&chars, dot + 1, n);
        match (major, minor) {
            (Some(major), Some(minor)) => {
                if major > 0xffff_ffff || minor > 0xffff_ffff {
                    None
                } else {
                    let v = ApiVersion { major: major as u32, minor: minor as u32 };
                    assert(is_version_text(version@, dot as int));
                    Some(v)
                }
            },
            _ => None,
        }
    }

    /// The text of the version, such as `v1.2`.
    pub fn to_string(&self) -> (r: String)
        ensures
            r@ == version_text(*self),
    {
        let mut out = String::new();
        out.append("v");
        push_decimal(&mut out, self.major as u64);
        out.append(".");
        push_decimal(&mut out, self.minor as u64);
        proof {
            reveal_strlit("v");
            reveal_strlit(".");
            assert("v"@ =~= seq!['v']);
            assert("."@ =~= seq!['.']);
            assert(out@ =~= version_text(*self));
        }
        out
    }
}

} // verus!
