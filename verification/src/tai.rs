//! Timestamps and durations in seconds and nanoseconds, written `<seconds>:<nanoseconds>`.

use vstd::prelude::*;
use vstd::string::*;
use crate::text::{
    chars_of, decimal_text, decimal_value, is_digit, is_numeral, lemma_decimal_text_value, parse_decimal,
    push_decimal,
};

verus! {

/// Nanoseconds in a second.
pub const NANOS_PER_SECOND: u32 = 1_000_000_000;

/// An instant on the TAI time scale, or a span of time: whole seconds and the
/// nanoseconds beyond them.
#[derive(Debug, Clone, Copy, PartialEq, Eq, Structural, Hash)]
pub struct Tai {
    pub seconds: u64,
    pub nanoseconds: u32,
}

/// `s` reads a numeral, a colon at position `colon`, and a second numeral; the
/// seconds fit in 64 bits and the nanoseconds stay below one second.
pub open spec fn is_tai_text(s: Seq<char>, colon: int) -> bool {
    &&& 0 <= colon < s.len()
    &&& s[colon] == ':'
    &&& is_numeral(s.subrange(0, colon))
    &&& is_numeral(s.subrange(colon + 1, s.len() as int))
    &&& decimal_value(s.subrange(0, colon)) <= u64::MAX
    &&& decimal_value(s.subrange(colon + 1, s.len() as int)) < NANOS_PER_SECOND
}

/// The time that a text with its colon at `colon` denotes.
pub open spec fn tai_of_text(s: Seq<char>, colon: int) -> Tai {
    Tai {
        seconds: decimal_value(s.subrange(0, colon)) as u64,
        nanoseconds: decimal_value(s.subrange(colon + 1, s.len() as int)) as u32,
    }
}

/// What a text denotes: the time it spells, or nothing where it spells none.
pub open spec fn parsed_tai(s: Seq<char>) -> Option<Tai> {
    if exists|colon: int| is_tai_text(s, colon) {
        Some(tai_of_text(s, choose|colon: int| is_tai_text(s, colon)))
    } else {
        None
    }
}

/// A count of nanoseconds whose whole seconds fit in 64 bits.
pub open spec fn fits_tai(nanos: nat) -> bool {
    nanos < (u64::MAX as nat + 1) * (NANOS_PER_SECOND as nat)
}

/// The text of a time: the seconds, a colon, the nanoseconds.
pub open spec fn tai_text(t: Tai) -> Seq<char> {
    decimal_text(t.seconds as nat) + seq![':'] + decimal_text(t.nanoseconds as nat)
}

/// A text spells a time in one way only: its colon is its first colon.
pub proof fn lemma_tai_colon_unique(s: Seq<char>, c1: int, c2: int)
    requires
        is_tai_text(s, c1),
        is_tai_text(s, c2),
    ensures
        c1 == c2,
{
    if c1 < c2 {
        let seconds = s.subrange(0, c2);
        assert(is_digit(seconds[c1]));
    } else if c2 < c1 {
        let seconds = s.subrange(0, c1);
        assert(is_digit(seconds[c2]));
    }
}

/// A text that spells a time with its colon at `colon` denotes that time.
pub proof fn lemma_parsed_tai(s: Seq<char>, colon: int)
    requires
        is_tai_text(s, colon),
    ensures
        parsed_tai(s) == Some(tai_of_text(s, colon)),
{
    let chosen = choose|c: int| is_tai_text(s, c);
    lemma_tai_colon_unique(s, colon, chosen);
}

/// Reading the text of a well-formed time gives that time back.
pub proof fn lemma_parse_tai_text(t: Tai)
    requires
        t.wf(),
    ensures
        parsed_tai(tai_text(t)) == Some(t),
{
    let s = tai_text(t);
    let seconds = decimal_text(t.seconds as nat);
    let nanos = decimal_text(t.nanoseconds as nat);
    let colon = seconds.len() as int;
    lemma_decimal_text_value(t.seconds as nat);
    lemma_decimal_text_value(t.nanoseconds as nat);
    assert(s.subrange(0, colon) =~= seconds);
    assert(s.subrange(colon + 1, s.len() as int) =~= nanos);
    lemma_parsed_tai(s, colon);
}

impl Tai {
    /// The nanoseconds stay below one second.
    pub open spec fn wf(self) -> bool {
        self.nanoseconds < NANOS_PER_SECOND
    }

    /// The time as a count of nanoseconds.
    pub open spec fn total_nanos(self) -> nat {
        (self.seconds as nat) * (NANOS_PER_SECOND as nat) + self.nanoseconds as nat
    }

    /// Order by seconds, then by nanoseconds.
    pub open spec fn spec_lt(self, other: Tai) -> bool {
        self.seconds < other.seconds || (self.seconds == other.seconds && self.nanoseconds
            < other.nanoseconds)
    }

    /// The last time that `successor` can still move on from.
    pub open spec fn is_last(self) -> bool {
        self.seconds == u64::MAX && self.nanoseconds >= NANOS_PER_SECOND - 1
    }

    /// The time one nanosecond later; the last time stays as it is.
    pub open spec fn spec_successor(self) -> Tai {
        if self.nanoseconds < NANOS_PER_SECOND - 1 {
            Tai { seconds: self.seconds, nanoseconds: (self.nanoseconds + 1) as u32 }
        } else if self.seconds < u64::MAX {
            Tai { seconds: (self.seconds + 1) as u64, nanoseconds: 0 }
        } else {
            self
        }
    }

    /// Whether `self` is earlier than `other`.
    pub fn before(&self, other: &Tai) -> (r: bool)
        ensures
            r == self.spec_lt(*other),
    {
        self.seconds < other.seconds || (self.seconds == other.seconds && self.nanoseconds
            < other.nanoseconds)
    }

    /// The time one nanosecond later; the last time stays as it is.
    pub fn successor(&self) -> (r: Tai)
        ensures
            r == self.spec_successor(),
            !self.is_last() ==> self.spec_lt(r),
            self.wf() ==> r.wf(),
    {
        if self.nanoseconds < NANOS_PER_SECOND - 1 {
            Tai { seconds: self.seconds, nanoseconds: self.nanoseconds + 1 }
        } else if self.seconds < u64::MAX {
            Tai { seconds: self.seconds + 1, nanoseconds: 0 }
        } else {
            *self
        }
    }

    /// Whether the nanoseconds stay below one second.
    pub fn is_valid(&self) -> (r: bool)
        ensures
            r == self.wf(),
    {
        self.nanoseconds < NANOS_PER_SECOND
    }

    /// The time `duration` after `self`, where its seconds still fit in 64 bits,
    /// and nothing otherwise. Nanoseconds of a second or more carry into the seconds.
    pub fn checked_add(&self, duration: &Tai) -> (r: Option<Tai>)
        ensures
            r is Some <==> fits_tai(self.total_nanos() + duration.total_nanos()),
            r is Some ==> r->0.wf() && r->0.total_nanos() == self.total_nanos()
                + duration.total_nanos(),
    {
        let nanos: u64 = self.nanoseconds as u64 + duration.nanoseconds as u64;
        let carry: u64 = nanos / (NANOS_PER_SECOND as u64);
        let rest: u64 = nanos % (NANOS_PER_SECOND as u64);
        let seconds = match self.seconds.checked_add(duration.seconds) {
            Some(s) => s,
            None => {
                return None;
            },
        };
        match seconds.checked_add(carry) {
            Some(seconds) => Some(Tai { seconds, nanoseconds: rest as u32 }),
            None => None,
        }
    }
}

/// The token of a resource that had the token `current` and is changed at
/// `now`: the time of the change, or the next token after `current` where the
/// clock has not moved past it.
pub open spec fn next_update(current: Tai, now: Tai) -> Tai {
    if current.spec_lt(now) {
        now
    } else {
        current.spec_successor()
    }
}

/// A token moves forward with every change, until the last time is reached.
pub proof fn lemma_next_update_increases(current: Tai, now: Tai)
    requires
        !current.is_last(),
    ensures
        current.spec_lt(next_update(current, now)),
{
}

/// The token for a change at `now` of a resource whose token was `current`.
pub fn strictly_increasing_update(current: &Tai, now: &Tai) -> (r: Tai)
    ensures
        r == next_update(*current, *now),
{
    if current.before(now) {
        *now
    } else {
        current.successor()
    }
}

/// Reads a time from text such as `1441704616:890020555`: the seconds, a colon
/// and the nanoseconds, each a run of decimal digits, the seconds within 64 bits
/// and the nanoseconds below one second. Any other text gives `None`.
pub fn parse_tai(text: &str) -> (r: Option<Tai>)
    ensures
        r == parsed_tai(text@),
        r is Some ==> r->0.wf(),
{
    let chars = chars_of(text);
    let n = chars.len();
    let mut colon: usize = 0;
    while colon < n && chars[colon] != ':'
        invariant
            colon <= n,
            n == text@.len(),
            chars@ == text@,
            forall|k: int| 0 <= k < colon ==> text@[k] != ':',
        decreases n - colon,
    {
        colon = colon + 1;
    }
    proof {
        assert forall|c: int| c != colon && is_tai_text(text@, c) implies false by {
            if c < colon {
                assert(text@[c] == ':');
            } else if colon < n {
                let seconds = text@.subrange(0, c);
                assert(is_digit(seconds[colon as int]));
                assert(seconds[colon as int] == text@[colon as int]);
            }
        }
    }
    if colon >= n {
        return None;
    }
    let seconds = parse_decimal(&chars, 0, colon);
    let nanos = parse_decimal(&chars, colon + 1, n);
    match (seconds, nanos) {
        (Some(seconds), Some(nanos)) => {
            if nanos >= NANOS_PER_SECOND as u64 {
                None
            } else {
                let t = Tai { seconds, nanoseconds: nanos as u32 };
                assert(is_tai_text(text@, colon as int));
                Some(t)
            }
        },
        _ => None,
    }
}

/// Writes a time as `<seconds>:<nanoseconds>`, the form in which it serves as a
/// version token.
pub fn make_version(t: Tai) -> (r: String)
    ensures
        r@ == tai_text(t),
{
    let mut out = String::new();
    push_decimal(&mut out, t.seconds);
    out.append(":");
    push_decimal(&mut out, t.nanoseconds as u64);
    proof {
        reveal_strlit(":");
        assert(":"@ =~= seq![':']);
        assert(out@ =~= tai_text(t));
    }
    out
}

} // verus!
