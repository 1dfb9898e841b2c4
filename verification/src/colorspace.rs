//! Colorspaces of video flows.

use vstd::prelude::*;
use vstd::string::*;
use crate::text::str_eq;

verus! {

/// The colorspace of a video flow.
#[derive(Debug, Clone, Copy, PartialEq, Eq, Structural, Hash)]
pub enum Colorspace {
    /// Recommendation ITU-R BT.601-7
    BT601,
    /// Recommendation ITU-R BT.709-6
    BT709,
    /// Recommendation ITU-R BT.2020-2
    BT2020,
    /// Recommendation ITU-R BT.2100, system colorimetry
    BT2100,
    /// SMPTE ST 2065-1 Academy Color Encoding Specification (ACES)
    ST2065_1,
    /// SMPTE ST 2065-3 Academy Density Exchange Encoding (ADX)
    ST2065_3,
    /// ISO 11664-1 CIE 1931 standard colorimetric system
    XYZ,
}

/// The name of a colorspace, as a flow carries it.
pub open spec fn colorspace_text(c: Colorspace) -> Seq<char> {
    match c {
        Colorspace::BT601 => "BT601"@,
        Colorspace::BT709 => "BT709"@,
        Colorspace::BT2020 => "BT2020"@,
        Colorspace::BT2100 => "BT2100"@,
        Colorspace::ST2065_1 => "ST2065-1"@,
        Colorspace::ST2065_3 => "ST2065-3"@,
        Colorspace::XYZ => "XYZ"@,
    }
}

/// The colorspace that a name stands for.
pub open spec fn colorspace_of_text(s: Seq<char>) -> Option<Colorspace> {
    if s == "BT601"@ {
        Some(Colorspace::BT601)
    } else if s == "BT709"@ {
        Some(Colorspace::BT709)
    } else if s == "BT2020"@ {
        Some(Colorspace::BT2020)
    } else if s == "BT2100"@ {
        Some(Colorspace::BT2100)
    } else if s == "ST2065-1"@ {
        Some(Colorspace::ST2065_1)
    } else if s == "ST2065-3"@ {
        Some(Colorspace::ST2065_3)
    } else if s == "XYZ"@ {
        Some(Colorspace::XYZ)
    } else {
        None
    }
}

/// The name of a colorspace leads back to the colorspace.
pub proof fn lemma_colorspace_round_trip(c: Colorspace)
    ensures
        colorspace_of_text(colorspace_text(c)) == Some(c),
{
    reveal_strlit("BT601");
    reveal_strlit("BT709");
    reveal_strlit("BT2020");
    reveal_strlit("BT2100");
    reveal_strlit("ST2065-1");
    reveal_strlit("ST2065-3");
    reveal_strlit("XYZ");
    assert("BT601"@.len() == 5 && "BT601"@[2] == '6');
    assert("BT709"@.len() == 5 && "BT709"@[2] == '7');
    assert("BT2020"@.len() == 6 && "BT2020"@[3] == '0' && "BT2020"@[0] == 'B');
    assert("BT2100"@.len() == 6 && "BT2100"@[3] == '1' && "BT2100"@[0] == 'B');
    assert("ST2065-1"@.len() == 8 && "ST2065-1"@[7] == '1');
    assert("ST2065-3"@.len() == 8 && "ST2065-3"@[7] == '3');
    assert("XYZ"@.len() == 3);
}

impl Colorspace {
    /// The name of the colorspace.
    pub fn name(&self) -> (r: &'static str)
        ensures
            r@ == colorspace_text(*self),
    {
        match self {
            Colorspace::BT601 => "BT601",
            Colorspace::BT709 => "BT709",
            Colorspace::BT2020 => "BT2020",
            Colorspace::BT2100 => "BT2100",
            Colorspace::ST2065_1 => "ST2065-1",
            Colorspace::ST2065_3 => "ST2065-3",
            Colorspace::XYZ => "XYZ",
        }
    }

    /// The colorspace of this name, if there is one.
    pub fn parse(name: &str) -> (r: Option<Colorspace>)
        ensures
            r == colorspace_of_text(name@),
    {
        if str_eq(name, "BT601") {
            Some(Colorspace::BT601)
        } else if str_eq(name, "BT709") {
            Some(Colorspace::BT709)
        } else if str_eq(name, "BT2020") {
            Some(Colorspace::BT2020)
        } else if str_eq(name, "BT2100") {
            Some(Colorspace::BT2100)
        } else if str_eq(name, "ST2065-1") {
            Some(Colorspace::ST2065_1)
        } else if str_eq(name, "ST2065-3") {
            Some(Colorspace::ST2065_3)
        } else if str_eq(name, "XYZ") {
            Some(Colorspace::XYZ)
        } else {
            None
        }
    }
}

} // verus!
