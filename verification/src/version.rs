//! The closed, ordered set of SDK versions.

use vstd::prelude::*;

verus! {

/// Number of SDK versions in the closed set.
pub const VERSION_COUNT: usize = 12;

/// One release of the vendor SDK. The variants are listed oldest first.
#[allow(non_camel_case_types)]
#[derive(Clone, Copy, Debug, PartialEq, Eq, Structural)]
pub enum SdkVersion {
    V8_0,
    V8_1,
    V8_2,
    V9_0,
    V9_1,
    V10_0,
    V11_0,
    V11_1,
    V12_0,
    V12_1,
    V12_2,
    V13_0,
}

/// Every SDK version, oldest first.
pub open spec fn all_versions() -> Seq<SdkVersion> {
    seq![
        SdkVersion::V8_0,
        SdkVersion::V8_1,
        SdkVersion::V8_2,
        SdkVersion::V9_0,
        SdkVersion::V9_1,
        SdkVersion::V10_0,
        SdkVersion::V11_0,
        SdkVersion::V11_1,
        SdkVersion::V12_0,
        SdkVersion::V12_1,
        SdkVersion::V12_2,
        SdkVersion::V13_0,
    ]
}

impl SdkVersion {
    /// Major release number.
    pub open spec fn major_spec(self) -> nat {
        match self {
            SdkVersion::V8_0 | SdkVersion::V8_1 | SdkVersion::V8_2 => 8,
            SdkVersion::V9_0 | SdkVersion::V9_1 => 9,
            SdkVersion::V10_0 => 10,
            SdkVersion::V11_0 | SdkVersion::V11_1 => 11,
            SdkVersion::V12_0 | SdkVersion::V12_1 | SdkVersion::V12_2 => 12,
            SdkVersion::V13_0 => 13,
        }
    }

    /// Minor release number.
    pub open spec fn minor_spec(self) -> nat {
        match self {
            SdkVersion::V8_0
            | SdkVersion::V9_0
            | SdkVersion::V10_0
            | SdkVersion::V11_0
            | SdkVersion::V12_0
            | SdkVersion::V13_0 => 0,
            SdkVersion::V8_1 | SdkVersion::V9_1 | SdkVersion::V11_1 | SdkVersion::V12_1 => 1,
            SdkVersion::V8_2 | SdkVersion::V12_2 => 2,
        }
    }

    /// Position of the version in the ordered set, oldest first.
    pub open spec fn index_spec(self) -> nat {
        match self {
            SdkVersion::V8_0 => 0,
            SdkVersion::V8_1 => 1,
            SdkVersion::V8_2 => 2,
            SdkVersion::V9_0 => 3,
            SdkVersion::V9_1 => 4,
            SdkVersion::V10_0 => 5,
            SdkVersion::V11_0 => 6,
            SdkVersion::V11_1 => 7,
            SdkVersion::V12_0 => 8,
            SdkVersion::V12_1 => 9,
            SdkVersion::V12_2 => 10,
            SdkVersion::V13_0 => 11,
        }
    }

    /// Major release number.
    pub fn major(self) -> (r: u8)
        ensures
            r == self.major_spec(),
    {
        match self {
            SdkVersion::V8_0 | SdkVersion::V8_1 | SdkVersion::V8_2 => 8,
            SdkVersion::V9_0 | SdkVersion::V9_1 => 9,
            SdkVersion::V10_0 => 10,
            SdkVersion::V11_0 | SdkVersion::V11_1 => 11,
            SdkVersion::V12_0 | SdkVersion::V12_1 | SdkVersion::V12_2 => 12,
            SdkVersion::V13_0 => 13,
        }
    }

    /// Minor release number.
    pub fn minor(self) -> (r: u8)
        ensures
            r == self.minor_spec(),
    {
        match self {
            SdkVersion::V8_0
            | SdkVersion::V9_0
            | SdkVersion::V10_0
            | SdkVersion::V11_0
            | SdkVersion::V12_0
            | SdkVersion::V13_0 => 0,
            SdkVersion::V8_1 | SdkVersion::V9_1 | SdkVersion::V11_1 | SdkVersion::V12_1 => 1,
            SdkVersion::V8_2 | SdkVersion::V12_2 => 2,
        }
    }

    /// Position of the version in the ordered set, oldest first.
    pub fn index(self) -> (r: usize)
        ensures
            r == self.index_spec(),
            r < VERSION_COUNT,
            all_versions()[r as int] == self,
    {
        match self {
            SdkVersion::V8_0 => 0,
            SdkVersion::V8_1 => 1,
            SdkVersion::V8_2 => 2,
            SdkVersion::V9_0 => 3,
            SdkVersion::V9_1 => 4,
            SdkVersion::V10_0 => 5,
            SdkVersion::V11_0 => 6,
            SdkVersion::V11_1 => 7,
            SdkVersion::V12_0 => 8,
            SdkVersion::V12_1 => 9,
            SdkVersion::V12_2 => 10,
            SdkVersion::V13_0 => 11,
        }
    }

    /// The version at position `index`, or `None` past the end of the set.
    pub fn from_index(index: usize) -> (r: Option<SdkVersion>)
        ensures
            index < VERSION_COUNT ==> r == Some(all_versions()[index as int]),
            index >= VERSION_COUNT ==> r is None,
            r matches Some(v) ==> v.index_spec() == index,
    {
        match index {
            0 => Some(SdkVersion::V8_0),
            1 => Some(SdkVersion::V8_1),
            2 => Some(SdkVersion::V8_2),
            3 => Some(SdkVersion::V9_0),
            4 => Some(SdkVersion::V9_1),
            5 => Some(SdkVersion::V10_0),
            6 => Some(SdkVersion::V11_0),
            7 => Some(SdkVersion::V11_1),
            8 => Some(SdkVersion::V12_0),
            9 => Some(SdkVersion::V12_1),
            10 => Some(SdkVersion::V12_2),
            11 => Some(SdkVersion::V13_0),
            _ => None,
        }
    }
}

/// The decimal digit `d` as a character.
pub open spec fn digit_char(d: nat) -> char
    recommends
        d < 10,
{
    if d == 0 {
        '0'
    } else if d == 1 {
        '1'
    } else if d == 2 {
        '2'
    } else if d == 3 {
        '3'
    } else if d == 4 {
        '4'
    } else if d == 5 {
        '5'
    } else if d == 6 {
        '6'
    } else if d == 7 {
        '7'
    } else if d == 8 {
        '8'
    } else {
        '9'
    }
}

/// A release number below one hundred in decimal, without leading zeros.
pub open spec fn decimal_text(n: nat) -> Seq<char>
    recommends
        n < 100,
{
    if n < 10 {
        seq![digit_char(n)]
    } else {
        seq![digit_char(n / 10), digit_char(n % 10)]
    }
}

/// The character a selector character becomes in the name of the variable
/// that the build system sets: lower-case letters are raised, a dot becomes an
/// underscore, everything else stays.
pub open spec fn variable_char(c: char) -> char {
    if c == '.' {
        '_'
    } else if 'a' <= c && c <= 'z' {
        ((c as u8 - 32) as u8) as char
    } else {
        c
    }
}

impl SdkVersion {
    /// The selector of the version: `v`, the major number, `_`, the minor
    /// number.
    pub open spec fn selector_text(self) -> Seq<char> {
        seq!['v'] + decimal_text(self.major_spec()) + seq!['_'] + decimal_text(self.minor_spec())
    }

    /// The name of the variable that the build system sets when the version's
    /// selector is enabled.
    pub open spec fn feature_variable_text(self) -> Seq<char> {
        "CARGO_FEATURE_"@ + self.selector_text().map_values(|c: char| variable_char(c))
    }

    /// The selector by which a build enables this version, such as `v13_0`.
    pub fn selector(self) -> (r: &'static str)
        ensures
            r@ == self.selector_text(),
    {
        match self {
            SdkVersion::V8_0 => {
                proof { reveal_strlit("v8_0"); }
                "v8_0"
            },
            SdkVersion::V8_1 => {
                proof { reveal_strlit("v8_1"); }
                "v8_1"
            },
            SdkVersion::V8_2 => {
                proof { reveal_strlit("v8_2"); }
                "v8_2"
            },
            SdkVersion::V9_0 => {
                proof { reveal_strlit("v9_0"); }
                "v9_0"
            },
            SdkVersion::V9_1 => {
                proof { reveal_strlit("v9_1"); }
                "v9_1"
            },
            SdkVersion::V10_0 => {
                proof { reveal_strlit("v10_0"); }
                "v10_0"
            },
            SdkVersion::V11_0 => {
                proof { reveal_strlit("v11_0"); }
                "v11_0"
            },
            SdkVersion::V11_1 => {
                proof { reveal_strlit("v11_1"); }
                "v11_1"
            },
            SdkVersion::V12_0 => {
                proof { reveal_strlit("v12_0"); }
                "v12_0"
            },
            SdkVersion::V12_1 => {
                proof { reveal_strlit("v12_1"); }
                "v12_1"
            },
            SdkVersion::V12_2 => {
                proof { reveal_strlit("v12_2"); }
                "v12_2"
            },
            SdkVersion::V13_0 => {
                proof { reveal_strlit("v13_0"); }
                "v13_0"
            },
        }
    }

    /// The name of the variable that the build system sets when the version's
    /// selector is enabled, such as `CARGO_FEATURE_V13_0`.
    pub fn feature_variable(self) -> (r: &'static str)
        ensures
            r@ == self.feature_variable_text(),
    {
        proof { reveal_strlit("CARGO_FEATURE_"); }
        match self {
            SdkVersion::V8_0 => {
                proof { reveal_strlit("CARGO_FEATURE_V8_0"); }
                "CARGO_FEATURE_V8_0"
            },
            SdkVersion::V8_1 => {
                proof { reveal_strlit("CARGO_FEATURE_V8_1"); }
                "CARGO_FEATURE_V8_1"
            },
            SdkVersion::V8_2 => {
                proof { reveal_strlit("CARGO_FEATURE_V8_2"); }
                "CARGO_FEATURE_V8_2"
            },
            SdkVersion::V9_0 => {
                proof { reveal_strlit("CARGO_FEATURE_V9_0"); }
                "CARGO_FEATURE_V9_0"
            },
            SdkVersion::V9_1 => {
                proof { reveal_strlit("CARGO_FEATURE_V9_1"); }
                "CARGO_FEATURE_V9_1"
            },
            SdkVersion::V10_0 => {
                proof { reveal_strlit("CARGO_FEATURE_V10_0"); }
                "CARGO_FEATURE_V10_0"
            },
            SdkVersion::V11_0 => {
                proof { reveal_strlit("CARGO_FEATURE_V11_0"); }
                "CARGO_FEATURE_V11_0"
            },
            SdkVersion::V11_1 => {
                proof { reveal_strlit("CARGO_FEATURE_V11_1"); }
                "CARGO_FEATURE_V11_1"
            },
            SdkVersion::V12_0 => {
                proof { reveal_strlit("CARGO_FEATURE_V12_0"); }
                "CARGO_FEATURE_V12_0"
            },
            SdkVersion::V12_1 => {
                proof { reveal_strlit("CARGO_FEATURE_V12_1"); }
                "CARGO_FEATURE_V12_1"
            },
            SdkVersion::V12_2 => {
                proof { reveal_strlit("CARGO_FEATURE_V12_2"); }
                "CARGO_FEATURE_V12_2"
            },
            SdkVersion::V13_0 => {
                proof { reveal_strlit("CARGO_FEATURE_V13_0"); }
                "CARGO_FEATURE_V13_0"
            },
        }
    }
}

/// The set is ordered by release: a version stands before another exactly
/// when its (major, minor) pair is the smaller one.
pub proof fn lemma_index_orders_by_release(a: SdkVersion, b: SdkVersion)
    ensures
        a.index_spec() < b.index_spec() <==> (a.major_spec() < b.major_spec() || (a.major_spec()
            == b.major_spec() && a.minor_spec() < b.minor_spec())),
        a.index_spec() == b.index_spec() <==> a == b,
{
}

} // verus!
