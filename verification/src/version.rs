//! Versions of engines and extensions: three numbers, written `1.2.3`.

use crate::codec::{decimal_value, lemma_decimal_round_trip, parse_decimal};
use crate::text::{
    chars_of, decimal, digit_value, lemma_split_last_piece, lemma_split_without_sep, push_char,
    push_decimal, split_on, split_text, texts,
};
use vstd::prelude::*;

verus! {

/// A version: major, minor and patch number.
#[derive(Clone, Copy, Debug, PartialEq, Eq, PartialOrd, Ord, Structural)]
pub struct Version {
    major: u32,
    minor: u32,
    patch: u32,
}

/// Why a text writes no version.
#[derive(Clone, Copy, Debug, PartialEq, Eq, Structural)]
pub enum VersionError {
    /// The text does not have three parts between dots.
    InvalidFormat,
    /// The first part is no number.
    Major,
    /// The second part is no number.
    Minor,
    /// The third part is no number.
    Patch,
}

impl VersionError {
    /// The line shown to the user for this failure.
    pub open spec fn spec_message(self) -> Seq<char> {
        match self {
            VersionError::InvalidFormat => "Invalid version format"@,
            VersionError::Major => "Failed to parse major version"@,
            VersionError::Minor => "Failed to parse minor version"@,
            VersionError::Patch => "Failed to parse patch version"@,
        }
    }

    /// The line shown to the user for this failure.
    pub fn message(&self) -> (s: &'static str)
        ensures
            s@ == self.spec_message(),
    {
        match self {
            VersionError::InvalidFormat => "Invalid version format",
            VersionError::Major => "Failed to parse major version",
            VersionError::Minor => "Failed to parse minor version",
            VersionError::Patch => "Failed to parse patch version",
        }
    }
}

/// The number that `s` writes, as `u32` reads it from a text: digits, with
/// or without a plus sign before them, and a value that fits.
pub open spec fn u32_value(s: Seq<char>) -> Option<u32> {
    let digits = if s.len() > 0 && s[0] == '+' {
        s.drop_first()
    } else {
        s
    };
    match decimal_value(digits) {
        Some(v) => if v <= u32::MAX {
            Some(v as u32)
        } else {
            None
        },
        None => None,
    }
}

/// Reads a number as `u32` reads it from a text.
pub fn parse_u32(text: &str) -> (r: Option<u32>)
    ensures
        r == u32_value(text@),
{
    let chars = chars_of(text);
    let from: usize = if chars.len() > 0 && chars[0] == '+' {
        1
    } else {
        0
    };
    proof {
        if from == 1 {
            assert(chars@.subrange(1, chars.len() as int) =~= text@.drop_first());
        } else {
            assert(chars@.subrange(0, chars.len() as int) =~= text@);
        }
    }
    match parse_decimal(&chars, from, chars.len()) {
        Some(v) => if v <= u32::MAX as u64 {
            Some(v as u32)
        } else {
            None
        },
        None => None,
    }
}

/// What `decimal` writes holds neither a dot nor a plus sign, and reads back
/// as the number.
proof fn lemma_digits_only(n: nat)
    requires
        n <= u32::MAX,
    ensures
        forall|i: int| 0 <= i < decimal(n).len() ==> decimal(n)[i] != '.',
        u32_value(decimal(n)) == Some(n as u32),
{
    lemma_decimal_round_trip(n);
    assert forall|i: int| 0 <= i < decimal(n).len() implies decimal(n)[i] != '.' by {
        assert(digit_value(decimal(n)[i]) is Some);
    }
    assert(digit_value(decimal(n)[0]) is Some);
}

impl Version {
    /// The version `major.minor.patch`.
    pub fn new(major: u32, minor: u32, patch: u32) -> (v: Version)
        ensures
            v.major() == major,
            v.minor() == minor,
            v.patch() == patch,
    {
        Version { major, minor, patch }
    }

    /// The major number.
    #[verifier::when_used_as_spec(spec_major)]
    pub fn major(&self) -> (n: u32)
        ensures
            n == self.spec_major(),
    {
        self.major
    }

    /// The minor number.
    #[verifier::when_used_as_spec(spec_minor)]
    pub fn minor(&self) -> (n: u32)
        ensures
            n == self.spec_minor(),
    {
        self.minor
    }

    /// The patch number.
    #[verifier::when_used_as_spec(spec_patch)]
    pub fn patch(&self) -> (n: u32)
        ensures
            n == self.spec_patch(),
    {
        self.patch
    }

    pub closed spec fn spec_major(&self) -> u32 {
        self.major
    }

    pub closed spec fn spec_minor(&self) -> u32 {
        self.minor
    }

    pub closed spec fn spec_patch(&self) -> u32 {
        self.patch
    }

    /// Two versions with the same three numbers are the same version.
    pub proof fn lemma_same_numbers(a: Version, b: Version)
        requires
            a.major() == b.major(),
            a.minor() == b.minor(),
            a.patch() == b.patch(),
        ensures
            a == b,
    {
    }

    /// Whether `self` comes before `other`: by the major number, then the
    /// minor, then the patch number.
    pub open spec fn precedes(self, other: Version) -> bool {
        self.major() < other.major() || (self.major() == other.major() && (self.minor()
            < other.minor() || (self.minor() == other.minor() && self.patch() < other.patch())))
    }

    /// Whether `self` is an older version than `other`.
    pub fn is_older_than(&self, other: &Version) -> (r: bool)
        ensures
            r == self.precedes(*other),
    {
        self.major < other.major || (self.major == other.major && (self.minor < other.minor || (
        self.minor == other.minor && self.patch < other.patch)))
    }

    /// The version as it is written: the three numbers with dots between.
    pub open spec fn written(self) -> Seq<char> {
        decimal(self.major() as nat).push('.') + decimal(self.minor() as nat).push('.') + decimal(
            self.patch() as nat,
        )
    }

    /// The version as it is written.
    pub fn to_text(&self) -> (s: String)
        ensures
            s@ == self.written(),
    {
        let mut s = String::new();
        push_decimal(&mut s, self.major as u64);
        push_char(&mut s, '.');
        push_decimal(&mut s, self.minor as u64);
        push_char(&mut s, '.');
        push_decimal(&mut s, self.patch as u64);
        proof {
            assert(s@ =~= self.written());
        }
        s
    }

    /// The numbers of the version that `text` writes: exactly three parts
    /// between dots, each a number that fits. Where it writes none, the
    /// failure names the first part that is no number.
    pub open spec fn read(text: Seq<char>) -> Result<(u32, u32, u32), VersionError> {
        let parts = split_on(text, '.');
        if parts.len() != 3 {
            Err(VersionError::InvalidFormat)
        } else if u32_value(parts[0]) is None {
            Err(VersionError::Major)
        } else if u32_value(parts[1]) is None {
            Err(VersionError::Minor)
        } else if u32_value(parts[2]) is None {
            Err(VersionError::Patch)
        } else {
            Ok(
                (
                    u32_value(parts[0])->Some_0,
                    u32_value(parts[1])->Some_0,
                    u32_value(parts[2])->Some_0,
                ),
            )
        }
    }

    /// What is written of a version reads back as its three numbers.
    pub proof fn lemma_written_reads_back(self)
        ensures
            Self::read(self.written()) == Ok::<(u32, u32, u32), VersionError>(
                (self.major(), self.minor(), self.patch()),
            ),
    {
        let a = decimal(self.major() as nat);
        let b = decimal(self.minor() as nat);
        let c = decimal(self.patch() as nat);
        lemma_digits_only(self.major() as nat);
        lemma_digits_only(self.minor() as nat);
        lemma_digits_only(self.patch() as nat);
        lemma_split_without_sep(a, '.');
        lemma_split_last_piece(a, b, '.');
        lemma_split_last_piece(a.push('.') + b, c, '.');
        assert(self.written() =~= (a.push('.') + b).push('.') + c);
        assert(split_on(self.written(), '.') =~= seq![a, b, c]);
    }

    /// Reads a version.
    pub fn parse(text: &str) -> (r: Result<Version, VersionError>)
        ensures
            r is Ok <==> Self::read(text@) is Ok,
            r is Ok ==> (r->Ok_0.major(), r->Ok_0.minor(), r->Ok_0.patch()) == Self::read(
                text@,
            )->Ok_0,
            r is Err ==> Self::read(text@) == Err::<(u32, u32, u32), VersionError>(r->Err_0),
    {
        let parts = split_text(text, '.');
        if parts.len() != 3 {
            return Err(VersionError::InvalidFormat);
        }
        proof {
            assert(texts(parts@)[0] == parts@[0]@);
            assert(texts(parts@)[1] == parts@[1]@);
            assert(texts(parts@)[2] == parts@[2]@);
        }
        let major = match parse_u32(parts[0].as_str()) {
            Some(n) => n,
            None => {
                return Err(VersionError::Major);
            },
        };
        let minor = match parse_u32(parts[1].as_str()) {
            Some(n) => n,
            None => {
                return Err(VersionError::Minor);
            },
        };
        let patch = match parse_u32(parts[2].as_str()) {
            Some(n) => n,
            None => {
                return Err(VersionError::Patch);
            },
        };
        Ok(Version { major, minor, patch })
    }
}

} // verus!
