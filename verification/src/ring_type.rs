//! The closed set of ring styles, their two-letter codes, and parsing.

use vstd::prelude::*;

verus! {

/// The three support-ring styles. Each has a canonical two-letter code
/// (`CX`, `CC`, `3P`) used for display and parsing.
#[derive(Debug, Clone, Copy, PartialEq, Eq, Structural)]
pub enum RingType {
    Convex,
    Concave,
    ThreePoint,
}

/// Failures detected while turning request data into ring parameters.
/// All generation failures are of this kind: once parameters are
/// validated, mesh generation itself cannot fail.
#[derive(Debug, Clone, Copy, PartialEq, Eq, Structural)]
pub enum RingError {
    /// The ring-style string is not one of the accepted names.
    InvalidRingType,
    /// A diameter is not positive, or the outer diameter does not
    /// exceed the inner one.
    InvalidParameters,
}

/// One character of candidate input `c` matches one character `u` of an
/// accepted (upper-case) ring-style name: either exactly, or as the
/// ASCII lower-case form of `u`.
pub open spec fn char_matches_upper(c: char, u: char) -> bool {
    c == u || (97 <= c as u32 <= 122 && c as u32 == u as u32 + 32)
}

/// Candidate input `s` spells the accepted (upper-case) name `t`,
/// ignoring ASCII case.
pub open spec fn seq_matches_upper(s: Seq<char>, t: Seq<char>) -> bool {
    s.len() == t.len() && forall|i: int| 0 <= i < s.len() ==> char_matches_upper(s[i], t[i])
}

/// What parsing a ring-style string yields: each style is named by its
/// two-letter code or a long-form alias, ASCII-case-insensitively; any
/// other input parses to nothing.
pub open spec fn parse_spec(s: Seq<char>) -> Option<RingType> {
    if seq_matches_upper(s, "CX"@) || seq_matches_upper(s, "CONVEX"@) {
        Some(RingType::Convex)
    } else if seq_matches_upper(s, "CC"@) || seq_matches_upper(s, "CONCAVE"@) {
        Some(RingType::Concave)
    } else if seq_matches_upper(s, "3P"@) || seq_matches_upper(s, "THREEPOINT"@)
        || seq_matches_upper(s, "THREE-POINT"@) {
        Some(RingType::ThreePoint)
    } else {
        None
    }
}

/// Decides whether `s` spells `t` ignoring ASCII case, character by
/// character.
fn matches_upper(s: &str, t: &str) -> (r: bool)
    ensures
        r == seq_matches_upper(s@, t@),
{
    let n = s.unicode_len();
    let m = t.unicode_len();
    if n != m {
        return false;
    }
    let mut i: usize = 0;
    while i < n
        invariant
            n == s@.len(),
            n == t@.len(),
            0 <= i <= n,
            forall|j: int| 0 <= j < i ==> char_matches_upper(s@[j], t@[j]),
        decreases n - i,
    {
        let a = s.get_char(i);
        let b = t.get_char(i);
        let a32 = a as u32;
        let b32 = b as u32;
        let hit = a == b || (97 <= a32 && a32 <= 122 && a32 - 32 == b32);
        if !hit {
            assert(!char_matches_upper(s@[i as int], t@[i as int]));
            return false;
        }
        i = i + 1;
    }
    true
}

impl RingType {
    /// The canonical two-letter code of this style, as a sequence of
    /// characters.
    pub open spec fn code_chars(self) -> Seq<char> {
        match self {
            RingType::Convex => "CX"@,
            RingType::Concave => "CC"@,
            RingType::ThreePoint => "3P"@,
        }
    }

    /// The canonical two-letter code of this style (`CX`, `CC` or
    /// `3P`), used in filenames and messages.
    pub fn to_string(&self) -> (r: String)
        ensures
            r@ == self.code_chars(),
    {
        match self {
            RingType::Convex => String::from_str("CX"),
            RingType::Concave => String::from_str("CC"),
            RingType::ThreePoint => String::from_str("3P"),
        }
    }

    /// Parses a ring style: the two-letter codes and the long-form
    /// aliases are accepted ignoring ASCII case; everything else is an
    /// [`RingError::InvalidRingType`] failure.
    pub fn from_str(s: &str) -> (res: Result<RingType, RingError>)
        ensures
            match res {
                Ok(t) => parse_spec(s@) == Some(t),
                Err(e) => parse_spec(s@) is None && e == RingError::InvalidRingType,
            },
    {
        if matches_upper(s, "CX") || matches_upper(s, "CONVEX") {
            Ok(RingType::Convex)
        } else if matches_upper(s, "CC") || matches_upper(s, "CONCAVE") {
            Ok(RingType::Concave)
        } else if matches_upper(s, "3P") || matches_upper(s, "THREEPOINT")
            || matches_upper(s, "THREE-POINT") {
            Ok(RingType::ThreePoint)
        } else {
            Err(RingError::InvalidRingType)
        }
    }
}

impl RingError {
    /// A human-readable description of the failure. The ring-type
    /// message enumerates the accepted codes.
    pub fn message(&self) -> (r: String)
        ensures
            *self == RingError::InvalidRingType ==> r@ == "Invalid ring type. Valid types are: CX, CC, 3P"@,
            *self == RingError::InvalidParameters ==> r@ == "Diameters must be positive and the outer diameter must be greater than the inner diameter"@,
    {
        match self {
            RingError::InvalidRingType => String::from_str(
                "Invalid ring type. Valid types are: CX, CC, 3P",
            ),
            RingError::InvalidParameters => String::from_str(
                "Diameters must be positive and the outer diameter must be greater than the inner diameter",
            ),
        }
    }
}

/// Parsing a style's own canonical code recovers that style: the
/// round trip through [`RingType::to_string`] and
/// [`RingType::from_str`] is the identity on every variant.
pub proof fn lemma_code_round_trip(rt: RingType)
    ensures
        parse_spec(rt.code_chars()) == Some(rt),
{
    reveal_strlit("CX");
    reveal_strlit("CONVEX");
    reveal_strlit("CC");
    reveal_strlit("CONCAVE");
    reveal_strlit("3P");
    reveal_strlit("THREEPOINT");
    reveal_strlit("THREE-POINT");
    match rt {
        RingType::Convex => {
            assert(seq_matches_upper("CX"@, "CX"@));
        },
        RingType::Concave => {
            assert(!char_matches_upper("CC"@[1], "CX"@[1]));
            assert(!seq_matches_upper("CC"@, "CX"@));
            assert(!seq_matches_upper("CC"@, "CONVEX"@));
            assert(seq_matches_upper("CC"@, "CC"@));
        },
        RingType::ThreePoint => {
            assert(!char_matches_upper("3P"@[0], "CX"@[0]));
            assert(!seq_matches_upper("3P"@, "CX"@));
            assert(!seq_matches_upper("3P"@, "CONVEX"@));
            assert(!char_matches_upper("3P"@[0], "CC"@[0]));
            assert(!seq_matches_upper("3P"@, "CC"@));
            assert(!seq_matches_upper("3P"@, "CONCAVE"@));
            assert(seq_matches_upper("3P"@, "3P"@));
        },
    }
}

} // verus!
