//! Validated ring parameters and the canonical output filename.

use vstd::prelude::*;

use crate::ring_type::RingError;
use crate::ring_type::RingType;

verus! {

/// Validated parameters of one generation request. Lengths are in
/// tenths of a millimetre, so `outer_diameter == 400` is a 40.0 mm
/// diameter. The invariants (`inner_diameter` positive and smaller
/// than `outer_diameter`) are enforced by [`RingParameters::new`] and
/// never re-checked afterwards.
#[derive(Debug, Clone, Copy, PartialEq, Eq, Structural)]
pub struct RingParameters {
    pub ring_type: RingType,
    /// Outer diameter, tenths of a millimetre.
    pub outer_diameter: i32,
    /// Inner diameter, tenths of a millimetre.
    pub inner_diameter: i32,
    /// Ring height, tenths of a millimetre; derived at construction,
    /// fixed at 22 mm to match the manufacturing drawing.
    pub height: i32,
}

/// The character for one decimal digit.
pub open spec fn digit_char(d: int) -> char {
    if d == 0 {
        '0'
    } else if d == 1 {
        '1'
    } else if d == 2 {
        '2'
    } else if d == 3 {
        '3'
    } else if d == 4 {
        '4'
    } else if d == 5 {
        '5'
    } else if d == 6 {
        '6'
    } else if d == 7 {
        '7'
    } else if d == 8 {
        '8'
    } else {
        '9'
    }
}

/// The decimal digits of a non-negative integer, most significant
/// first, without leading zeros (a lone `0` for zero).
pub open spec fn dec_chars(n: int) -> Seq<char>
    decreases n,
{
    if n < 10 {
        seq![digit_char(n)]
    } else {
        dec_chars(n / 10).push(digit_char(n % 10))
    }
}

/// The single character of one decimal digit, as a string.
fn digit_str(d: u32) -> (r: String)
    requires
        d < 10,
    ensures
        r@ == seq![digit_char(d as int)],
{
    proof {
        reveal_strlit("0");
        reveal_strlit("1");
        reveal_strlit("2");
        reveal_strlit("3");
        reveal_strlit("4");
        reveal_strlit("5");
        reveal_strlit("6");
        reveal_strlit("7");
        reveal_strlit("8");
        reveal_strlit("9");
    }
    let r = if d == 0 {
        String::from_str("0")
    } else if d == 1 {
        String::from_str("1")
    } else if d == 2 {
        String::from_str("2")
    } else if d == 3 {
        String::from_str("3")
    } else if d == 4 {
        String::from_str("4")
    } else if d == 5 {
        String::from_str("5")
    } else if d == 6 {
        String::from_str("6")
    } else if d == 7 {
        String::from_str("7")
    } else if d == 8 {
        String::from_str("8")
    } else {
        String::from_str("9")
    };
    proof {
        assert(r@ =~= seq![digit_char(d as int)]);
    }
    r
}

/// The decimal representation of `n`, most significant digit first.
fn dec_string(n: u32) -> (r: String)
    ensures
        r@ == dec_chars(n as int),
    decreases n,
{
    if n < 10 {
        digit_str(n)
    } else {
        let mut s = dec_string(n / 10);
        let last = digit_str(n % 10);
        s.append(last.as_str());
        proof {
            assert(s@ =~= dec_chars(n as int));
        }
        s
    }
}

impl RingParameters {
    /// Well-formedness: both diameters positive and the outer one
    /// strictly larger, as established by construction.
    pub open spec fn valid(self) -> bool {
        0 < self.inner_diameter < self.outer_diameter
    }

    /// Validates raw request dimensions (tenths of a millimetre) and
    /// derives the fixed 22 mm height. Fails with
    /// [`RingError::InvalidParameters`] exactly when a diameter is not
    /// positive or the outer diameter does not exceed the inner one.
    pub fn new(ring_type: RingType, outer_diameter: i32, inner_diameter: i32) -> (res: Result<
        RingParameters,
        RingError,
    >)
        ensures
            match res {
                Ok(p) => 0 < inner_diameter < outer_diameter && p == (RingParameters {
                    ring_type,
                    outer_diameter,
                    inner_diameter,
                    height: 220,
                }) && p.valid(),
                Err(e) => !(0 < inner_diameter < outer_diameter) && e
                    == RingError::InvalidParameters,
            },
    {
        if outer_diameter <= inner_diameter {
            return Err(RingError::InvalidParameters);
        }
        if outer_diameter <= 0 || inner_diameter <= 0 {
            return Err(RingError::InvalidParameters);
        }
        // Fixed height of 22 mm per the manufacturing drawing.
        let height: i32 = 220;
        Ok(RingParameters { ring_type, outer_diameter, inner_diameter, height })
    }

    /// The characters of the canonical output filename:
    /// `{code}-{inner diameter, one decimal place}.stl`.
    pub open spec fn filename_chars(self) -> Seq<char> {
        self.ring_type.code_chars() + "-"@ + dec_chars(self.inner_diameter as int / 10) + "."@
            + seq![digit_char(self.inner_diameter as int % 10)] + ".stl"@
    }

    /// The canonical output filename, such as `CX-18.0.stl` for a
    /// convex ring with a 18.0 mm inner diameter.
    pub fn filename(&self) -> (r: String)
        requires
            self.valid(),
        ensures
            r@ == self.filename_chars(),
    {
        let mut s = self.ring_type.to_string();
        s.append("-");
        let tenths = self.inner_diameter as u32;
        let whole = dec_string(tenths / 10);
        s.append(whole.as_str());
        s.append(".");
        let frac = digit_str(tenths % 10);
        s.append(frac.as_str());
        s.append(".stl");
        proof {
            assert(s@ =~= self.filename_chars());
        }
        s
    }
}

} // verus!
