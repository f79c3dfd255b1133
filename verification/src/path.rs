//! The host-native path representation a successful lookup decodes to.

use vstd::prelude::*;

verus! {

/// Whether a code unit is a leading (high) surrogate.
pub open spec fn is_high_surrogate(u: u16) -> bool {
    0xD800 <= u <= 0xDBFF
}

/// Whether a code unit is a trailing (low) surrogate.
pub open spec fn is_low_surrogate(u: u16) -> bool {
    0xDC00 <= u <= 0xDFFF
}

/// Whether `s` is well-formed text in the platform's wide encoding:
/// every leading surrogate is immediately followed by a trailing one,
/// and no trailing surrogate stands on its own.
pub open spec fn valid_wide_text(s: Seq<u16>) -> bool
    decreases s.len(),
{
    if s.len() == 0 {
        true
    } else if is_high_surrogate(s[0]) {
        s.len() >= 2 && is_low_surrogate(s[1]) && valid_wide_text(s.skip(2))
    } else if is_low_surrogate(s[0]) {
        false
    } else {
        valid_wide_text(s.skip(1))
    }
}

/// A resolved filesystem path: the sequence of wide (16-bit) code units
/// the platform produced, terminator excluded.
///
/// No further structure is assumed — no existence check and no
/// canonicalization. The host path type permits arbitrary code-unit
/// sequences, so no encoding validation happens here either; a caller
/// that needs valid text asks [`ResolvedPath::is_well_encoded`]. The
/// empty sequence is a valid, empty path: a successful lookup that
/// reports length zero resolves to it rather than to absence.
#[derive(Debug, Clone, PartialEq, Eq)]
pub struct ResolvedPath {
    units: Vec<u16>,
}

impl View for ResolvedPath {
    type V = Seq<u16>;

    closed spec fn view(&self) -> Seq<u16> {
        self.units@
    }
}

impl ResolvedPath {
    /// Decode a path from the code units read out of a lookup buffer.
    pub fn from_units(units: Vec<u16>) -> (p: ResolvedPath)
        ensures
            p@ == units@,
    {
        ResolvedPath { units }
    }

    /// The path's code units, in order.
    pub fn as_units(&self) -> (u: &Vec<u16>)
        ensures
            u@ == self@,
    {
        &self.units
    }

    /// The number of code units in the path.
    pub fn len(&self) -> (n: usize)
        ensures
            n == self@.len(),
    {
        self.units.len()
    }

    /// Whether the path is well-formed text in the platform's wide
    /// encoding. A path that is not can still name a directory; a
    /// display boundary uses this to report a non-encodable result
    /// distinctly instead of showing mangled text.
    pub fn is_well_encoded(&self) -> (r: bool)
        ensures
            r == valid_wide_text(self@),
    {
        let n: usize = self.units.len();
        let mut i: usize = 0;
        proof {
            assert(self@.skip(0) =~= self@);
        }
        while i < n
            invariant
                i <= n,
                n == self@.len(),
                valid_wide_text(self@) == valid_wide_text(self@.skip(i as int)),
            decreases n - i,
        {
            let u = self.units[i];
            if 0xD800 <= u && u <= 0xDBFF {
                if i + 1 < n {
                    let v = self.units[i + 1];
                    if 0xDC00 <= v && v <= 0xDFFF {
                        proof {
                            assert(self@.skip(i as int).skip(2) =~= self@.skip(i as int + 2));
                        }
                        i = i + 2;
                    } else {
                        return false;
                    }
                } else {
                    return false;
                }
            } else if 0xDC00 <= u && u <= 0xDFFF {
                return false;
            } else {
                proof {
                    assert(self@.skip(i as int).skip(1) =~= self@.skip(i as int + 1));
                }
                i = i + 1;
            }
        }
        true
    }
}

} // verus!
