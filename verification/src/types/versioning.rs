//! Three-part version identifiers of the form `major.minor.patch`.

use crate::decimal::{
    is_dec_digit, is_dec_string, parse_u32, spec_dec_of, spec_dec_val, spec_digit_val, u64_to_dec,
};
use crate::error::{Error, Res};
use crate::text::{find_char, spec_index_of};
use core::cmp::Ordering;
use vstd::prelude::*;

verus! {

/// A `major.minor.patch` version identifier, ordered lexicographically by
/// its parts.
#[derive(Clone, Copy, Debug, Hash, PartialEq, Eq, Ord, Structural)]
pub struct Version {
    pub major: u32,
    pub minor: u32,
    pub patch: u32,
}

/// The textual form of a version: the three parts in decimal, joined by dots.
pub open spec fn spec_version_string(v: Version) -> Seq<char> {
    spec_dec_of(v.major as nat) + seq!['.'] + spec_dec_of(v.minor as nat) + seq!['.'] + spec_dec_of(
        v.patch as nat,
    )
}

/// The three dot-separated segments a version string is read from: the text
/// before the first dot, then up to the second, then up to the third;
/// anything after a third dot is ignored, and a missing minor or patch
/// segment defaults to zero.
pub open spec fn spec_version_segments(s: Seq<char>) -> (Seq<char>, Seq<char>, Seq<char>) {
    let i1 = spec_index_of(s, '.', 0);
    let i2 = spec_index_of(s, '.', i1 + 1);
    let i3 = spec_index_of(s, '.', i2 + 1);
    let major = s.subrange(0, i1);
    let minor = if i1 < s.len() {
        s.subrange(i1 + 1, i2)
    } else {
        seq!['0']
    };
    let patch = if i1 < s.len() && i2 < s.len() {
        s.subrange(i2 + 1, i3)
    } else {
        seq!['0']
    };
    (major, minor, patch)
}

/// Whether one segment of a version string denotes a 32-bit number.
pub open spec fn spec_version_part_ok(seg: Seq<char>) -> bool {
    is_dec_string(seg) && spec_dec_val(seg) <= u32::MAX
}

/// Whether a whole version string parses.
pub open spec fn spec_version_parses(s: Seq<char>) -> bool {
    let (major, minor, patch) = spec_version_segments(s);
    spec_version_part_ok(major) && spec_version_part_ok(minor) && spec_version_part_ok(patch)
}

/// Lexicographic order on the three parts.
pub open spec fn spec_version_cmp(a: Version, b: Version) -> Ordering {
    if a.major < b.major {
        Ordering::Less
    } else if a.major > b.major {
        Ordering::Greater
    } else if a.minor < b.minor {
        Ordering::Less
    } else if a.minor > b.minor {
        Ordering::Greater
    } else if a.patch < b.patch {
        Ordering::Less
    } else if a.patch > b.patch {
        Ordering::Greater
    } else {
        Ordering::Equal
    }
}

impl Version {
    /// Render the version as `major.minor.patch`.
    pub fn version_string(&self) -> (r: String)
        ensures
            r@ == spec_version_string(*self),
    {
        let r = u64_to_dec(self.major as u64).concat(".").concat(
            u64_to_dec(self.minor as u64).as_str(),
        ).concat(".").concat(u64_to_dec(self.patch as u64).as_str());
        proof {
            reveal_strlit(".");
            assert(r@ =~= spec_version_string(*self));
        }
        r
    }

    /// Read a version from its textual form. The major part must be present;
    /// minor and patch default to zero; a fourth dot-separated part and
    /// anything after it are ignored. Each part must be a decimal 32-bit
    /// number, else the whole value is rejected.
    pub fn parse(s: &str) -> (r: Res<Version>)
        ensures
            r is Ok <==> spec_version_parses(s@),
            r matches Ok(v) ==> ({
                let (major, minor, patch) = spec_version_segments(s@);
                &&& v.major == spec_dec_val(major)
                &&& v.minor == spec_dec_val(minor)
                &&& v.patch == spec_dec_val(patch)
            }),
            r matches Err(e) ==> e matches Error::ValueError { value, .. } && value@ == s@,
    {
        let len = s.unicode_len();
        let i1 = find_char(s, '.', 0);
        let major_val = parse_u32(s.substring_char(0, i1));
        let mut minor_val: Option<u32> = Some(0);
        let mut patch_val: Option<u32> = Some(0);
        proof {
            let zero_seq = seq!['0'];
            assert(zero_seq.len() == 1 && zero_seq.last() == '0' && zero_seq[0] == '0');
            assert(is_dec_digit('0'));
            assert(is_dec_string(zero_seq));
            assert(zero_seq.drop_last() =~= Seq::<char>::empty());
            assert(spec_dec_val(Seq::<char>::empty()) == 0);
            assert(spec_dec_val(zero_seq) == spec_digit_val('0'));
            assert(spec_digit_val('0') == 0);
        }
        if i1 < len {
            let i2 = find_char(s, '.', i1 + 1);
            minor_val = parse_u32(s.substring_char(i1 + 1, i2));
            if i2 < len {
                let i3 = find_char(s, '.', i2 + 1);
                patch_val = parse_u32(s.substring_char(i2 + 1, i3));
            }
        }
        match (major_val, minor_val, patch_val) {
            (Some(major), Some(minor), Some(patch)) => Ok(Version { major, minor, patch }),
            _ => Err(
                Error::value_error(
                    String::from_str(s),
                    String::from_str("each version part must be a decimal 32-bit number"),
                ),
            ),
        }
    }
}

impl PartialOrd for Version {
    fn partial_cmp(&self, other: &Version) -> (r: Option<Ordering>) {
        if self.major < other.major {
            Some(Ordering::Less)
        } else if self.major > other.major {
            Some(Ordering::Greater)
        } else if self.minor < other.minor {
            Some(Ordering::Less)
        } else if self.minor > other.minor {
            Some(Ordering::Greater)
        } else if self.patch < other.patch {
            Some(Ordering::Less)
        } else if self.patch > other.patch {
            Some(Ordering::Greater)
        } else {
            Some(Ordering::Equal)
        }
    }
}

impl vstd::std_specs::cmp::PartialOrdSpecImpl for Version {
    open spec fn obeys_partial_cmp_spec() -> bool {
        true
    }

    open spec fn partial_cmp_spec(&self, other: &Version) -> Option<Ordering> {
        Some(spec_version_cmp(*self, *other))
    }
}

} // verus!
