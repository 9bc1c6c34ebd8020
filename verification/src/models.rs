//! Aeronautical data models: airspaces, airways, navigation aids and
//! waypoint kinds, with their textual codes.

use vstd::prelude::*;

pub mod airspace;
pub mod airway;
pub mod navaid;
pub mod waypoint;

use vstd::string::StrSliceExecFns;

verus! {

/// The character with an ASCII lower-case letter mapped to its upper-case
/// form, every other character unchanged.
pub open spec fn upper_char(c: char) -> char {
    if 97 <= c as u32 && c as u32 <= 122 {
        ((c as u32 - 32) as u8) as char
    } else {
        c
    }
}

/// The text with every ASCII lower-case letter mapped to upper case.
pub open spec fn upper_chars(s: Seq<char>) -> Seq<char> {
    s.map_values(|c: char| upper_char(c))
}

fn to_upper(c: char) -> (r: char)
    ensures
        r == upper_char(c),
{
    let u = c as u32;
    if 97 <= u && u <= 122 {
        ((u - 32) as u8) as char
    } else {
        c
    }
}

/// Compares two texts ignoring ASCII case.
pub(crate) fn matches_ci(s: &str, t: &str) -> (r: bool)
    ensures
        r == (upper_chars(s@) == upper_chars(t@)),
{
    let n = s.unicode_len();
    let m = t.unicode_len();
    if n != m {
        proof {
            assert(upper_chars(s@).len() != upper_chars(t@).len());
        }
        return false;
    }
    let mut i: usize = 0;
    while i < n
        invariant
            n == s@.len(),
            n == t@.len(),
            i <= n,
            forall|j: int| 0 <= j < i ==> upper_char(s@[j]) == upper_char(t@[j]),
        decreases n - i,
    {
        let a = to_upper(s.get_char(i));
        let b = to_upper(t.get_char(i));
        if a != b {
            proof {
                assert(upper_chars(s@)[i as int] != upper_chars(t@)[i as int]);
            }
            return false;
        }
        i += 1;
    }
    proof {
        assert(upper_chars(s@) =~= upper_chars(t@));
    }
    true
}

} // verus!
