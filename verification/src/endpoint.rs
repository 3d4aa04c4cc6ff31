//! Structural validity of an endpoint string.
//!
//! An endpoint is a URI: a scheme, a colon, and whatever the scheme asks
//! for after it. Nothing here looks beyond the scheme, and nothing is
//! resolved or contacted.

use vstd::prelude::*;
use vstd::std_specs::iter::IteratorSpec;

verus! {

/// A letter of the Latin alphabet, the only kind of character that may
/// begin a scheme.
pub open spec fn is_scheme_start(c: char) -> bool {
    ('a' <= c && c <= 'z') || ('A' <= c && c <= 'Z')
}

/// A character that may follow the first one in a scheme.
pub open spec fn is_scheme_char(c: char) -> bool {
    is_scheme_start(c) || ('0' <= c && c <= '9') || c == '+' || c == '-' || c == '.'
}

/// The characters before position `colon` are a scheme, and a colon stands
/// at that position.
pub open spec fn scheme_ends_at(s: Seq<char>, colon: int) -> bool {
    &&& 0 < colon < s.len()
    &&& s[colon] == ':'
    &&& is_scheme_start(s[0])
    &&& forall|j: int| 0 < j < colon ==> is_scheme_char(#[trigger] s[j])
}

/// The string begins with a scheme and a colon.
pub open spec fn well_formed_endpoint(s: Seq<char>) -> bool {
    exists|colon: int| scheme_ends_at(s, colon)
}

fn scheme_start(c: char) -> (r: bool)
    ensures
        r == is_scheme_start(c),
{
    ('a' <= c && c <= 'z') || ('A' <= c && c <= 'Z')
}

fn scheme_char(c: char) -> (r: bool)
    ensures
        r == is_scheme_char(c),
{
    scheme_start(c) || ('0' <= c && c <= '9') || c == '+' || c == '-' || c == '.'
}

/// Tells whether the string begins with a scheme and a colon.
pub fn is_well_formed_endpoint(s: &str) -> (ok: bool)
    ensures
        ok == well_formed_endpoint(s@),
{
    broadcast use vstd::string::group_string_axioms;

    let mut chars = s.chars();
    match chars.next() {
        None => {
            return false;
        },
        Some(c) => {
            if !scheme_start(c) {
                return false;
            }
        },
    }
    let ghost mut seen: int = 1;
    loop
        invariant
            0 < seen <= s@.len(),
            chars.remaining() == s@.subrange(seen, s@.len() as int),
            is_scheme_start(s@[0]),
            forall|j: int| 0 < j < seen ==> is_scheme_char(#[trigger] s@[j]),
        decreases s@.len() - seen,
    {
        match chars.next() {
            None => {
                assert forall|colon: int| !scheme_ends_at(s@, colon) by {
                    if 0 < colon < s@.len() {
                        assert(is_scheme_char(s@[colon]));
                    }
                }
                return false;
            },
            Some(c) => {
                assert(c == s@[seen]);
                if c == ':' {
                    assert(scheme_ends_at(s@, seen));
                    return true;
                }
                if !scheme_char(c) {
                    assert forall|colon: int| !scheme_ends_at(s@, colon) by {
                        if 0 < colon < seen {
                            assert(is_scheme_char(s@[colon]));
                        }
                    }
                    return false;
                }
                proof {
                    assert(chars.remaining() =~= s@.subrange(seen + 1, s@.len() as int));
                    seen = seen + 1;
                }
            },
        }
    }
}

} // verus!
