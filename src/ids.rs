//! Canonical entity ids: 26 characters of Crockford's base 32, upper case,
//! the first one `0` to `7`; written bare or as a mention `<@id>`.

use vstd::prelude::*;

use crate::text::{chars_of, string_of};

verus! {

/// A character of Crockford's base 32: a digit, or an upper-case letter other
/// than `I`, `L`, `O` and `U`.
pub open spec fn is_id_char(c: char) -> bool {
    let u = c as u32;
    (48 <= u && u <= 57) || (65 <= u && u <= 90 && u != 73 && u != 76 && u != 79 && u != 85)
}

/// `s` is a canonical id.
pub open spec fn is_canonical_id(s: Seq<char>) -> bool {
    &&& s.len() == 26
    &&& 48 <= (s[0] as u32) && (s[0] as u32) <= 55
    &&& forall|i: int| 1 <= i < 26 ==> #[trigger] is_id_char(s[i])
}

/// The id that `s` names: `s` itself when it is a canonical id, the id inside
/// when it is a mention `<@id>`, and none otherwise.
pub open spec fn id_named_by(s: Seq<char>) -> Option<Seq<char>> {
    if is_canonical_id(s) {
        Some(s)
    } else if s.len() == 29 && s[0] == '<' && s[1] == '@' && s[28] == '>' && is_canonical_id(
        s.subrange(2, 28),
    ) {
        Some(s.subrange(2, 28))
    } else {
        None
    }
}

/// Whether `c` is a character of Crockford's base 32.
pub fn is_id_char_exec(c: char) -> (r: bool)
    ensures
        r == is_id_char(c),
{
    let u = c as u32;
    (48 <= u && u <= 57) || (65 <= u && u <= 90 && u != 73 && u != 76 && u != 79 && u != 85)
}

/// Whether `v[from..from + 26]` is a canonical id.
fn canonical_at(v: &Vec<char>, from: usize) -> (r: bool)
    requires
        from + 26 <= v@.len(),
    ensures
        r == is_canonical_id(v@.subrange(from as int, from + 26)),
{
    let first = v[from] as u32;
    if first < 48 || first > 55 {
        return false;
    }
    let n = v.len();
    let mut i: usize = 1;
    while i < 26
        invariant
            n == v@.len(),
            from + 26 <= v@.len(),
            1 <= i <= 26,
            forall|k: int| 1 <= k < i ==> #[trigger] is_id_char(v@[from + k]),
        decreases 26 - i,
    {
        if !is_id_char_exec(v[from + i]) {
            assert(v@.subrange(from as int, from + 26)[i as int] == v@[from + i]);
            return false;
        }
        i = i + 1;
    }
    assert forall|k: int| 1 <= k < 26 implies #[trigger] is_id_char(
        v@.subrange(from as int, from + 26)[k],
    ) by {
        assert(v@.subrange(from as int, from + 26)[k] == v@[from + k]);
    }
    true
}

/// The user id that a command argument names, bare or as a mention; `None`
/// for anything else, such as a user name.
pub fn resolve_user_id(haystack: &str) -> (r: Option<String>)
    ensures
        match r {
            Some(id) => id_named_by(haystack@) == Some(id@),
            None => id_named_by(haystack@) is None,
        },
{
    let v = chars_of(haystack);
    let n = v.len();
    if n == 26 {
        assert(v@.subrange(0, 26) =~= v@);
        if canonical_at(&v, 0) {
            return Some(string_of(&v, 0, 26));
        }
        return None;
    }
    if n == 29 && v[0] == '<' && v[1] == '@' && v[28] == '>' && canonical_at(&v, 2) {
        return Some(string_of(&v, 2, 28));
    }
    None
}

} // verus!
