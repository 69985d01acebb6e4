//! Text helpers shared by the command parsers: whitespace, word splitting,
//! joining and decimal rendering.

use vstd::prelude::*;
use vstd::string::StrSliceExecFns;

verus! {

/// The characters that carry Unicode's `White_Space` property.
pub open spec fn is_space(c: char) -> bool {
    let u = c as u32;
    (0x09 <= u && u <= 0x0d) || u == 0x20 || u == 0x85 || u == 0xa0 || u == 0x1680 || (0x2000
        <= u && u <= 0x200a) || u == 0x2028 || u == 0x2029 || u == 0x202f || u == 0x205f || u
        == 0x3000
}

/// Whether `c` is whitespace, as `char::is_whitespace` decides it.
pub fn is_space_char(c: char) -> (r: bool)
    ensures
        r == is_space(c),
{
    let u = c as u32;
    (0x09 <= u && u <= 0x0d) || u == 0x20 || u == 0x85 || u == 0xa0 || u == 0x1680 || (0x2000
        <= u && u <= 0x200a) || u == 0x2028 || u == 0x2029 || u == 0x202f || u == 0x205f || u
        == 0x3000
}


/// Relies on `String::push`: appends one character.
#[verifier::external_body]
pub(crate) fn push_char(s: &mut String, c: char)
    ensures
        final(s)@ == old(s)@.push(c),
{
    s.push(c);
}

/// The characters of `s`, one per element.
pub fn chars_of(s: &str) -> (r: Vec<char>)
    ensures
        r@ == s@,
{
    let n = s.unicode_len();
    let mut r: Vec<char> = Vec::new();
    let mut i: usize = 0;
    while i < n
        invariant
            n == s@.len(),
            i <= n,
            r@ == s@.take(i as int),
        decreases n - i,
    {
        r.push(s.get_char(i));
        i = i + 1;
        assert(r@ =~= s@.take(i as int));
    }
    assert(r@ =~= s@);
    r
}

/// A `String` holding the characters `v[from..to]`.
pub fn string_of(v: &Vec<char>, from: usize, to: usize) -> (r: String)
    requires
        from <= to <= v@.len(),
    ensures
        r@ == v@.subrange(from as int, to as int),
{
    let mut r = String::new();
    let mut i: usize = from;
    while i < to
        invariant
            from <= i <= to <= v@.len(),
            r@ == v@.subrange(from as int, i as int),
        decreases to - i,
    {
        push_char(&mut r, v[i]);
        i = i + 1;
        assert(r@ =~= v@.subrange(from as int, i as int));
    }
    r
}

/// Appends `t` to `s`.
pub fn append(s: &mut String, t: &str)
    ensures
        final(s)@ == old(s)@ + t@,
{
    let v = chars_of(t);
    let ghost s0 = s@;
    let mut i: usize = 0;
    while i < v.len()
        invariant
            v@ == t@,
            i <= v@.len(),
            s@ == s0 + t@.take(i as int),
        decreases v@.len() - i,
    {
        push_char(s, v[i]);
        i = i + 1;
        assert(s@ =~= s0 + t@.take(i as int));
    }
    assert(t@.take(v@.len() as int) =~= t@);
}

/// The word being gathered in `cur` ends here: it becomes one word unless it is empty.
pub open spec fn flush(cur: Seq<char>) -> Seq<Seq<char>> {
    if cur.len() > 0 {
        seq![cur]
    } else {
        Seq::empty()
    }
}

/// The maximal runs of non-whitespace characters of `s`, after the word `cur`
/// that has been gathered so far.
pub open spec fn words_after(s: Seq<char>, cur: Seq<char>) -> Seq<Seq<char>>
    decreases s.len(),
{
    if s.len() == 0 {
        flush(cur)
    } else if is_space(s[0]) {
        flush(cur) + words_after(s.drop_first(), Seq::empty())
    } else {
        words_after(s.drop_first(), cur.push(s[0]))
    }
}

/// The whitespace-separated words of `s`, in order (what `str::split_whitespace` yields).
pub open spec fn words(s: Seq<char>) -> Seq<Seq<char>> {
    words_after(s, Seq::empty())
}

/// The views of a sequence of strings.
pub open spec fn views(v: Seq<String>) -> Seq<Seq<char>> {
    v.map_values(|w: String| w@)
}

/// Splits `s` into its whitespace-separated words.
pub fn split_words(s: &str) -> (r: Vec<String>)
    ensures
        views(r@) == words(s@),
{
    let v = chars_of(s);
    let n = v.len();
    let mut out: Vec<String> = Vec::new();
    let mut start: usize = 0;
    let mut i: usize = 0;
    assert(views(out@) =~= Seq::<Seq<char>>::empty());
    assert(v@.skip(0) =~= v@);
    assert(v@.subrange(0, 0) =~= Seq::<char>::empty());
    while i < n
        invariant
            n == v@.len(),
            v@ == s@,
            start <= i <= n,
            words(s@) == views(out@) + words_after(v@.skip(i as int), v@.subrange(
                start as int,
                i as int,
            )),
        decreases n - i,
    {
        let ghost rest = v@.skip(i as int);
        let ghost cur = v@.subrange(start as int, i as int);
        let ghost before = views(out@);
        assert(rest.drop_first() =~= v@.skip(i + 1));
        assert(rest[0] == v@[i as int]);
        if is_space_char(v[i]) {
            if start < i {
                let w = string_of(&v, start, i);
                out.push(w);
                assert(views(out@) =~= before + seq![cur]);
            }
            assert(views(out@) =~= before + flush(cur));
            i = i + 1;
            start = i;
            assert(v@.subrange(start as int, i as int) =~= Seq::<char>::empty());
            assert(words(s@) =~= views(out@) + words_after(v@.skip(i as int), Seq::empty()));
        } else {
            i = i + 1;
            assert(cur.push(rest[0]) =~= v@.subrange(start as int, i as int));
        }
    }
    let ghost cur = v@.subrange(start as int, n as int);
    let ghost before = views(out@);
    assert(v@.skip(n as int) =~= Seq::<char>::empty());
    if start < n {
        let w = string_of(&v, start, n);
        out.push(w);
        assert(views(out@) =~= before + seq![cur]);
    } else {
        assert(views(out@) =~= before + flush(cur));
    }
    out
}

/// The words of `ws`, with `sep` between each two.
pub open spec fn join(ws: Seq<Seq<char>>, sep: Seq<char>) -> Seq<char>
    decreases ws.len(),
{
    if ws.len() == 0 {
        Seq::empty()
    } else if ws.len() == 1 {
        ws[0]
    } else {
        join(ws.drop_last(), sep) + sep + ws.last()
    }
}

/// Joins `ws[from..]` with `sep` between each two.
pub fn join_from(ws: &Vec<String>, from: usize, sep: &str) -> (r: String)
    requires
        from <= ws@.len(),
    ensures
        r@ == join(views(ws@).skip(from as int), sep@),
{
    let mut r = String::new();
    if from >= ws.len() {
        assert(views(ws@).skip(from as int) =~= Seq::<Seq<char>>::empty());
        return r;
    }
    append(&mut r, ws[from].as_str());
    let mut i: usize = from + 1;
    assert(views(ws@).subrange(from as int, i as int) =~= seq![ws@[from as int]@]);
    while i < ws.len()
        invariant
            from < i <= ws@.len(),
            r@ == join(views(ws@).subrange(from as int, i as int), sep@),
        decreases ws@.len() - i,
    {
        let ghost prev = views(ws@).subrange(from as int, i as int);
        append(&mut r, sep);
        append(&mut r, ws[i].as_str());
        i = i + 1;
        let ghost next = views(ws@).subrange(from as int, i as int);
        assert(next.drop_last() =~= prev);
        assert(next.last() == ws@[i - 1]@);
    }
    assert(views(ws@).subrange(from as int, ws@.len() as int) =~= views(ws@).skip(from as int));
    r
}

/// The decimal digit `d`.
pub open spec fn digit(d: nat) -> char {
    ((d + 48) as u8) as char
}

/// The decimal rendering of `n`, without leading zeros.
pub open spec fn decimal(n: nat) -> Seq<char>
    decreases n,
{
    if n < 10 {
        seq![digit(n)]
    } else {
        decimal(n / 10).push(digit(n % 10))
    }
}

/// Appends the decimal rendering of `n` to `s`.
pub fn push_decimal(s: &mut String, n: u64)
    ensures
        final(s)@ == old(s)@ + decimal(n as nat),
    decreases n,
{
    if n >= 10 {
        push_decimal(s, n / 10);
    }
    let d: u8 = (n % 10) as u8;
    push_char(s, (d + 48) as char);
}

/// Whether `t` begins with `p`.
pub fn starts_with(t: &Vec<char>, p: &str) -> (r: bool)
    ensures
        r == p@.is_prefix_of(t@),
{
    let pv = chars_of(p);
    if pv.len() > t.len() {
        return false;
    }
    let mut i: usize = 0;
    while i < pv.len()
        invariant
            pv@ == p@,
            pv@.len() <= t@.len(),
            i <= pv@.len(),
            forall|k: int| 0 <= k < i ==> pv@[k] == t@[k],
        decreases pv@.len() - i,
    {
        if pv[i] != t[i] {
            return false;
        }
        i = i + 1;
    }
    assert(t@.take(pv@.len() as int) =~= pv@);
    true
}

/// Whether `a` and `b` hold the same characters.
pub fn same_text(a: &str, b: &str) -> (r: bool)
    ensures
        r == (a@ == b@),
{
    a.to_owned() == b.to_owned()
}

} // verus!
