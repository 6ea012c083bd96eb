use vstd::prelude::*;

verus! {

/// Appends one character to a string: `String::push`, which adds the character at the end.
#[verifier::external_body]
pub fn push_char(s: &mut String, c: char)
    ensures
        final(s)@ == old(s)@.push(c),
{
    s.push(c);
}

/// The characters of a string slice, in order.
pub fn chars_of(text: &str) -> (v: Vec<char>)
    ensures
        v@ == text@,
{
    let mut v: Vec<char> = Vec::new();
    for c in it: text.chars()
        invariant
            v@ == it.seq().take(it.index() as int),
    {
        v.push(c);
    }
    v
}

/// Appends the characters `cs[lo..hi]` to `s`.
pub fn push_chars(s: &mut String, cs: &Vec<char>, lo: usize, hi: usize)
    requires
        lo <= hi <= cs.len(),
    ensures
        final(s)@ == old(s)@ + cs@.subrange(lo as int, hi as int),
{
    let mut i = lo;
    while i < hi
        invariant
            lo <= i <= hi <= cs.len(),
            s@ == old(s)@ + cs@.subrange(lo as int, i as int),
        decreases hi - i,
    {
        push_char(s, cs[i]);
        i += 1;
        assert(cs@.subrange(lo as int, i as int) =~= cs@.subrange(lo as int, i - 1).push(cs@[i - 1]));
    }
}

/// A new string holding the characters `cs[lo..hi]`.
pub fn string_of(cs: &Vec<char>, lo: usize, hi: usize) -> (s: String)
    requires
        lo <= hi <= cs.len(),
    ensures
        s@ == cs@.subrange(lo as int, hi as int),
{
    let mut s = String::new();
    push_chars(&mut s, cs, lo, hi);
    assert(Seq::<char>::empty() + cs@.subrange(lo as int, hi as int) =~= cs@.subrange(lo as int, hi as int));
    s
}

} // verus!

verus! {

/// The upper case of an ASCII letter; any other character stays as it is.
pub open spec fn ascii_upper(c: char) -> char {
    if 'a' <= c <= 'z' {
        ((c as u32) - 32) as char
    } else {
        c
    }
}

/// The text with each ASCII letter in upper case; other characters are kept.
pub fn to_ascii_uppercase(text: &str) -> (r: String)
    ensures
        r@ == text@.map_values(|c: char| ascii_upper(c)),
{
    let cs = chars_of(text);
    let mut r = String::new();
    let mut i: usize = 0;
    while i < cs.len()
        invariant
            i <= cs.len(),
            cs@ == text@,
            r@ == cs@.take(i as int).map_values(|c: char| ascii_upper(c)),
        decreases cs.len() - i,
    {
        let c = cs[i];
        let u = if 'a' <= c && c <= 'z' {
            ((c as u8) - 32) as char
        } else {
            c
        };
        assert(u == ascii_upper(c));
        push_char(&mut r, u);
        assert(cs@.take(i + 1) =~= cs@.take(i as int).push(c));
        assert(r@ =~= cs@.take(i + 1).map_values(|c: char| ascii_upper(c)));
        i += 1;
    }
    assert(cs@.take(cs.len() as int) =~= cs@);
    r
}

/// Whether two string slices hold the same characters.
pub fn str_equals(a: &str, b: &str) -> (r: bool)
    ensures
        r == (a@ == b@),
{
    let x = chars_of(a);
    let y = chars_of(b);
    if x.len() != y.len() {
        return false;
    }
    let mut i: usize = 0;
    while i < x.len()
        invariant
            i <= x.len() == y.len(),
            x@ == a@,
            y@ == b@,
            forall|j: int| 0 <= j < i ==> x@[j] == y@[j],
        decreases x.len() - i,
    {
        if x[i] != y[i] {
            return false;
        }
        i += 1;
    }
    assert(x@ =~= y@);
    true
}

} // verus!

verus! {

/// Exchanges two elements of a vector: `slice::swap`, which swaps the elements at the two
/// positions and panics if either is out of bounds.
#[verifier::external_body]
pub fn swap_elements<T>(v: &mut Vec<T>, a: usize, b: usize)
    requires
        a < old(v)@.len(),
        b < old(v)@.len(),
    ensures
        final(v)@ == old(v)@.update(a as int, old(v)@[b as int]).update(b as int, old(v)@[a as int]),
{
    v.swap(a, b);
}

} // verus!
