//! Small string helpers: building strings a character at a time,
//! rendering numbers in decimal, and comparing string slices.

use vstd::prelude::*;
use vstd::string::*;

verus! {

/// Relies on String::push: appends exactly one character at the end.
#[verifier::external_body]
pub fn push_char(s: &mut String, c: char)
    ensures
        final(s)@ == old(s)@.push(c),
{
    s.push(c)
}

/// The character for a single decimal digit.
pub open spec fn digit_char(d: nat) -> char {
    ((48 + d) as u8) as char
}

/// The decimal representation of a natural number, most significant digit first.
pub open spec fn dec_rep(n: nat) -> Seq<char>
    decreases n,
{
    if n < 10 {
        seq![digit_char(n)]
    } else {
        dec_rep(n / 10).push(digit_char(n % 10))
    }
}

fn digit_to_char(d: u8) -> (c: char)
    requires
        d < 10,
    ensures
        c == digit_char(d as nat),
{
    (48 + d) as char
}

/// Renders a status code (or any 16-bit number) in decimal.
pub fn u16_to_string(n: u16) -> (s: String)
    ensures
        s@ == dec_rep(n as nat),
    decreases n,
{
    if n < 10 {
        let mut s = String::new();
        push_char(&mut s, digit_to_char(n as u8));
        s
    } else {
        let mut s = u16_to_string(n / 10);
        push_char(&mut s, digit_to_char((n % 10) as u8));
        s
    }
}

/// A sequence of items written out one after another with a comma between
/// neighbours (and no comma around the ends).
pub open spec fn spec_join<T>(s: Seq<T>, f: spec_fn(T) -> Seq<char>) -> Seq<char>
    decreases s.len(),
{
    if s.len() == 0 {
        Seq::empty()
    } else if s.len() == 1 {
        f(s[0])
    } else {
        f(s[0]) + seq![','] + spec_join(s.drop_first(), f)
    }
}

pub proof fn lemma_join_push<T>(s: Seq<T>, x: T, f: spec_fn(T) -> Seq<char>)
    ensures
        spec_join(s.push(x), f) == if s.len() == 0 {
            f(x)
        } else {
            spec_join(s, f) + seq![','] + f(x)
        },
    decreases s.len(),
{
    if s.len() == 0 {
        assert(s.push(x)[0] == x);
        assert(spec_join(s.push(x), f) == f(x));
    } else if s.len() == 1 {
        assert(s.push(x)[0] == s[0]);
        assert(s.push(x).drop_first() =~= seq![x]);
        assert(spec_join(seq![x], f) == f(x));
        assert(spec_join(s.push(x), f) == f(s[0]) + seq![','] + f(x));
        assert(spec_join(s, f) == f(s[0]));
    } else {
        lemma_join_push(s.drop_first(), x, f);
        assert(s.push(x)[0] == s[0]);
        assert(s.push(x).drop_first() =~= s.drop_first().push(x));
        assert(spec_join(s.push(x), f) == f(s[0]) + seq![','] + (spec_join(s.drop_first(), f)
            + seq![','] + f(x)));
        assert(f(s[0]) + seq![','] + (spec_join(s.drop_first(), f) + seq![','] + f(x)) =~= (f(
            s[0],
        ) + seq![','] + spec_join(s.drop_first(), f)) + seq![','] + f(x));
    }
}

/// Character-by-character equality of two string slices.
pub fn str_eq(a: &str, b: &str) -> (r: bool)
    ensures
        r == (a@ == b@),
{
    let alen = a.unicode_len();
    let blen = b.unicode_len();
    if alen != blen {
        assert(a@.len() != b@.len());
        return false;
    }
    let mut i: usize = 0;
    while i < alen
        invariant
            i <= alen,
            alen == a@.len(),
            alen == b@.len(),
            forall|j: int| 0 <= j < i ==> a@[j] == b@[j],
        decreases alen - i,
    {
        if a.get_char(i) != b.get_char(i) {
            return false;
        }
        i += 1;
    }
    assert(a@ =~= b@);
    true
}

} // verus!

