//! Small verified string building blocks: decimal rendering of page numbers,
//! joining tag lists, and ASCII case-insensitive comparison of source names.

use vstd::prelude::*;
use vstd::string::*;

verus! {

/// The character of one decimal digit.
pub open spec fn dec_digit(d: int) -> char
    recommends
        0 <= d < 10,
{
    ((48 + d) as u8) as char
}

/// The decimal representation of a number, most significant digit first.
pub open spec fn dec_rep(n: nat) -> Seq<char>
    decreases n,
{
    if n < 10 {
        seq![dec_digit(n as int)]
    } else {
        dec_rep(n / 10).push(dec_digit((n % 10) as int))
    }
}

/// Relies on String::push: appends the one character to the end.
#[verifier::external_body]
fn push_char(s: &mut String, c: char)
    ensures
        final(s)@ == old(s)@.push(c),
{
    s.push(c);
}

/// Renders a number in decimal, most significant digit first.
pub fn u64_to_string(n: u64) -> (r: String)
    ensures
        r@ == dec_rep(n as nat),
    decreases n,
{
    let d: u8 = 48 + (n % 10) as u8;
    let c: char = d as char;
    if n < 10 {
        let mut s = String::new();
        push_char(&mut s, c);
        assert(s@ =~= seq![dec_digit(n as int)]);
        s
    } else {
        let mut s = u64_to_string(n / 10);
        push_char(&mut s, c);
        s
    }
}

/// The tag terms joined with `'+'` between neighbours.
pub open spec fn join_plus_spec(ts: Seq<Seq<char>>) -> Seq<char>
    decreases ts.len(),
{
    if ts.len() == 0 {
        Seq::empty()
    } else if ts.len() == 1 {
        ts[0]
    } else {
        join_plus_spec(ts.drop_last()) + seq!['+'] + ts.last()
    }
}

/// Joins the strings with `'+'` between neighbours, the query form that a
/// tag-indexed listing endpoint expects.
pub fn join_plus(ts: &Vec<String>) -> (r: String)
    ensures
        r@ == join_plus_spec(ts@.map_values(|t: String| t@)),
{
    let ghost v: Seq<Seq<char>> = ts@.map_values(|t: String| t@);
    let mut s = String::new();
    let mut i: usize = 0;
    while i < ts.len()
        invariant
            i <= ts@.len(),
            v == ts@.map_values(|t: String| t@),
            s@ == join_plus_spec(v.take(i as int)),
        decreases ts@.len() - i,
    {
        if i > 0 {
            s.append("+");
            proof {
                reveal_strlit("+");
            }
        }
        s.append(ts[i].as_str());
        proof {
            assert(v.take(i + 1).drop_last() =~= v.take(i as int));
            assert(v.take(i + 1).last() == v[i as int]);
            assert(s@ =~= join_plus_spec(v.take(i + 1)));
        }
        i += 1;
    }
    proof {
        assert(v.take(ts@.len() as int) =~= v);
    }
    s
}

/// The character with any ASCII upper-case letter folded to lower case.
pub open spec fn lower_char(c: char) -> char {
    if 65 <= c as u32 && c as u32 <= 90 {
        ((c as u32 + 32) as u8) as char
    } else {
        c
    }
}

/// Equality of two character sequences up to ASCII case.
pub open spec fn eq_ignore_case(a: Seq<char>, b: Seq<char>) -> bool {
    a.len() == b.len() && (forall|i: int| 0 <= i < a.len() ==> lower_char(a[i]) == lower_char(b[i]))
}

/// Folds one ASCII upper-case letter to lower case.
fn lower_char_exec(c: char) -> (r: char)
    ensures
        r == lower_char(c),
{
    let u = c as u32;
    if 65 <= u && u <= 90 {
        ((u + 32) as u8) as char
    } else {
        c
    }
}

/// Compares two strings for equality up to ASCII case, the form in which
/// requested source names are matched against collector identifiers.
pub fn str_eq_ignore_case(a: &str, b: &str) -> (r: bool)
    ensures
        r == eq_ignore_case(a@, b@),
{
    let alen = a.unicode_len();
    let blen = b.unicode_len();
    if alen != blen {
        return false;
    }
    let mut i: usize = 0;
    while i < alen
        invariant
            alen == a@.len(),
            blen == b@.len(),
            alen == blen,
            i <= alen,
            forall|j: int| 0 <= j < i ==> lower_char(a@[j]) == lower_char(b@[j]),
        decreases alen - i,
    {
        let ca = a.get_char(i);
        let cb = b.get_char(i);
        if lower_char_exec(ca) != lower_char_exec(cb) {
            assert(!eq_ignore_case(a@, b@));
            return false;
        }
        i += 1;
    }
    true
}

} // verus!
