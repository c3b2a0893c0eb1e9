//! Rendering of numbers and small pieces of text as characters.
use vstd::prelude::*;

verus! {

/// The decimal digit character for `d` (`0 <= d < 10`).
pub open spec fn digit_char(d: int) -> char {
    (d + 48) as char
}

/// Decimal digits of a natural number, most significant first, no leading zeros.
pub open spec fn nat_text(n: nat) -> Seq<char>
    decreases n,
{
    if n < 10 {
        seq![digit_char(n as int)]
    } else {
        nat_text(n / 10).push(digit_char((n % 10) as int))
    }
}

/// Decimal text of an integer, with a leading `-` when it is negative (as `Display` prints it).
pub open spec fn int_text(n: int) -> Seq<char> {
    if n < 0 {
        seq!['-'] + nat_text((-n) as nat)
    } else {
        nat_text(n as nat)
    }
}

/// `Debug` text of an optional integer: `Some(n)` or `None`.
pub open spec fn option_text(o: Option<i64>) -> Seq<char> {
    match o {
        Some(n) => "Some("@ + int_text(n as int) + ")"@,
        None => "None"@,
    }
}

/// `count` copies of two spaces.
pub open spec fn indent_text(count: nat) -> Seq<char> {
    Seq::new(2 * count, |i: int| ' ')
}

/// Appends one character to a string: a wrapper of std's `String::push`,
/// which the std documentation describes as appending the given `char` to the end.
#[verifier::external_body]
pub(crate) fn push_char(s: &mut String, c: char)
    ensures
        final(s)@ == old(s)@.push(c),
{
    s.push(c);
}

fn digit(d: u64) -> (c: char)
    requires
        d < 10,
    ensures
        c == digit_char(d as int),
{
    let b: u8 = 48u8 + d as u8;
    b as char
}

/// Appends the decimal text of `n`.
pub fn push_nat(out: &mut String, n: u64)
    ensures
        final(out)@ == old(out)@ + nat_text(n as nat),
    decreases n,
{
    if n >= 10 {
        push_nat(out, n / 10);
    }
    push_char(out, digit(n % 10));
    assert(out@ =~= old(out)@ + nat_text(n as nat));
}

/// Appends the decimal text of `n`, as `Display` for `i64` writes it.
pub fn push_int(out: &mut String, n: i64)
    ensures
        final(out)@ == old(out)@ + int_text(n as int),
{
    if n < 0 {
        push_char(out, '-');
        let magnitude: u64 = if n == i64::MIN {
            9223372036854775808u64
        } else {
            (-n) as u64
        };
        push_nat(out, magnitude);
        assert(out@ =~= old(out)@ + int_text(n as int));
    } else {
        push_nat(out, n as u64);
    }
}

/// Appends the decimal text of `n`, as `Display` for `usize` writes it.
pub fn push_usize(out: &mut String, n: usize)
    ensures
        final(out)@ == old(out)@ + nat_text(n as nat),
{
    push_nat(out, n as u64);
}

/// Appends the `Debug` text of an optional integer.
pub fn push_option(out: &mut String, o: Option<i64>)
    ensures
        final(out)@ == old(out)@ + option_text(o),
{
    match o {
        Some(n) => {
            out.append("Some(");
            push_int(out, n);
            out.append(")");
            assert(out@ =~= old(out)@ + option_text(o));
        },
        None => {
            out.append("None");
        },
    }
}

/// Appends `count` copies of two spaces.
pub fn push_indent(out: &mut String, count: usize)
    ensures
        final(out)@ == old(out)@ + indent_text(count as nat),
{
    let mut i: usize = 0;
    while i < count
        invariant
            i <= count,
            out@ == old(out)@ + indent_text(i as nat),
        decreases count - i,
    {
        push_char(out, ' ');
        push_char(out, ' ');
        i = i + 1;
        assert(out@ =~= old(out)@ + indent_text(i as nat));
    }
}

/// The decimal text of an integer as a new string.
pub fn int_string(n: i64) -> (s: String)
    ensures
        s@ == int_text(n as int),
{
    let mut s = String::new();
    push_int(&mut s, n);
    assert(s@ =~= int_text(n as int));
    s
}


/// The characters of `s`, in order.
pub fn chars_of(s: &str) -> (v: Vec<char>)
    ensures
        v@ == s@,
{
    broadcast use vstd::string::axiom_spec_iter;

    let mut v: Vec<char> = Vec::new();
    for c in it: s.chars()
        invariant
            it.seq() == s@,
            v@ == it.seq().take(it.index()),
    {
        v.push(c);
        assert(v@ =~= it.seq().take(it.index() + 1));
    }
    assert(v@ =~= s@);
    v
}


/// Concatenation of sequences is associative.
pub proof fn lemma_assoc<A>(a: Seq<A>, b: Seq<A>, c: Seq<A>)
    ensures
        (a + b) + c == a + (b + c),
{
    assert((a + b) + c =~= a + (b + c));
}

/// The empty sequence is neutral on the left of a concatenation.
pub proof fn lemma_empty_left<A>(a: Seq<A>)
    ensures
        Seq::<A>::empty() + a == a,
{
    assert(Seq::<A>::empty() + a =~= a);
}

}
