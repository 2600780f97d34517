use vstd::prelude::*;
use vstd::string::StringExecFns;

verus! {

/// Relies on str's PartialEq::eq: two string slices compare equal exactly
/// when they hold the same characters.
#[verifier::external_body]
pub fn str_eq(a: &str, b: &str) -> (r: bool)
    ensures
        r == (a@ == b@),
{
    a == b
}

/// Relies on String::push: appends the given character to the end of the
/// string.
#[verifier::external_body]
pub fn push_char(s: &mut String, c: char)
    ensures
        final(s)@ == old(s)@.push(c),
{
    s.push(c);
}

/// The character for one decimal digit.
pub open spec fn dec_digit(d: int) -> char {
    if d == 0 {
        '0'
    } else if d == 1 {
        '1'
    } else if d == 2 {
        '2'
    } else if d == 3 {
        '3'
    } else if d == 4 {
        '4'
    } else if d == 5 {
        '5'
    } else if d == 6 {
        '6'
    } else if d == 7 {
        '7'
    } else if d == 8 {
        '8'
    } else {
        '9'
    }
}

/// The decimal writing of a non-negative number, without sign or leading
/// zeros (a single '0' for zero).
pub open spec fn dec_str(n: nat) -> Seq<char>
    decreases n,
{
    if n < 10 {
        seq![dec_digit(n as int)]
    } else {
        dec_str(n / 10).push(dec_digit((n % 10) as int))
    }
}

/// The decimal writing of an integer: a leading '-' for a negative one.
pub open spec fn dec_int_str(i: int) -> Seq<char> {
    if i < 0 {
        seq!['-'] + dec_str((-i) as nat)
    } else {
        dec_str(i as nat)
    }
}

fn dec_digit_exec(d: u64) -> (c: char)
    requires
        d < 10,
    ensures
        c == dec_digit(d as int),
{
    match d {
        0 => '0',
        1 => '1',
        2 => '2',
        3 => '3',
        4 => '4',
        5 => '5',
        6 => '6',
        7 => '7',
        8 => '8',
        _ => '9',
    }
}

/// The decimal writing of `n`.
pub fn u64_to_string(n: u64) -> (r: String)
    ensures
        r@ == dec_str(n as nat),
{
    let mut digits: Vec<char> = Vec::new();
    let mut m: u64 = n;
    let c0 = dec_digit_exec(m % 10);
    digits.push(c0);
    m = m / 10;
    proof {
        if n < 10 {
            assert(digits@.reverse() =~= dec_str(n as nat));
        } else {
            assert(dec_str(n as nat) =~= dec_str(n as nat / 10) + digits@.reverse());
        }
    }
    while m > 0
        invariant
            m > 0 ==> dec_str(n as nat) =~= dec_str(m as nat) + digits@.reverse(),
            m == 0 ==> dec_str(n as nat) =~= digits@.reverse(),
            digits@.len() > 0,
        decreases m,
    {
        let c = dec_digit_exec(m % 10);
        proof {
            let d = digits@;
            assert(d.push(dec_digit((m % 10) as int)).reverse() =~= seq![
                dec_digit((m % 10) as int),
            ] + d.reverse());
            if m < 10 {
                assert(dec_str(m as nat) =~= seq![dec_digit(m as int)]);
            } else {
                assert(dec_str(m as nat) =~= dec_str(m as nat / 10) + seq![
                    dec_digit((m % 10) as int),
                ]);
            }
        }
        digits.push(c);
        m = m / 10;
        proof {
            assert(dec_str(n as nat) =~= if m > 0 {
                dec_str(m as nat) + digits@.reverse()
            } else {
                digits@.reverse()
            });
        }
    }
    let mut r = String::new();
    let mut i: usize = digits.len();
    while i > 0
        invariant
            i <= digits.len(),
            r@ == digits@.skip(i as int).reverse(),
        decreases i,
    {
        i = i - 1;
        proof {
            assert(digits@.skip(i as int).reverse() =~= digits@.skip(i as int + 1).reverse().push(
                digits@[i as int],
            ));
        }
        push_char(&mut r, digits[i]);
    }
    proof {
        assert(digits@.skip(0) =~= digits@);
    }
    r
}

/// The decimal writing of `i`, with a '-' sign where it is negative.
pub fn i64_to_string(i: i64) -> (r: String)
    ensures
        r@ == dec_int_str(i as int),
{
    if i >= 0 {
        u64_to_string(i as u64)
    } else {
        let mag: u64 = ((-(i + 1)) as u64) + 1;
        let mut r = "-".to_owned();
        let tail = u64_to_string(mag);
        r.append(tail.as_str());
        proof {
            reveal_strlit("-");
            assert(r@ =~= seq!['-'] + dec_str((-(i as int)) as nat));
        }
        r
    }
}

} // verus!
