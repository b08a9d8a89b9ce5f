//! Decimal rendering of integers, used when composing query-parameter
//! values and display strings.
use vstd::prelude::*;

verus! {

/// The character for a single decimal digit.
pub open spec fn digit_char(d: nat) -> char {
    if d == 0 {
        '0'
    } else if d == 1 {
        '1'
    } else if d == 2 {
        '2'
    } else if d == 3 {
        '3'
    } else if d == 4 {
        '4'
    } else if d == 5 {
        '5'
    } else if d == 6 {
        '6'
    } else if d == 7 {
        '7'
    } else if d == 8 {
        '8'
    } else {
        '9'
    }
}

/// The decimal representation of a natural number, most significant digit
/// first, with no leading zeros (except for the number 0 itself).
pub open spec fn dec_rep(n: nat) -> Seq<char>
    decreases n,
{
    if n < 10 {
        seq![digit_char(n)]
    } else {
        dec_rep(n / 10) + seq![digit_char(n % 10)]
    }
}

/// The decimal representation of an integer: a minus sign followed by the
/// digits for negative numbers, the digits alone otherwise.
pub open spec fn int_dec_rep(n: int) -> Seq<char> {
    if n < 0 {
        seq!['-'] + dec_rep((-n) as nat)
    } else {
        dec_rep(n as nat)
    }
}

/// The digit characters for a sequence of digits collected least
/// significant first, read back most significant first.
spec fn rev_digit_chars(ds: Seq<u8>) -> Seq<char>
    decreases ds.len(),
{
    if ds.len() == 0 {
        Seq::<char>::empty()
    } else {
        seq![digit_char(ds.last() as nat)] + rev_digit_chars(ds.drop_last())
    }
}

/// A one-character string slice for a decimal digit.
fn digit_str(d: u8) -> (s: &'static str)
    requires
        d < 10,
    ensures
        s@ == seq![digit_char(d as nat)],
{
    proof {
        reveal_strlit("0");
        reveal_strlit("1");
        reveal_strlit("2");
        reveal_strlit("3");
        reveal_strlit("4");
        reveal_strlit("5");
        reveal_strlit("6");
        reveal_strlit("7");
        reveal_strlit("8");
        reveal_strlit("9");
    }
    match d {
        0 => "0",
        1 => "1",
        2 => "2",
        3 => "3",
        4 => "4",
        5 => "5",
        6 => "6",
        7 => "7",
        8 => "8",
        _ => "9",
    }
}

proof fn lemma_rev_digit_chars_step(ds: Seq<u8>, i: int)
    requires
        0 < i <= ds.len(),
    ensures
        rev_digit_chars(ds.subrange(0, i)) == seq![digit_char(ds[i - 1] as nat)]
            + rev_digit_chars(ds.subrange(0, i - 1)),
{
    let pre = ds.subrange(0, i);
    assert(pre.last() == ds[i - 1]);
    assert(pre.drop_last() =~= ds.subrange(0, i - 1));
}

/// Renders a `u64` in decimal.
pub fn u64_to_string(n: u64) -> (s: String)
    ensures
        s@ == dec_rep(n as nat),
{
    let mut ds: Vec<u8> = Vec::new();
    let mut m: u64 = n;
    proof {
        assert(rev_digit_chars(Seq::<u8>::empty()) == Seq::<char>::empty());
        assert(dec_rep(n as nat) =~= dec_rep(n as nat) + rev_digit_chars(Seq::<u8>::empty()));
    }
    loop
        invariant
            forall|k: int| 0 <= k < ds@.len() ==> ds@[k] < 10,
            m > 0 ==> dec_rep(n as nat) == dec_rep(m as nat) + rev_digit_chars(ds@),
            m == 0 && ds@.len() > 0 ==> dec_rep(n as nat) == rev_digit_chars(ds@),
            m == 0 && ds@.len() == 0 ==> n == 0,
        ensures
            m == 0,
            ds@.len() > 0,
            forall|k: int| 0 <= k < ds@.len() ==> ds@[k] < 10,
            dec_rep(n as nat) == rev_digit_chars(ds@),
        decreases m, (if ds@.len() == 0 { 1int } else { 0int }),
    {
        if m == 0 && ds.len() > 0 {
            break;
        }
        let ghost m0 = m as nat;
        let ghost ds0 = ds@;
        proof {
            if m0 == 0 {
                assert(n == 0);
                assert(dec_rep(m0) =~= seq![digit_char(0)]);
                assert(dec_rep(n as nat) =~= dec_rep(m0) + rev_digit_chars(ds0));
            }
        }
        let d: u8 = (m % 10) as u8;
        ds.push(d);
        m = m / 10;
        proof {
            assert(ds@.last() == d);
            assert(ds@.drop_last() =~= ds0);
            assert(rev_digit_chars(ds@) == seq![digit_char(d as nat)] + rev_digit_chars(ds0));
            assert(dec_rep(n as nat) == dec_rep(m0) + rev_digit_chars(ds0));
            if m0 < 10 {
                assert(d as nat == m0) by {
                    assert(m0 % 10 == m0);
                }
                assert(dec_rep(m0) == seq![digit_char(d as nat)]);
                assert(dec_rep(n as nat) =~= rev_digit_chars(ds@));
            } else {
                assert(dec_rep(m0) == dec_rep(m0 / 10) + seq![digit_char(m0 % 10)]);
                assert(dec_rep(n as nat) =~= dec_rep(m as nat) + rev_digit_chars(ds@));
            }
        }
    }
    let mut s = String::new();
    let mut i: usize = ds.len();
    proof {
        assert(ds@.subrange(0, ds@.len() as int) =~= ds@);
        assert(s@ + rev_digit_chars(ds@.subrange(0, ds@.len() as int)) =~= rev_digit_chars(ds@));
    }
    while i > 0
        invariant
            i <= ds@.len(),
            forall|k: int| 0 <= k < ds@.len() ==> ds@[k] < 10,
            dec_rep(n as nat) == rev_digit_chars(ds@),
            s@ + rev_digit_chars(ds@.subrange(0, i as int)) == dec_rep(n as nat),
        decreases i,
    {
        let d = ds[i - 1];
        let piece = digit_str(d);
        let ghost s0 = s@;
        s.append(piece);
        proof {
            lemma_rev_digit_chars_step(ds@, i as int);
            assert(s@ + rev_digit_chars(ds@.subrange(0, i as int - 1)) =~= s0 + rev_digit_chars(
                ds@.subrange(0, i as int),
            ));
        }
        i = i - 1;
    }
    proof {
        assert(ds@.subrange(0, 0) =~= Seq::<u8>::empty());
        assert(rev_digit_chars(Seq::<u8>::empty()) == Seq::<char>::empty());
        assert(s@ =~= dec_rep(n as nat));
    }
    s
}

/// Renders an `i64` in decimal, with a leading minus sign when negative.
pub fn i64_to_string(n: i64) -> (s: String)
    ensures
        s@ == int_dec_rep(n as int),
{
    if n >= 0 {
        u64_to_string(n as u64)
    } else {
        let mag: u64 = ((-(n as i128)) as u64);
        let digits = u64_to_string(mag);
        let mut s = String::new();
        proof {
            reveal_strlit("-");
        }
        s.append("-");
        s.append(digits.as_str());
        proof {
            assert(s@ =~= seq!['-'] + dec_rep(mag as nat));
        }
        s
    }
}

/// Renders an `i32` in decimal, with a leading minus sign when negative.
pub fn i32_to_string(n: i32) -> (s: String)
    ensures
        s@ == int_dec_rep(n as int),
{
    i64_to_string(n as i64)
}

/// Renders a `u16` in decimal.
pub fn u16_to_string(n: u16) -> (s: String)
    ensures
        s@ == dec_rep(n as nat),
{
    u64_to_string(n as u64)
}

} // verus!
