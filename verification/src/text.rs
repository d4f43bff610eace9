//! Text utilities: string equality, and a verified decimal rendering of
//! integers used for protocol error codes.

use vstd::prelude::*;
use vstd::string::StringExecFns;

verus! {

/// Relies on `str`'s `PartialEq`: two slices are equal exactly when their
/// character sequences are equal.
#[verifier::external_body]
pub fn str_eq(a: &str, b: &str) -> (r: bool)
    ensures
        r == (a@ == b@),
{
    a == b
}

/// The character for one decimal digit.
pub open spec fn digit_char(d: nat) -> char {
    if d == 0 {
        '0'
    } else if d == 1 {
        '1'
    } else if d == 2 {
        '2'
    } else if d == 3 {
        '3'
    } else if d == 4 {
        '4'
    } else if d == 5 {
        '5'
    } else if d == 6 {
        '6'
    } else if d == 7 {
        '7'
    } else if d == 8 {
        '8'
    } else {
        '9'
    }
}

/// The decimal digits of a natural number, most significant first.
pub open spec fn dec_digits(n: nat) -> Seq<char>
    decreases n,
{
    if n < 10 {
        seq![digit_char(n)]
    } else {
        dec_digits(n / 10) + seq![digit_char(n % 10)]
    }
}

/// The decimal rendering of an integer: a minus sign for a negative one,
/// then its digits.
pub open spec fn dec_int(n: int) -> Seq<char> {
    if n < 0 {
        seq!['-'] + dec_digits((-n) as nat)
    } else {
        dec_digits(n as nat)
    }
}

/// The characters of a digit sequence read back to front.
pub open spec fn digits_reversed(ds: Seq<u8>) -> Seq<char> {
    Seq::new(ds.len(), |i: int| digit_char(ds[ds.len() - 1 - i] as nat))
}

fn digit_str(d: u8) -> (r: &'static str)
    requires
        d < 10,
    ensures
        r@ == seq![digit_char(d as nat)],
{
    proof {
        reveal_strlit("0");
        reveal_strlit("1");
        reveal_strlit("2");
        reveal_strlit("3");
        reveal_strlit("4");
        reveal_strlit("5");
        reveal_strlit("6");
        reveal_strlit("7");
        reveal_strlit("8");
        reveal_strlit("9");
    }
    if d == 0 {
        "0"
    } else if d == 1 {
        "1"
    } else if d == 2 {
        "2"
    } else if d == 3 {
        "3"
    } else if d == 4 {
        "4"
    } else if d == 5 {
        "5"
    } else if d == 6 {
        "6"
    } else if d == 7 {
        "7"
    } else if d == 8 {
        "8"
    } else {
        "9"
    }
}

/// The decimal rendering of a 64-bit integer.
pub fn i64_to_string(n: i64) -> (r: String)
    ensures
        r@ == dec_int(n as int),
{
    let neg = n < 0;
    let mut cur: u64 = if neg {
        (-(n as i128)) as u64
    } else {
        n as u64
    };
    let ghost m: nat = cur as nat;
    let mut digits: Vec<u8> = Vec::new();
    while cur >= 10
        invariant
            dec_digits(m) =~= dec_digits(cur as nat) + digits_reversed(digits@),
            forall|k: int| 0 <= k < digits@.len() ==> digits@[k] < 10,
        decreases cur,
    {
        let d: u8 = (cur % 10) as u8;
        let next = cur / 10;
        proof {
            assert(dec_digits(cur as nat) == dec_digits(next as nat) + seq![
                digit_char((cur % 10) as nat),
            ]);
            assert(digits_reversed(digits@.push(d)) =~= seq![digit_char(d as nat)]
                + digits_reversed(digits@));
        }
        digits.push(d);
        cur = next;
    }
    let d: u8 = cur as u8;
    proof {
        assert(digits_reversed(digits@.push(d)) =~= seq![digit_char(d as nat)]
            + digits_reversed(digits@));
    }
    digits.push(d);
    assert(dec_digits(m) =~= digits_reversed(digits@));

    let mut out = String::new();
    if neg {
        proof {
            reveal_strlit("-");
        }
        out.append("-");
    }
    let ghost sign: Seq<char> = out@;
    let mut i: usize = digits.len();
    while i > 0
        invariant
            i <= digits@.len(),
            forall|k: int| 0 <= k < digits@.len() ==> digits@[k] < 10,
            out@ =~= sign + digits_reversed(digits@).subrange(
                0,
                digits@.len() - i,
            ),
        decreases i,
    {
        i = i - 1;
        out.append(digit_str(digits[i]));
        proof {
            let full = digits_reversed(digits@);
            let done = digits@.len() - i;
            assert(full[done - 1] == digit_char(digits@[i as int] as nat));
            assert(full.subrange(0, done) =~= full.subrange(0, done - 1) + seq![full[done - 1]]);
        }
    }
    proof {
        assert(digits_reversed(digits@).subrange(0, digits@.len() as int) =~= digits_reversed(
            digits@,
        ));
        assert(out@ =~= sign + dec_digits(m));
        if neg {
            assert(m == (-(n as int)) as nat);
            assert(sign =~= seq!['-']);
        } else {
            assert(m == n as nat);
            assert(sign =~= Seq::<char>::empty());
        }
        assert(out@ =~= dec_int(n as int));
    }
    out
}

} // verus!
