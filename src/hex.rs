use vstd::prelude::*;

verus! {

/// The upper-case hexadecimal digit of value `d`.
pub open spec fn hex_char(d: nat) -> char {
    if d == 0 {
        '0'
    } else if d == 1 {
        '1'
    } else if d == 2 {
        '2'
    } else if d == 3 {
        '3'
    } else if d == 4 {
        '4'
    } else if d == 5 {
        '5'
    } else if d == 6 {
        '6'
    } else if d == 7 {
        '7'
    } else if d == 8 {
        '8'
    } else if d == 9 {
        '9'
    } else if d == 10 {
        'A'
    } else if d == 11 {
        'B'
    } else if d == 12 {
        'C'
    } else if d == 13 {
        'D'
    } else if d == 14 {
        'E'
    } else {
        'F'
    }
}

/// The lowest `k` hexadecimal digits of `n`, most significant first.
pub open spec fn hex_digits(n: nat, k: nat) -> Seq<char>
    decreases k,
{
    if k == 0 {
        Seq::empty()
    } else {
        hex_digits(n / 16, (k - 1) as nat).push(hex_char(n % 16))
    }
}

/// How many hexadecimal digits `n` has without leading zeros (one for zero).
pub open spec fn hex_len(n: nat) -> nat
    decreases n,
{
    if n < 16 {
        1
    } else {
        1 + hex_len(n / 16)
    }
}

/// `n` in upper-case hexadecimal, padded with leading zeros to at least
/// `min_digits` digits.
pub open spec fn hex_text(n: nat, min_digits: nat) -> Seq<char> {
    hex_digits(n, if hex_len(n) < min_digits { min_digits } else { hex_len(n) })
}

fn hex_digit_str(d: u16) -> (r: &'static str)
    requires
        d < 16,
    ensures
        r@ == seq![hex_char(d as nat)],
{
    if d == 0 {
        proof {
            reveal_strlit("0");
        }
        "0"
    } else if d == 1 {
        proof {
            reveal_strlit("1");
        }
        "1"
    } else if d == 2 {
        proof {
            reveal_strlit("2");
        }
        "2"
    } else if d == 3 {
        proof {
            reveal_strlit("3");
        }
        "3"
    } else if d == 4 {
        proof {
            reveal_strlit("4");
        }
        "4"
    } else if d == 5 {
        proof {
            reveal_strlit("5");
        }
        "5"
    } else if d == 6 {
        proof {
            reveal_strlit("6");
        }
        "6"
    } else if d == 7 {
        proof {
            reveal_strlit("7");
        }
        "7"
    } else if d == 8 {
        proof {
            reveal_strlit("8");
        }
        "8"
    } else if d == 9 {
        proof {
            reveal_strlit("9");
        }
        "9"
    } else if d == 10 {
        proof {
            reveal_strlit("A");
        }
        "A"
    } else if d == 11 {
        proof {
            reveal_strlit("B");
        }
        "B"
    } else if d == 12 {
        proof {
            reveal_strlit("C");
        }
        "C"
    } else if d == 13 {
        proof {
            reveal_strlit("D");
        }
        "D"
    } else if d == 14 {
        proof {
            reveal_strlit("E");
        }
        "E"
    } else {
        proof {
            reveal_strlit("F");
        }
        "F"
    }
}

fn hex_len_of(n: u16) -> (r: usize)
    ensures
        r == hex_len(n as nat),
        r <= 4,
        n < 4096 ==> r <= 3,
        n < 256 ==> r <= 2,
    decreases n,
{
    if n < 16 {
        1
    } else {
        1 + hex_len_of(n / 16)
    }
}

fn append_hex_digits(s: &mut String, n: u16, k: usize)
    ensures
        final(s)@ == old(s)@ + hex_digits(n as nat, k as nat),
    decreases k,
{
    let ghost before = s@;
    if k == 0 {
        assert(before + hex_digits(n as nat, 0) =~= before);
    } else {
        append_hex_digits(s, n / 16, k - 1);
        s.append(hex_digit_str(n % 16));
        assert(s@ =~= before + hex_digits(n as nat, k as nat));
    }
}

/// Appends `n` in upper-case hexadecimal, padded with leading zeros to at
/// least `min_digits` digits.
pub(crate) fn append_hex(s: &mut String, n: u16, min_digits: usize)
    ensures
        final(s)@ == old(s)@ + hex_text(n as nat, min_digits as nat),
{
    let len = hex_len_of(n);
    let k = if len < min_digits {
        min_digits
    } else {
        len
    };
    append_hex_digits(s, n, k);
}

} // verus!
