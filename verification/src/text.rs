//! How identifiers and counts are written out in messages.
use vstd::prelude::*;

verus! {

/// The lower-case hexadecimal digit for `d` (meant for `d < 16`).
pub open spec fn hex_digit(d: nat) -> char {
    if d < 10 {
        (48 + d) as char
    } else {
        (87 + d) as char
    }
}

/// The last `count` hexadecimal digits of `n`, most significant first,
/// padded with zeros.
pub open spec fn hex_digits(n: nat, count: nat) -> Seq<char>
    decreases count,
{
    if count == 0 {
        Seq::empty()
    } else {
        hex_digits(n / 16, (count - 1) as nat).push(hex_digit(n % 16))
    }
}

/// The canonical text of a 128-bit identifier: 32 lower-case hexadecimal
/// digits in groups of 8, 4, 4, 4 and 12, joined by hyphens.
pub open spec fn uuid_text(id: u128) -> Seq<char> {
    let n = id as nat;
    hex_digits(n / 0x1_0000_0000_0000_0000_0000_0000, 8) + seq!['-']
        + hex_digits(n / 0x1_0000_0000_0000_0000_0000, 4) + seq!['-']
        + hex_digits(n / 0x1_0000_0000_0000_0000, 4) + seq!['-']
        + hex_digits(n / 0x1_0000_0000_0000, 4) + seq!['-']
        + hex_digits(n, 12)
}

/// The decimal digit for `d` (meant for `d < 10`).
pub open spec fn decimal_digit(d: nat) -> char {
    (48 + d) as char
}

/// The decimal text of `n`, without sign or leading zeros.
pub open spec fn decimal(n: nat) -> Seq<char>
    decreases n,
{
    if n < 10 {
        seq![decimal_digit(n)]
    } else {
        decimal(n / 10).push(decimal_digit(n % 10))
    }
}

/// The text of one decimal digit.
fn digit_text(d: usize) -> (s: &'static str)
    requires
        d < 10,
    ensures
        s@ == seq![decimal_digit(d as nat)],
{
    match d {
        0 => {
            proof {
                reveal_strlit("0");
            }
            "0"
        },
        1 => {
            proof {
                reveal_strlit("1");
            }
            "1"
        },
        2 => {
            proof {
                reveal_strlit("2");
            }
            "2"
        },
        3 => {
            proof {
                reveal_strlit("3");
            }
            "3"
        },
        4 => {
            proof {
                reveal_strlit("4");
            }
            "4"
        },
        5 => {
            proof {
                reveal_strlit("5");
            }
            "5"
        },
        6 => {
            proof {
                reveal_strlit("6");
            }
            "6"
        },
        7 => {
            proof {
                reveal_strlit("7");
            }
            "7"
        },
        8 => {
            proof {
                reveal_strlit("8");
            }
            "8"
        },
        _ => {
            proof {
                reveal_strlit("9");
            }
            "9"
        },
    }
}

/// Writes a count in decimal.
pub(crate) fn count_text(n: usize) -> (s: String)
    ensures
        s@ == decimal(n as nat),
    decreases n,
{
    if n < 10 {
        digit_text(n).to_owned()
    } else {
        let mut s = count_text(n / 10);
        s.append(digit_text(n % 10));
        s
    }
}

} // verus!
