use vstd::prelude::*;
use vstd::string::*;

verus! {

/// The character of the decimal digit `d`.
pub open spec fn digit_char(d: nat) -> char {
    if d == 0 {
        '0'
    } else if d == 1 {
        '1'
    } else if d == 2 {
        '2'
    } else if d == 3 {
        '3'
    } else if d == 4 {
        '4'
    } else if d == 5 {
        '5'
    } else if d == 6 {
        '6'
    } else if d == 7 {
        '7'
    } else if d == 8 {
        '8'
    } else {
        '9'
    }
}

/// The decimal numeral of `n`, most significant digit first, no leading zeros.
pub open spec fn decimal(n: nat) -> Seq<char>
    decreases n,
{
    if n < 10 {
        seq![digit_char(n)]
    } else {
        decimal(n / 10).push(digit_char(n % 10))
    }
}

/// The numeral of `n` padded with a leading zero to at least two digits.
pub open spec fn two_digits(n: nat) -> Seq<char> {
    if n < 10 {
        seq!['0', digit_char(n)]
    } else {
        decimal(n)
    }
}

/// The `MM:SS` clock face for a time of `nanos` nanoseconds: whole seconds,
/// split into minutes (which may take more than two digits) and seconds.
pub open spec fn clock_text(nanos: nat) -> Seq<char> {
    let secs = nanos / 1_000_000_000;
    two_digits(secs / 60) + seq![':'] + two_digits(secs % 60)
}

/// The number a numeral of decimal digits stands for, most significant first.
pub open spec fn numeral_value(s: Seq<char>) -> int
    decreases s.len(),
{
    if s.len() == 0 {
        0
    } else {
        numeral_value(s.drop_last()) * 10 + (s.last() as int - '0' as int)
    }
}

/// Whether every character of `s` is one of the digits `0` to `9`.
pub open spec fn all_digits(s: Seq<char>) -> bool {
    forall|i: int| 0 <= i < s.len() ==> '0' <= #[trigger] s[i] && s[i] <= '9'
}

fn digit_str(d: u128) -> (s: &'static str)
    requires
        d < 10,
    ensures
        s@ == seq![digit_char(d as nat)],
{
    match d {
        0 => {
            proof {
                reveal_strlit("0");
            }
            "0"
        },
        1 => {
            proof {
                reveal_strlit("1");
            }
            "1"
        },
        2 => {
            proof {
                reveal_strlit("2");
            }
            "2"
        },
        3 => {
            proof {
                reveal_strlit("3");
            }
            "3"
        },
        4 => {
            proof {
                reveal_strlit("4");
            }
            "4"
        },
        5 => {
            proof {
                reveal_strlit("5");
            }
            "5"
        },
        6 => {
            proof {
                reveal_strlit("6");
            }
            "6"
        },
        7 => {
            proof {
                reveal_strlit("7");
            }
            "7"
        },
        8 => {
            proof {
                reveal_strlit("8");
            }
            "8"
        },
        _ => {
            proof {
                reveal_strlit("9");
            }
            "9"
        },
    }
}

/// Appends the numeral of `n` to `text`.
fn push_decimal(text: &mut String, n: u128)
    ensures
        final(text)@ == old(text)@ + decimal(n as nat),
    decreases n,
{
    if n >= 10 {
        push_decimal(text, n / 10);
    }
    text.append(digit_str(n % 10));
    proof {
        if n >= 10 {
            assert(old(text)@ + decimal(n as nat) =~= old(text)@ + decimal((n / 10) as nat) + seq![
                digit_char((n % 10) as nat),
            ]);
        }
    }
}

/// Appends the two-digit numeral of `n` to `text`.
fn push_two_digits(text: &mut String, n: u128)
    ensures
        final(text)@ == old(text)@ + two_digits(n as nat),
{
    if n < 10 {
        text.append(digit_str(0));
    }
    push_decimal(text, n);
    proof {
        if n < 10 {
            assert(final(text)@ =~= old(text)@ + two_digits(n as nat));
        }
    }
}

/// The `MM:SS` text shown in the ring for `remaining_nanos` nanoseconds left.
pub fn format_clock(remaining_nanos: u128) -> (text: String)
    ensures
        text@ == clock_text(remaining_nanos as nat),
{
    let secs = remaining_nanos / 1_000_000_000;
    let mut text = String::new();
    push_two_digits(&mut text, secs / 60);
    proof {
        reveal_strlit(":");
    }
    text.append(":");
    push_two_digits(&mut text, secs % 60);
    assert(text@ =~= clock_text(remaining_nanos as nat));
    text
}

/// The count of finished focus sessions as the footer shows it.
pub fn format_session_count(count: u32) -> (text: String)
    ensures
        text@ == "Sessions: "@ + decimal(count as nat),
{
    let mut text = String::from_str("Sessions: ");
    push_decimal(&mut text, count as u128);
    text
}

} // verus!
