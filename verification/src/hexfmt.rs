//! Fixed-width hexadecimal rendering for the debug snapshot: two- and
//! four-digit groups, upper case for register dumps and lower case for the
//! cartridge header's old-style licensee code.

use vstd::prelude::*;

verus! {

use vstd::string::StringExecFns;

/// The upper-case hexadecimal digit of a value below sixteen.
pub open spec fn spec_hex_digit(n: u8) -> char {
    if n == 0 {
        '0'
    } else if n == 1 {
        '1'
    } else if n == 2 {
        '2'
    } else if n == 3 {
        '3'
    } else if n == 4 {
        '4'
    } else if n == 5 {
        '5'
    } else if n == 6 {
        '6'
    } else if n == 7 {
        '7'
    } else if n == 8 {
        '8'
    } else if n == 9 {
        '9'
    } else if n == 10 {
        'A'
    } else if n == 11 {
        'B'
    } else if n == 12 {
        'C'
    } else if n == 13 {
        'D'
    } else if n == 14 {
        'E'
    } else {
        'F'
    }
}

/// The lower-case hexadecimal digit of a value below sixteen.
pub open spec fn spec_hex_digit_lower(n: u8) -> char {
    if n < 10 {
        spec_hex_digit(n)
    } else if n == 10 {
        'a'
    } else if n == 11 {
        'b'
    } else if n == 12 {
        'c'
    } else if n == 13 {
        'd'
    } else if n == 14 {
        'e'
    } else {
        'f'
    }
}

/// A byte as two upper-case hexadecimal digits.
pub open spec fn spec_hex2(b: u8) -> Seq<char> {
    seq![spec_hex_digit((b / 16) as u8), spec_hex_digit((b % 16) as u8)]
}

/// A byte as two lower-case hexadecimal digits.
pub open spec fn spec_hex2_lower(b: u8) -> Seq<char> {
    seq![spec_hex_digit_lower((b / 16) as u8), spec_hex_digit_lower((b % 16) as u8)]
}

/// A word as four upper-case hexadecimal digits.
pub open spec fn spec_hex4(w: u16) -> Seq<char> {
    spec_hex2((w / 256) as u8) + spec_hex2((w % 256) as u8)
}

/// One upper-case hexadecimal digit.
pub fn hex_digit(n: u8) -> (digit: &'static str)
    requires
        n < 16,
    ensures
        digit@ == seq![spec_hex_digit(n)],
{
    proof {
        reveal_strlit("0");
        reveal_strlit("1");
        reveal_strlit("2");
        reveal_strlit("3");
        reveal_strlit("4");
        reveal_strlit("5");
        reveal_strlit("6");
        reveal_strlit("7");
        reveal_strlit("8");
        reveal_strlit("9");
        reveal_strlit("A");
        reveal_strlit("B");
        reveal_strlit("C");
        reveal_strlit("D");
        reveal_strlit("E");
        reveal_strlit("F");
    }
    let digit = match n {
        0 => "0",
        1 => "1",
        2 => "2",
        3 => "3",
        4 => "4",
        5 => "5",
        6 => "6",
        7 => "7",
        8 => "8",
        9 => "9",
        10 => "A",
        11 => "B",
        12 => "C",
        13 => "D",
        14 => "E",
        _ => "F",
    };
    proof {
        assert(digit@ =~= seq![spec_hex_digit(n)]);
    }
    digit
}

/// One lower-case hexadecimal digit.
pub fn hex_digit_lower(n: u8) -> (digit: &'static str)
    requires
        n < 16,
    ensures
        digit@ == seq![spec_hex_digit_lower(n)],
{
    proof {
        reveal_strlit("a");
        reveal_strlit("b");
        reveal_strlit("c");
        reveal_strlit("d");
        reveal_strlit("e");
        reveal_strlit("f");
    }
    if n < 10 {
        hex_digit(n)
    } else {
        let digit = match n {
            10 => "a",
            11 => "b",
            12 => "c",
            13 => "d",
            14 => "e",
            _ => "f",
        };
        proof {
            assert(digit@ =~= seq![spec_hex_digit_lower(n)]);
        }
        digit
    }
}

/// A byte as exactly two upper-case hexadecimal digits.
pub fn hex2(b: u8) -> (out: String)
    ensures
        out@ == spec_hex2(b),
{
    let mut out = String::new();
    out.append(hex_digit(b / 16));
    out.append(hex_digit(b % 16));
    proof {
        assert(out@ =~= spec_hex2(b));
    }
    out
}

/// A byte as exactly two lower-case hexadecimal digits.
pub fn hex2_lower(b: u8) -> (out: String)
    ensures
        out@ == spec_hex2_lower(b),
{
    let mut out = String::new();
    out.append(hex_digit_lower(b / 16));
    out.append(hex_digit_lower(b % 16));
    proof {
        assert(out@ =~= spec_hex2_lower(b));
    }
    out
}

/// A word as exactly four upper-case hexadecimal digits.
pub fn hex4(w: u16) -> (out: String)
    ensures
        out@ == spec_hex4(w),
{
    let mut out = hex2((w / 256) as u8);
    let low = hex2((w % 256) as u8);
    out.append(low.as_str());
    proof {
        assert(out@ =~= spec_hex4(w));
    }
    out
}

} // verus!
