//! Decimal and hexadecimal rendering of plain values.
//!
//! The progress readouts and block-hash comparisons both speak of numbers and
//! byte strings rendered as text, so the renderings are specified here once
//! and proved exact.

use vstd::prelude::*;
use vstd::string::StringExecFns;

verus! {

/// The decimal digit character for `d`; meaningful for `d < 10`.
pub open spec fn dec_digit(d: nat) -> char {
    if d == 0 {
        '0'
    } else if d == 1 {
        '1'
    } else if d == 2 {
        '2'
    } else if d == 3 {
        '3'
    } else if d == 4 {
        '4'
    } else if d == 5 {
        '5'
    } else if d == 6 {
        '6'
    } else if d == 7 {
        '7'
    } else if d == 8 {
        '8'
    } else {
        '9'
    }
}

/// The decimal rendering of `n`, most significant digit first, no sign and no
/// leading zeros (`0` renders as `"0"`).
pub open spec fn spec_decimal(n: nat) -> Seq<char>
    decreases n,
{
    if n < 10 {
        seq![dec_digit(n)]
    } else {
        spec_decimal(n / 10).push(dec_digit(n % 10))
    }
}

/// The decimal rendering of `v` with a leading `'-'` when `v` is negative.
pub open spec fn spec_signed_decimal(v: int) -> Seq<char> {
    if v < 0 {
        seq!['-'] + spec_decimal((-v) as nat)
    } else {
        spec_decimal(v as nat)
    }
}

/// The hex digit character for `d`; meaningful for `d < 16`.
pub open spec fn hex_digit(d: nat) -> char {
    if d < 10 {
        dec_digit(d)
    } else if d == 10 {
        'a'
    } else if d == 11 {
        'b'
    } else if d == 12 {
        'c'
    } else if d == 13 {
        'd'
    } else if d == 14 {
        'e'
    } else {
        'f'
    }
}

/// The lowercase hex rendering of `bytes`, two digits per byte.
pub open spec fn spec_hex(bytes: Seq<u8>) -> Seq<char>
    decreases bytes.len(),
{
    if bytes.len() == 0 {
        Seq::<char>::empty()
    } else {
        spec_hex(bytes.drop_last()) + seq![
            hex_digit((bytes.last() / 16) as nat),
            hex_digit((bytes.last() % 16) as nat),
        ]
    }
}

/// The textual rendering of a boolean.
pub open spec fn spec_bool_text(b: bool) -> Seq<char> {
    if b {
        "true"@
    } else {
        "false"@
    }
}

fn dec_digit_str(d: u64) -> (r: &'static str)
    requires
        d < 10,
    ensures
        r@ == seq![dec_digit(d as nat)],
{
    let r: &'static str = if d == 0 {
        "0"
    } else if d == 1 {
        "1"
    } else if d == 2 {
        "2"
    } else if d == 3 {
        "3"
    } else if d == 4 {
        "4"
    } else if d == 5 {
        "5"
    } else if d == 6 {
        "6"
    } else if d == 7 {
        "7"
    } else if d == 8 {
        "8"
    } else {
        "9"
    };
    proof {
        reveal_strlit("0");
        reveal_strlit("1");
        reveal_strlit("2");
        reveal_strlit("3");
        reveal_strlit("4");
        reveal_strlit("5");
        reveal_strlit("6");
        reveal_strlit("7");
        reveal_strlit("8");
        reveal_strlit("9");
        assert(r@ =~= seq![dec_digit(d as nat)]);
    }
    r
}

fn hex_digit_str(d: u64) -> (r: &'static str)
    requires
        d < 16,
    ensures
        r@ == seq![hex_digit(d as nat)],
{
    if d < 10 {
        dec_digit_str(d)
    } else {
        let r: &'static str = if d == 10 {
            "a"
        } else if d == 11 {
            "b"
        } else if d == 12 {
            "c"
        } else if d == 13 {
            "d"
        } else if d == 14 {
            "e"
        } else {
            "f"
        };
        proof {
            reveal_strlit("a");
            reveal_strlit("b");
            reveal_strlit("c");
            reveal_strlit("d");
            reveal_strlit("e");
            reveal_strlit("f");
            assert(r@ =~= seq![hex_digit(d as nat)]);
        }
        r
    }
}

/// Appends the decimal rendering of `n` to `s`.
pub fn append_decimal(s: &mut String, n: u64)
    ensures
        final(s)@ == old(s)@ + spec_decimal(n as nat),
    decreases n,
{
    if n < 10 {
        s.append(dec_digit_str(n));
    } else {
        append_decimal(s, n / 10);
        s.append(dec_digit_str(n % 10));
    }
    assert(s@ =~= old(s)@ + spec_decimal(n as nat));
}

/// The decimal rendering of `n` as an owned string.
pub fn u64_to_decimal(n: u64) -> (r: String)
    ensures
        r@ == spec_decimal(n as nat),
{
    let mut s = String::new();
    append_decimal(&mut s, n);
    proof {
        assert(s@ =~= spec_decimal(n as nat));
    }
    s
}

/// The signed decimal rendering of `v` as an owned string.
pub fn i32_to_decimal(v: i32) -> (r: String)
    ensures
        r@ == spec_signed_decimal(v as int),
{
    let mut s = String::new();
    if v < 0 {
        s.append("-");
        proof {
            reveal_strlit("-");
        }
        let magnitude: u64 = (-(v as i64)) as u64;
        append_decimal(&mut s, magnitude);
    } else {
        append_decimal(&mut s, v as u64);
    }
    proof {
        assert(s@ =~= spec_signed_decimal(v as int));
    }
    s
}

/// The lowercase hex rendering of `bytes` as an owned string.
pub fn bytes_to_hex(bytes: &[u8]) -> (r: String)
    ensures
        r@ == spec_hex(bytes@),
{
    let mut s = String::new();
    let mut i: usize = 0;
    while i < bytes.len()
        invariant
            i <= bytes@.len(),
            s@ == spec_hex(bytes@.take(i as int)),
        decreases bytes@.len() - i,
    {
        let b = bytes[i];
        s.append(hex_digit_str((b / 16) as u64));
        s.append(hex_digit_str((b % 16) as u64));
        proof {
            let taken = bytes@.take(i as int + 1);
            assert(taken.drop_last() =~= bytes@.take(i as int));
            assert(taken.last() == bytes@[i as int]);
            assert(s@ =~= spec_hex(taken));
        }
        i += 1;
    }
    proof {
        assert(bytes@.take(bytes@.len() as int) =~= bytes@);
    }
    s
}

/// The textual rendering of a boolean, `"true"` or `"false"`.
pub fn bool_to_text(b: bool) -> (r: &'static str)
    ensures
        r@ == spec_bool_text(b),
{
    if b {
        "true"
    } else {
        "false"
    }
}

/// The views of a list of owned strings.
pub open spec fn string_views(strings: Seq<String>) -> Seq<Seq<char>> {
    strings.map_values(|s: String| s@)
}

} // verus!
