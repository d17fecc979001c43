//! Deterministic rendering of 128 bits of entropy as a version-4 UUID
//! string: the canonical 8-4-4-4-12 lowercase-hex, hyphenated form, with the
//! version digit forced to `4` and the variant digit's high bit forced on.
//! Hex digits run from the least significant nibble of the input at position
//! 0; all other bits pass through unmodified.

use vstd::prelude::*;
use vstd::string::StringExecFns;

verus! {

/// The lowercase hex character for one nibble.
pub open spec fn hex_char(d: u128) -> char
    recommends
        d < 16,
{
    if d == 0 {
        '0'
    } else if d == 1 {
        '1'
    } else if d == 2 {
        '2'
    } else if d == 3 {
        '3'
    } else if d == 4 {
        '4'
    } else if d == 5 {
        '5'
    } else if d == 6 {
        '6'
    } else if d == 7 {
        '7'
    } else if d == 8 {
        '8'
    } else if d == 9 {
        '9'
    } else if d == 10 {
        'a'
    } else if d == 11 {
        'b'
    } else if d == 12 {
        'c'
    } else if d == 13 {
        'd'
    } else if d == 14 {
        'e'
    } else {
        'f'
    }
}

/// Which nibble of the input feeds character position `i`: the position,
/// less the hyphens that precede it.
pub open spec fn nibble_index(i: int) -> int {
    if i <= 8 {
        i
    } else if i <= 13 {
        i - 1
    } else if i <= 18 {
        i - 2
    } else if i <= 23 {
        i - 3
    } else {
        i - 4
    }
}

/// Nibble `k` of the input, counted from the least significant.
pub open spec fn nibble(input: u128, k: int) -> u128
    recommends
        0 <= k < 32,
{
    (input >> ((k * 4) as u128)) & 0xf
}

/// The character at position `i` of the rendered UUID: a hyphen at 8, 13,
/// 18 and 23; the version digit `4` at 14; at 19, the variant nibble with
/// its high bit forced on; a plain hex digit everywhere else.
pub open spec fn uuid_char(input: u128, i: int) -> char {
    if i == 8 || i == 13 || i == 18 || i == 23 {
        '-'
    } else if i == 14 {
        '4'
    } else if i == 19 {
        hex_char(nibble(input, nibble_index(i)) | 8)
    } else {
        hex_char(nibble(input, nibble_index(i)))
    }
}

/// The full 36-character rendering.
pub open spec fn uuid_str(input: u128) -> Seq<char> {
    Seq::new(36, |i: int| uuid_char(input, i))
}

/// The one-character string for one nibble.
fn hex_str(d: u128) -> (r: &'static str)
    requires
        d < 16,
    ensures
        r@ == seq![hex_char(d)],
{
    let r: &'static str = if d == 0 {
        "0"
    } else if d == 1 {
        "1"
    } else if d == 2 {
        "2"
    } else if d == 3 {
        "3"
    } else if d == 4 {
        "4"
    } else if d == 5 {
        "5"
    } else if d == 6 {
        "6"
    } else if d == 7 {
        "7"
    } else if d == 8 {
        "8"
    } else if d == 9 {
        "9"
    } else if d == 10 {
        "a"
    } else if d == 11 {
        "b"
    } else if d == 12 {
        "c"
    } else if d == 13 {
        "d"
    } else if d == 14 {
        "e"
    } else {
        "f"
    };
    proof {
        reveal_strlit("0");
        reveal_strlit("1");
        reveal_strlit("2");
        reveal_strlit("3");
        reveal_strlit("4");
        reveal_strlit("5");
        reveal_strlit("6");
        reveal_strlit("7");
        reveal_strlit("8");
        reveal_strlit("9");
        reveal_strlit("a");
        reveal_strlit("b");
        reveal_strlit("c");
        reveal_strlit("d");
        reveal_strlit("e");
        reveal_strlit("f");
        assert(r@ =~= seq![hex_char(d)]);
    }
    r
}

/// Renders the given 128 bits as a version-4 UUID string.
pub fn uuid_v4(input: u128) -> (r: String)
    ensures
        r@ == uuid_str(input),
{
    let mut out = String::new();
    let mut k: u128 = 0;
    let mut i: usize = 0;
    proof {
        assert(out@ =~= uuid_str(input).take(0));
    }
    while i < 36
        invariant
            i <= 36,
            k == nibble_index(i as int),
            out@ == uuid_str(input).take(i as int),
        decreases 36 - i,
    {
        if i == 8 || i == 13 || i == 18 || i == 23 {
            out.append("-");
            proof {
                reveal_strlit("-");
                assert(out@ =~= uuid_str(input).take(i as int + 1));
            }
        } else {
            let shift: u128 = k * 4;
            let d: u128 = (input >> shift) & 0xf;
            proof {
                assert((input >> shift) & 0xf < 16) by (bit_vector);
            }
            let c: &'static str = if i == 14 {
                "4"
            } else if i == 19 {
                proof {
                    assert(d | 8 < 16) by (bit_vector)
                        requires
                            d < 16,
                    ;
                }
                hex_str(d | 8)
            } else {
                hex_str(d)
            };
            out.append(c);
            k = k + 1;
            proof {
                reveal_strlit("4");
                assert(c@ =~= seq![uuid_char(input, i as int)]);
                assert(out@ =~= uuid_str(input).take(i as int + 1));
            }
        }
        i = i + 1;
    }
    proof {
        assert(out@ =~= uuid_str(input));
    }
    out
}

/// The shape every rendered UUID has, whatever the input: 36 characters,
/// hyphens exactly at positions 8, 13, 18 and 23, the version digit `'4'`
/// at position 14, and a variant digit at position 19 drawn from the upper
/// half of the hex digits.
pub proof fn lemma_uuid_shape(input: u128)
    ensures
        uuid_str(input).len() == 36,
        uuid_str(input)[8] == '-',
        uuid_str(input)[13] == '-',
        uuid_str(input)[18] == '-',
        uuid_str(input)[23] == '-',
        forall|i: int|
            0 <= i < 36 && i != 8 && i != 13 && i != 18 && i != 23 ==> #[trigger] uuid_str(
                input,
            )[i] != '-',
        uuid_str(input)[14] == '4',
        uuid_str(input)[19] == '8' || uuid_str(input)[19] == '9' || uuid_str(input)[19] == 'a'
            || uuid_str(input)[19] == 'b' || uuid_str(input)[19] == 'c' || uuid_str(input)[19]
            == 'd' || uuid_str(input)[19] == 'e' || uuid_str(input)[19] == 'f',
{
    assert forall|i: int|
        0 <= i < 36 && i != 8 && i != 13 && i != 18 && i != 23 implies #[trigger] uuid_str(
        input,
    )[i] != '-' by {
        let shift: u128 = (nibble_index(i) * 4) as u128;
        assert((input >> shift) & 0xf < 16) by (bit_vector);
        assert(((input >> shift) & 0xf) | 8 < 16) by (bit_vector);
    }
    let shift: u128 = (nibble_index(19) * 4) as u128;
    assert(shift == 64);
    assert(((input >> 64u128) & 0xf) | 8 >= 8 && ((input >> 64u128) & 0xf) | 8 < 16)
        by (bit_vector);
}

/// When bit 66 of the input is clear, the variant digit at position 19 is
/// one of `'8'`, `'9'`, `'a'`, `'b'`: its two top bits render as binary 10.
/// (An input with bit 66 set drives that digit into `'c'` through `'f'`.)
pub proof fn lemma_uuid_variant_digit(input: u128)
    requires
        (input >> 66u128) & 1 == 0,
    ensures
        uuid_str(input)[19] == '8' || uuid_str(input)[19] == '9' || uuid_str(input)[19] == 'a'
            || uuid_str(input)[19] == 'b',
{
    let v: u128 = ((input >> 64u128) & 0xf) | 8;
    assert(v == 8 || v == 9 || v == 10 || v == 11) by (bit_vector)
        requires
            v == ((input >> 64u128) & 0xf) | 8,
            (input >> 66u128) & 1 == 0,
    ;
    assert(nibble_index(19) == 16);
    assert(((16int * 4) as u128) == 64u128);
}

} // verus!
