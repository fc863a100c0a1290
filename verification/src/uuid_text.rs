use vstd::prelude::*;
use vstd::arithmetic::div_mod::{lemma_div_denominator, lemma_fundamental_div_mod};
use vstd::arithmetic::power2::{lemma2_to64, lemma_pow2_adds, lemma_pow2_strictly_increases, pow2};
use vstd::bits::lemma_u128_shr_is_div;

verus! {

// Canonical UUID text: 36 characters in the hyphenated 8-4-4-4-12 layout,
// hexadecimal digits everywhere but at the four hyphens. Formatting writes
// lower-case digits; parsing accepts either case, as the usual UUID parsers do.

/// The characters admitted at the non-hyphen positions of UUID text.
pub open spec fn is_hex_digit(c: char) -> bool {
    ('0' as u32 <= c as u32 && c as u32 <= '9' as u32) || ('a' as u32 <= c as u32 && c as u32
        <= 'f' as u32) || ('A' as u32 <= c as u32 && c as u32 <= 'F' as u32)
}

/// The value of a hexadecimal digit character (meaningful when `is_hex_digit` holds).
pub open spec fn hex_val(c: char) -> int {
    if '0' as u32 <= c as u32 && c as u32 <= '9' as u32 {
        c as int - '0' as int
    } else if 'a' as u32 <= c as u32 && c as u32 <= 'f' as u32 {
        c as int - 'a' as int + 10
    } else {
        c as int - 'A' as int + 10
    }
}

/// The lower-case hexadecimal digit for a value below sixteen.
pub open spec fn hex_char(v: int) -> char {
    if v == 0 {
        '0'
    } else if v == 1 {
        '1'
    } else if v == 2 {
        '2'
    } else if v == 3 {
        '3'
    } else if v == 4 {
        '4'
    } else if v == 5 {
        '5'
    } else if v == 6 {
        '6'
    } else if v == 7 {
        '7'
    } else if v == 8 {
        '8'
    } else if v == 9 {
        '9'
    } else if v == 10 {
        'a'
    } else if v == 11 {
        'b'
    } else if v == 12 {
        'c'
    } else if v == 13 {
        'd'
    } else if v == 14 {
        'e'
    } else {
        'f'
    }
}

/// The four positions at which canonical UUID text carries a hyphen.
pub open spec fn is_hyphen_pos(i: int) -> bool {
    i == 8 || i == 13 || i == 18 || i == 23
}

/// How many digit positions lie strictly before text position `i`.
pub open spec fn digit_index(i: int) -> int {
    if i <= 8 {
        i
    } else if i <= 13 {
        i - 1
    } else if i <= 18 {
        i - 2
    } else if i <= 23 {
        i - 3
    } else {
        i - 4
    }
}

/// The text position of digit number `d` (digits are numbered from the most
/// significant, zero to thirty-one).
pub open spec fn digit_pos(d: int) -> int {
    if d < 8 {
        d
    } else if d < 12 {
        d + 1
    } else if d < 16 {
        d + 2
    } else if d < 20 {
        d + 3
    } else {
        d + 4
    }
}

/// Digit `d` of the value `u`, counted from the most significant nibble.
pub open spec fn nibble(u: u128, d: int) -> int {
    (u as int / pow2((4 * (31 - d)) as nat) as int) % 16
}

/// The character standing at position `i` of the canonical text of `u`.
pub open spec fn uuid_char(u: u128, i: int) -> char {
    if is_hyphen_pos(i) {
        '-'
    } else {
        hex_char(nibble(u, digit_index(i)))
    }
}

/// The canonical hyphenated text of the 128-bit value `u`.
pub open spec fn uuid_str(u: u128) -> Seq<char> {
    Seq::new(36, |i: int| uuid_char(u, i))
}

/// Position `i` of `s` is admissible for UUID text.
pub open spec fn uuid_text_char_ok(s: Seq<char>, i: int) -> bool {
    if is_hyphen_pos(i) {
        s[i] == '-'
    } else {
        is_hex_digit(s[i])
    }
}

/// `s` is well-formed UUID text: 36 characters, hyphens at the four canonical
/// positions, hexadecimal digits everywhere else.
pub open spec fn is_uuid_text(s: Seq<char>) -> bool {
    s.len() == 36 && (forall|i: int| 0 <= i < 36 ==> #[trigger] uuid_text_char_ok(s, i))
}

/// The value of the first `k` digits of UUID text `s`, most significant first.
pub open spec fn digits_val(s: Seq<char>, k: int) -> int
    decreases k,
{
    if k <= 0 {
        0
    } else {
        digits_val(s, k - 1) * 16 + hex_val(s[digit_pos(k - 1)])
    }
}

/// The 128-bit value that UUID text `s` denotes.
pub open spec fn uuid_of(s: Seq<char>) -> int {
    digits_val(s, 32)
}

proof fn lemma_pow2_128_val()
    ensures
        pow2(128) == 0x100000000000000000000000000000000,
{
    lemma2_to64();
    lemma_pow2_adds(64, 64);
}

/// Exec-level nibble extraction agrees with the spec `nibble`.
proof fn lemma_nibble_exec(u: u128, d: int)
    requires
        0 <= d < 32,
    ensures
        0 <= nibble(u, d) < 16,
        ((u >> ((4 * (31 - d)) as u128)) & 0xf) as int == nibble(u, d),
{
    let sh: u128 = (4 * (31 - d)) as u128;
    lemma_u128_shr_is_div(u, sh);
    let y: u128 = u >> sh;
    assert(y & 0xf == y % 16) by (bit_vector);
    assert(y as int == u as int / pow2(sh as nat) as int);
}

fn digit_index_exec(i: usize) -> (d: usize)
    requires
        i < 36,
        !is_hyphen_pos(i as int),
    ensures
        d as int == digit_index(i as int),
        d < 32,
{
    if i < 8 {
        i
    } else if i < 13 {
        i - 1
    } else if i < 18 {
        i - 2
    } else if i < 23 {
        i - 3
    } else {
        i - 4
    }
}

/// Append the lower-case hexadecimal digit of `v` to `s`.
pub(crate) fn append_hex_digit(s: &mut String, v: u8)
    requires
        v < 16,
    ensures
        final(s)@ == old(s)@.push(hex_char(v as int)),
{
    if v == 0 {
        s.append("0");
        proof {
            reveal_strlit("0");
            assert(s@ =~= old(s)@.push(hex_char(v as int)));
        }
    } else if v == 1 {
        s.append("1");
        proof {
            reveal_strlit("1");
            assert(s@ =~= old(s)@.push(hex_char(v as int)));
        }
    } else if v == 2 {
        s.append("2");
        proof {
            reveal_strlit("2");
            assert(s@ =~= old(s)@.push(hex_char(v as int)));
        }
    } else if v == 3 {
        s.append("3");
        proof {
            reveal_strlit("3");
            assert(s@ =~= old(s)@.push(hex_char(v as int)));
        }
    } else if v == 4 {
        s.append("4");
        proof {
            reveal_strlit("4");
            assert(s@ =~= old(s)@.push(hex_char(v as int)));
        }
    } else if v == 5 {
        s.append("5");
        proof {
            reveal_strlit("5");
            assert(s@ =~= old(s)@.push(hex_char(v as int)));
        }
    } else if v == 6 {
        s.append("6");
        proof {
            reveal_strlit("6");
            assert(s@ =~= old(s)@.push(hex_char(v as int)));
        }
    } else if v == 7 {
        s.append("7");
        proof {
            reveal_strlit("7");
            assert(s@ =~= old(s)@.push(hex_char(v as int)));
        }
    } else if v == 8 {
        s.append("8");
        proof {
            reveal_strlit("8");
            assert(s@ =~= old(s)@.push(hex_char(v as int)));
        }
    } else if v == 9 {
        s.append("9");
        proof {
            reveal_strlit("9");
            assert(s@ =~= old(s)@.push(hex_char(v as int)));
        }
    } else if v == 10 {
        s.append("a");
        proof {
            reveal_strlit("a");
            assert(s@ =~= old(s)@.push(hex_char(v as int)));
        }
    } else if v == 11 {
        s.append("b");
        proof {
            reveal_strlit("b");
            assert(s@ =~= old(s)@.push(hex_char(v as int)));
        }
    } else if v == 12 {
        s.append("c");
        proof {
            reveal_strlit("c");
            assert(s@ =~= old(s)@.push(hex_char(v as int)));
        }
    } else if v == 13 {
        s.append("d");
        proof {
            reveal_strlit("d");
            assert(s@ =~= old(s)@.push(hex_char(v as int)));
        }
    } else if v == 14 {
        s.append("e");
        proof {
            reveal_strlit("e");
            assert(s@ =~= old(s)@.push(hex_char(v as int)));
        }
    } else {
        s.append("f");
        proof {
            reveal_strlit("f");
            assert(s@ =~= old(s)@.push(hex_char(v as int)));
        }
    }
}

/// The canonical lower-case hyphenated text of `u`.
pub fn format_uuid(u: u128) -> (s: String)
    ensures
        s@ == uuid_str(u),
        s@.len() == 36,
{
    let mut s = String::new();
    let mut i: usize = 0;
    while i < 36
        invariant
            i <= 36,
            s@ == uuid_str(u).take(i as int),
        decreases 36 - i,
    {
        if i == 8 || i == 13 || i == 18 || i == 23 {
            s.append("-");
            proof {
                reveal_strlit("-");
                assert(s@ =~= uuid_str(u).take(i as int + 1));
            }
        } else {
            let d = digit_index_exec(i);
            let sh: u128 = 4 * (31 - (d as u128));
            let nib: u8 = ((u >> sh) & 0xf) as u8;
            proof {
                lemma_nibble_exec(u, d as int);
            }
            append_hex_digit(&mut s, nib);
            proof {
                assert(s@ =~= uuid_str(u).take(i as int + 1));
            }
        }
        i += 1;
    }
    proof {
        assert(s@ =~= uuid_str(u));
    }
    s
}

/// The value of a hexadecimal digit character, or `None` when `c` is not one.
pub(crate) fn hex_digit_value(c: char) -> (r: Option<u8>)
    ensures
        r matches Some(v) ==> is_hex_digit(c) && v < 16 && v as int == hex_val(c),
        r is None ==> !is_hex_digit(c),
{
    let cu = c as u32;
    if '0' as u32 <= cu && cu <= '9' as u32 {
        Some((cu - '0' as u32) as u8)
    } else if 'a' as u32 <= cu && cu <= 'f' as u32 {
        Some((cu - 'a' as u32 + 10) as u8)
    } else if 'A' as u32 <= cu && cu <= 'F' as u32 {
        Some((cu - 'A' as u32 + 10) as u8)
    } else {
        None
    }
}

/// Parse canonical hyphenated UUID text. Returns the 128-bit value exactly on
/// well-formed input (hyphens in place, hexadecimal digits of either case
/// elsewhere) and `None` on anything else.
pub fn parse_uuid(s: &str) -> (r: Option<u128>)
    ensures
        r matches Some(v) ==> is_uuid_text(s@) && v as int == uuid_of(s@),
        r is None ==> !is_uuid_text(s@),
{
    let n = s.unicode_len();
    if n != 36 {
        return None;
    }
    let mut acc: u128 = 0;
    let mut i: usize = 0;
    proof {
        lemma2_to64();
    }
    while i < 36
        invariant
            s@.len() == 36,
            i <= 36,
            forall|j: int| 0 <= j < i ==> #[trigger] uuid_text_char_ok(s@, j),
            acc as int == digits_val(s@, digit_index(i as int)),
            (acc as int) < pow2((4 * digit_index(i as int)) as nat),
        decreases 36 - i,
    {
        let c = s.get_char(i);
        if i == 8 || i == 13 || i == 18 || i == 23 {
            if c != '-' {
                proof {
                    assert(!uuid_text_char_ok(s@, i as int));
                }
                return None;
            }
            proof {
                assert(digit_index(i as int + 1) == digit_index(i as int));
            }
        } else {
            let v = match hex_digit_value(c) {
                Some(v) => v,
                None => {
                    proof {
                        assert(!uuid_text_char_ok(s@, i as int));
                    }
                    return None;
                },
            };
            proof {
                let k = digit_index(i as int);
                assert(digit_pos(k) == i as int);
                assert(digit_index(i as int + 1) == k + 1);
                lemma_pow2_adds((4 * k) as nat, 4);
                lemma2_to64();
                if 4 * k + 4 < 128 {
                    lemma_pow2_strictly_increases((4 * k + 4) as nat, 128);
                }
                lemma_pow2_128_val();
            }
            acc = acc * 16 + (v as u128);
        }
        i += 1;
    }
    Some(acc)
}

/// The canonical text of any value is well-formed UUID text.
pub proof fn lemma_uuid_str_is_uuid_text(u: u128)
    ensures
        is_uuid_text(uuid_str(u)),
{
    assert forall|i: int| 0 <= i < 36 implies #[trigger] uuid_text_char_ok(uuid_str(u), i) by {
        if !is_hyphen_pos(i) {
            lemma_nibble_exec(u, digit_index(i));
        }
    }
}

proof fn lemma_digits_val_prefix(u: u128, k: int)
    requires
        0 <= k <= 32,
    ensures
        digits_val(uuid_str(u), k) == u as int / pow2((4 * (32 - k)) as nat) as int,
    decreases k,
{
    vstd::arithmetic::power2::lemma_pow2_pos((4 * (32 - k)) as nat);
    if k == 0 {
        lemma_pow2_128_val();
        assert(u as int / pow2(128) as int == 0) by {
            vstd::arithmetic::div_mod::lemma_basic_div(u as int, pow2(128) as int);
        }
    } else {
        lemma_digits_val_prefix(u, k - 1);
        let n = (4 * (32 - k)) as nat;
        vstd::arithmetic::power2::lemma_pow2_pos(n);
        lemma_pow2_adds(n, 4);
        lemma2_to64();
        let p = pow2(n) as int;
        let q = u as int / p;
        // The first k-1 digits hold the quotient by a further factor of 16.
        assert(digits_val(uuid_str(u), k - 1) == u as int / (p * 16)) by {
            assert(pow2(n + 4) == pow2(n) * 16);
            assert((4 * (32 - (k - 1))) as nat == n + 4);
        }
        assert(u as int / (p * 16) == q / 16) by {
            lemma_div_denominator(u as int, p, 16);
        }
        // Digit k-1 of the text is the low nibble of that quotient.
        let i = digit_pos(k - 1);
        assert(digit_index(i) == k - 1);
        assert(!is_hyphen_pos(i));
        assert(uuid_str(u)[i] == hex_char(nibble(u, k - 1)));
        assert(nibble(u, k - 1) == q % 16) by {
            assert((4 * (31 - (k - 1))) as nat == n);
        }
        lemma_nibble_exec(u, k - 1);
        assert(hex_val(hex_char(q % 16)) == q % 16);
        assert(q / 16 * 16 + q % 16 == q) by {
            lemma_fundamental_div_mod(q, 16);
        }
    }
}

/// Round trip: parsing the canonical text of a value yields the value itself.
pub proof fn lemma_uuid_round_trip(u: u128)
    ensures
        uuid_of(uuid_str(u)) == u as int,
{
    lemma_digits_val_prefix(u, 32);
    lemma2_to64();
    assert(u as int / pow2(0) as int == u as int) by {
        lemma_fundamental_div_mod(u as int, 1);
    }
}

/// A value whose version nibble is 4 shows the digit '4' at position 14 of its
/// canonical text, the version marker of a random identifier.
pub proof fn lemma_v4_marker(u: u128)
    requires
        (u >> 76) & 0xf == 4,
    ensures
        uuid_str(u)[14] == '4',
{
    lemma_nibble_exec(u, 12);
    assert((4 * (31 - 12)) as u128 == 76);
    assert(uuid_str(u)[14] == hex_char(nibble(u, 12)));
}

/// Relies on uuid::Uuid::new_v4, read out through Uuid::as_u128: a freshly
/// drawn random 128-bit value whose version nibble (bits 76..80) is 4 and
/// whose variant bits (bits 62..64) are the binary pattern 10.
#[verifier::external_body]
pub(crate) fn fresh_uuid_bits() -> (r: u128)
    ensures
        (r >> 76) & 0xf == 4,
        (r >> 62) & 3 == 2,
{
    uuid::Uuid::new_v4().as_u128()
}

} // verus!
