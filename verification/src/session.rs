//! The session identifier: a random UUID in its usual text form.

use vstd::prelude::*;
use crate::decimal::digit_char;

verus! {

/// The bits of a 128-bit identifier that hold its version and its variant.
pub const VERSION_VARIANT_MASK: u128 = 0x0000_0000_0000_f000_c000_0000_0000_0000;

/// What those bits hold in a random identifier: version 4, variant `10`.
pub const RANDOM_VERSION_VARIANT: u128 = 0x0000_0000_0000_4000_8000_0000_0000_0000;

/// Whether `bits` carries the version and variant of a random identifier.
pub open spec fn is_random_version(bits: u128) -> bool {
    bits & VERSION_VARIANT_MASK == RANDOM_VERSION_VARIANT
}

/// The `k`-th group of four bits of `bits`, counted from the most
/// significant one, for `k` from 0 to 31.
pub open spec fn nibble(bits: u128, k: int) -> u128 {
    (bits >> ((124 - 4 * k) as u128)) & 0xf
}

/// The lower-case hexadecimal digit for `d`, for `d` below sixteen.
pub open spec fn hex_char(d: nat) -> char {
    if d < 10 {
        digit_char(d)
    } else if d == 10 {
        'a'
    } else if d == 11 {
        'b'
    } else if d == 12 {
        'c'
    } else if d == 13 {
        'd'
    } else if d == 14 {
        'e'
    } else {
        'f'
    }
}

/// Whether `c` is a lower-case hexadecimal digit.
pub open spec fn is_lower_hex(c: char) -> bool {
    exists|d: nat| d < 16 && c == #[trigger] hex_char(d)
}

/// The four places of the 36 at which the text form has a hyphen.
pub open spec fn is_hyphen_position(i: int) -> bool {
    i == 8 || i == 13 || i == 18 || i == 23
}

/// Which of the 32 hexadecimal digits stands at place `i` of the text
/// form, for a place that holds no hyphen.
pub open spec fn digit_index(i: int) -> int {
    if i < 8 {
        i
    } else if i < 13 {
        i - 1
    } else if i < 18 {
        i - 2
    } else if i < 23 {
        i - 3
    } else {
        i - 4
    }
}

/// The text form of a 128-bit identifier: its 32 hexadecimal digits in
/// lower case, most significant first, in groups of 8, 4, 4, 4 and 12
/// with a hyphen between two groups.
pub open spec fn hyphenated_text(bits: u128) -> Seq<char> {
    Seq::new(
        36,
        |i: int|
            if is_hyphen_position(i) {
                '-'
            } else {
                hex_char(nibble(bits, digit_index(i)) as nat)
            },
    )
}

/// Whether `s` is the text form of a random identifier: 36 characters,
/// hyphens at the four places and lower-case hexadecimal digits at the
/// others, the version digit `4`, and a variant digit from `8` to `b`.
pub open spec fn is_random_uuid_text(s: Seq<char>) -> bool {
    &&& s.len() == 36
    &&& forall|i: int|
        0 <= i < 36 ==> if is_hyphen_position(i) {
            #[trigger] s[i] == '-'
        } else {
            is_lower_hex(s[i])
        }
    &&& s[14] == '4'
    &&& (s[19] == '8' || s[19] == '9' || s[19] == 'a' || s[19] == 'b')
}

/// The text form of an identifier with the random version and variant is
/// the text form of a random identifier.
pub proof fn lemma_random_text_shape(bits: u128)
    requires
        is_random_version(bits),
    ensures
        is_random_uuid_text(hyphenated_text(bits)),
{
    let s = hyphenated_text(bits);
    assert forall|i: int| 0 <= i < 36 && !is_hyphen_position(i) implies is_lower_hex(
        #[trigger] s[i],
    ) by {
        let shift = (124 - 4 * digit_index(i)) as u128;
        let d = (bits >> shift) & 0xf;
        assert(d < 16) by (bit_vector)
            requires
                d == (bits >> shift) & 0xf,
        ;
        assert(s[i] == hex_char(d as nat));
    }
    assert((bits >> 76u128) & 0xf == 4) by (bit_vector)
        requires
            bits & 0x0000_0000_0000_f000_c000_0000_0000_0000
                == 0x0000_0000_0000_4000_8000_0000_0000_0000,
    ;
    assert(8 <= (bits >> 60u128) & 0xf <= 11) by (bit_vector)
        requires
            bits & 0x0000_0000_0000_f000_c000_0000_0000_0000
                == 0x0000_0000_0000_4000_8000_0000_0000_0000,
    ;
    assert(s[14] == hex_char(nibble(bits, 12) as nat));
    assert(s[19] == hex_char(nibble(bits, 16) as nat));
}

/// A hexadecimal digit determines the number it stands for.
proof fn lemma_hex_char_injective(d: nat, e: nat)
    requires
        d < 16,
        e < 16,
        hex_char(d) == hex_char(e),
    ensures
        d == e,
{
}

/// Identifiers with the same text form are the same identifier: the text
/// form loses nothing of the 128 bits.
pub proof fn lemma_hyphenated_text_injective(a: u128, b: u128)
    requires
        hyphenated_text(a) == hyphenated_text(b),
    ensures
        a == b,
{
    assert forall|k: int| 0 <= k < 32 implies #[trigger] nibble(a, k) == nibble(b, k) by {
        let i = if k < 8 {
            k
        } else if k < 12 {
            k + 1
        } else if k < 16 {
            k + 2
        } else if k < 20 {
            k + 3
        } else {
            k + 4
        };
        assert(digit_index(i) == k && !is_hyphen_position(i));
        let shift = (124 - 4 * k) as u128;
        let d = (a >> shift) & 0xf;
        let e = (b >> shift) & 0xf;
        assert(d < 16 && e < 16) by (bit_vector)
            requires
                d == (a >> shift) & 0xf,
                e == (b >> shift) & 0xf,
        ;
        assert(hyphenated_text(a)[i] == hex_char(d as nat));
        assert(hyphenated_text(b)[i] == hex_char(e as nat));
        lemma_hex_char_injective(d as nat, e as nat);
    }
    lemma_equal_nibbles(a, b);
}

/// Numbers that agree in each of their 32 groups of four bits are equal.
proof fn lemma_equal_nibbles(a: u128, b: u128)
    requires
        forall|k: int| 0 <= k < 32 ==> #[trigger] nibble(a, k) == nibble(b, k),
    ensures
        a == b,
{
    assert(nibble(a, 0) == nibble(b, 0)
        && nibble(a, 1) == nibble(b, 1)
        && nibble(a, 2) == nibble(b, 2)
        && nibble(a, 3) == nibble(b, 3));
    assert(nibble(a, 4) == nibble(b, 4)
        && nibble(a, 5) == nibble(b, 5)
        && nibble(a, 6) == nibble(b, 6)
        && nibble(a, 7) == nibble(b, 7));
    assert(nibble(a, 8) == nibble(b, 8)
        && nibble(a, 9) == nibble(b, 9)
        && nibble(a, 10) == nibble(b, 10)
        && nibble(a, 11) == nibble(b, 11));
    assert(nibble(a, 12) == nibble(b, 12)
        && nibble(a, 13) == nibble(b, 13)
        && nibble(a, 14) == nibble(b, 14)
        && nibble(a, 15) == nibble(b, 15));
    assert(nibble(a, 16) == nibble(b, 16)
        && nibble(a, 17) == nibble(b, 17)
        && nibble(a, 18) == nibble(b, 18)
        && nibble(a, 19) == nibble(b, 19));
    assert(nibble(a, 20) == nibble(b, 20)
        && nibble(a, 21) == nibble(b, 21)
        && nibble(a, 22) == nibble(b, 22)
        && nibble(a, 23) == nibble(b, 23));
    assert(nibble(a, 24) == nibble(b, 24)
        && nibble(a, 25) == nibble(b, 25)
        && nibble(a, 26) == nibble(b, 26)
        && nibble(a, 27) == nibble(b, 27));
    assert(nibble(a, 28) == nibble(b, 28)
        && nibble(a, 29) == nibble(b, 29)
        && nibble(a, 30) == nibble(b, 30)
        && nibble(a, 31) == nibble(b, 31));
    assert(a == b) by (bit_vector)
        requires
            (a >> 124u128) & 0xf == (b >> 124u128) & 0xf,
            (a >> 120u128) & 0xf == (b >> 120u128) & 0xf,
            (a >> 116u128) & 0xf == (b >> 116u128) & 0xf,
            (a >> 112u128) & 0xf == (b >> 112u128) & 0xf,
            (a >> 108u128) & 0xf == (b >> 108u128) & 0xf,
            (a >> 104u128) & 0xf == (b >> 104u128) & 0xf,
            (a >> 100u128) & 0xf == (b >> 100u128) & 0xf,
            (a >> 96u128) & 0xf == (b >> 96u128) & 0xf,
            (a >> 92u128) & 0xf == (b >> 92u128) & 0xf,
            (a >> 88u128) & 0xf == (b >> 88u128) & 0xf,
            (a >> 84u128) & 0xf == (b >> 84u128) & 0xf,
            (a >> 80u128) & 0xf == (b >> 80u128) & 0xf,
            (a >> 76u128) & 0xf == (b >> 76u128) & 0xf,
            (a >> 72u128) & 0xf == (b >> 72u128) & 0xf,
            (a >> 68u128) & 0xf == (b >> 68u128) & 0xf,
            (a >> 64u128) & 0xf == (b >> 64u128) & 0xf,
            (a >> 60u128) & 0xf == (b >> 60u128) & 0xf,
            (a >> 56u128) & 0xf == (b >> 56u128) & 0xf,
            (a >> 52u128) & 0xf == (b >> 52u128) & 0xf,
            (a >> 48u128) & 0xf == (b >> 48u128) & 0xf,
            (a >> 44u128) & 0xf == (b >> 44u128) & 0xf,
            (a >> 40u128) & 0xf == (b >> 40u128) & 0xf,
            (a >> 36u128) & 0xf == (b >> 36u128) & 0xf,
            (a >> 32u128) & 0xf == (b >> 32u128) & 0xf,
            (a >> 28u128) & 0xf == (b >> 28u128) & 0xf,
            (a >> 24u128) & 0xf == (b >> 24u128) & 0xf,
            (a >> 20u128) & 0xf == (b >> 20u128) & 0xf,
            (a >> 16u128) & 0xf == (b >> 16u128) & 0xf,
            (a >> 12u128) & 0xf == (b >> 12u128) & 0xf,
            (a >> 8u128) & 0xf == (b >> 8u128) & 0xf,
            (a >> 4u128) & 0xf == (b >> 4u128) & 0xf,
            (a >> 0u128) & 0xf == (b >> 0u128) & 0xf,
    ;
}

/// `uuid::Uuid::new_v4`, with the identifier handed over as a number by
/// `uuid::Uuid::as_u128`. The identifier is random; what is claimed
/// of each outcome is that the version bits are `0100` and the two
/// variant bits `10`, which `new_v4` sets by masking its random number.
/// It panics where the operating system cannot supply random bytes.
#[verifier::external_body]
fn random_uuid_bits() -> (bits: u128)
    ensures
        is_random_version(bits),
{
    uuid::Uuid::new_v4().as_u128()
}

/// `ToString::to_string` of the `uuid::Uuid` that `uuid::Uuid::from_u128`
/// makes of `bits`. Its `Display` writes the hyphenated lower-case form:
/// each byte, most significant first, as two hexadecimal digits, with
/// hyphens after the digits 8, 12, 16 and 20.
#[verifier::external_body]
fn hyphenated_string(bits: u128) -> (text: String)
    ensures
        text@ == hyphenated_text(bits),
{
    uuid::Uuid::from_u128(bits).to_string()
}

/// A fresh session identifier: a random UUID in text form. Which one is
/// not determined; two calls are expected to differ, and nothing here
/// promises that they do. It panics where the operating system cannot
/// supply random bytes.
pub fn generate_unique_id() -> (id: String)
    ensures
        is_random_uuid_text(id@),
        exists|bits: u128| is_random_version(bits) && id@ == #[trigger] hyphenated_text(bits),
{
    let bits = random_uuid_bits();
    proof {
        lemma_random_text_shape(bits);
    }
    hyphenated_string(bits)
}

} // verus!
