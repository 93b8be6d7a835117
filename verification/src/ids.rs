//! Migration ids: random version 4 UUIDs, held as their 128 bits, and their hyphenated text.

use vstd::prelude::*;

use crate::text::push_char;

verus! {

/// A fresh migration id: the 128 bits of a random (version 4) UUID from `uuid::Uuid::new_v4`.
///
/// Trusted, with nothing stated of the value: it is random.
#[verifier::external_body]
pub(crate) fn fresh_id() -> u128 {
    uuid::Uuid::new_v4().as_u128()
}

/// The `k`-th hexadecimal digit of `id`, counting from the most significant one (`k` in `0..32`).
pub open spec fn nibble(id: u128, k: int) -> u8 {
    ((id >> ((124 - 4 * k) as u32)) & 0xf) as u8
}

/// The lowercase hexadecimal digit for `n` (`n < 16`).
pub open spec fn hex_digit(n: u8) -> char {
    if n < 10 {
        (48 + n) as char
    } else {
        (87 + n) as char
    }
}

/// Whether position `p` of the hyphenated form holds a hyphen.
pub open spec fn is_hyphen_at(p: int) -> bool {
    p == 8 || p == 13 || p == 18 || p == 23
}

/// Which digit stands at position `p` of the hyphenated form: `p` less the hyphens before it.
pub open spec fn digit_at(p: int) -> int {
    if p < 8 {
        p
    } else if p < 13 {
        p - 1
    } else if p < 18 {
        p - 2
    } else if p < 23 {
        p - 3
    } else {
        p - 4
    }
}

/// The hyphenated text of the UUID with these 128 bits: its 32 lowercase hexadecimal digits,
/// most significant first, in groups of 8, 4, 4, 4 and 12 joined by hyphens.
pub open spec fn uuid_text(id: u128) -> Seq<char> {
    Seq::new(36, |p: int| if is_hyphen_at(p) { '-' } else { hex_digit(nibble(id, digit_at(p))) })
}

/// The lowercase hexadecimal digit for `n`.
fn hex_char(n: u8) -> (c: char)
    requires
        n < 16,
    ensures
        c == hex_digit(n),
{
    if n < 10 {
        (48 + n) as char
    } else {
        (87 + n) as char
    }
}

/// The hyphenated text of migration id `id`, as `uuid::Uuid`'s `Display` writes it.
pub fn id_text(id: u128) -> (r: String)
    ensures
        r@ == uuid_text(id),
{
    let mut text = String::new();
    let mut p: usize = 0;
    while p < 36
        invariant
            p <= 36,
            text@ == uuid_text(id).take(p as int),
        decreases 36 - p,
    {
        let c = if p == 8 || p == 13 || p == 18 || p == 23 {
            '-'
        } else {
            let k: u32 = if p < 8 {
                p as u32
            } else if p < 13 {
                (p - 1) as u32
            } else if p < 18 {
                (p - 2) as u32
            } else if p < 23 {
                (p - 3) as u32
            } else {
                (p - 4) as u32
            };
            let shift: u32 = 124 - 4 * k;
            let digit: u128 = (id >> shift) & 0xf;
            assert(digit < 16) by (bit_vector)
                requires
                    digit == (id >> shift) & 0xf,
            ;
            hex_char(digit as u8)
        };
        proof {
            assert(c == uuid_text(id)[p as int]);
        }
        push_char(&mut text, c);
        p = p + 1;
        proof {
            assert(text@ =~= uuid_text(id).take(p as int));
        }
    }
    proof {
        assert(uuid_text(id).take(36) =~= uuid_text(id));
    }
    text
}

} // verus!
