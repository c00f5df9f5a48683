//! Identifiers of 128 bits: those of subscribers and those that correlate the
//! log lines of one request.

use crate::text::hex_digit;
use crate::text::hex_digit_text;
use vstd::prelude::*;
use vstd::string::StringExecFns;

verus! {

/// The bits of an identifier that say how it was made: the version, in the
/// high half of the seventh byte, and the variant, in the top two bits of the
/// ninth.
pub const KIND_MASK: u128 = 0x0000_0000_0000_f000_c000_0000_0000_0000;

/// What those bits hold in an identifier that was drawn at random: version 4
/// and the variant of RFC 4122.
pub const RANDOM_KIND: u128 = 0x0000_0000_0000_4000_8000_0000_0000_0000;

/// An identifier, held as the 128-bit number whose big-endian bytes are the
/// identifier's sixteen bytes.
#[derive(Clone, Copy, Debug, PartialEq, Eq, Structural)]
pub struct Id {
    pub value: u128,
}

/// The `k`-th group of four bits of `value`, counted from the most
/// significant one, for `k` from 0 to 31.
pub open spec fn nibble(value: u128, k: int) -> int {
    ((value >> (((31 - k) * 4) as u128)) & 0xf) as int
}

/// The hexadecimal digits of the groups `from` up to, not including, `to`.
pub open spec fn hex_run(value: u128, from: int, to: int) -> Seq<char> {
    Seq::new((to - from) as nat, |k: int| hex_digit(nibble(value, from + k)))
}

/// The usual text of an identifier: thirty-two lower-case hexadecimal digits,
/// most significant first, in five groups of 8, 4, 4, 4 and 12 digits that
/// hyphens separate.
pub open spec fn hyphenated_text(value: u128) -> Seq<char> {
    hex_run(value, 0, 8) + seq!['-'] + hex_run(value, 8, 12) + seq!['-'] + hex_run(value, 12, 16)
        + seq!['-'] + hex_run(value, 16, 20) + seq!['-'] + hex_run(value, 20, 32)
}

/// Appends the hexadecimal digits of the groups `from` up to `to`.
fn append_hex_run(text: &mut String, value: u128, from: u8, to: u8)
    requires
        from <= to <= 32,
    ensures
        final(text)@ == old(text)@ + hex_run(value, from as int, to as int),
{
    let mut k: u8 = from;
    assert(hex_run(value, from as int, from as int) =~= Seq::<char>::empty());
    while k < to
        invariant
            from <= k <= to <= 32,
            text@ == old(text)@ + hex_run(value, from as int, k as int),
        decreases to - k,
    {
        let shift: u128 = ((31 - k) * 4) as u128;
        let group: u128 = (value >> shift) & 0xf;
        assert(group < 16) by (bit_vector)
            requires
                group == (value >> shift) & 0xf,
        ;
        let digit: u8 = group as u8;
        text.append(hex_digit_text(digit));
        assert(hex_run(value, from as int, k as int + 1) =~= hex_run(value, from as int, k as int)
            + seq![hex_digit(nibble(value, k as int))]);
        k += 1;
    }
}

impl Id {
    /// Whether the identifier has the form of one drawn at random.
    pub open spec fn spec_is_random(&self) -> bool {
        self.value & KIND_MASK == RANDOM_KIND
    }

    /// The identifier with the given bits.
    pub fn from_u128(value: u128) -> (id: Id)
        ensures
            id.value == value,
    {
        Id { value }
    }

    /// The identifier's bits.
    pub fn as_u128(&self) -> (value: u128)
        ensures
            value == self.value,
    {
        self.value
    }

    /// Whether the identifier has the form of one drawn at random: version 4,
    /// variant of RFC 4122.
    #[verifier::when_used_as_spec(spec_is_random)]
    pub fn is_random(&self) -> (b: bool)
        ensures
            b == self.spec_is_random(),
    {
        self.value & KIND_MASK == RANDOM_KIND
    }

    /// The identifier's text, as log lines show it.
    pub fn hyphenated(&self) -> (text: String)
        ensures
            text@ == hyphenated_text(self.value),
    {
        let mut text = String::new();
        append_hex_run(&mut text, self.value, 0, 8);
        proof {
            reveal_strlit("-");
            assert("-"@ =~= seq!['-']);
        }
        text.append("-");
        append_hex_run(&mut text, self.value, 8, 12);
        text.append("-");
        append_hex_run(&mut text, self.value, 12, 16);
        text.append("-");
        append_hex_run(&mut text, self.value, 16, 20);
        text.append("-");
        append_hex_run(&mut text, self.value, 20, 32);
        assert(text@ =~= hyphenated_text(self.value));
        text
    }
}

/// Draws a new identifier at random.
///
/// Trusted: calls `uuid::Uuid::new_v4` and hands its bits out through
/// `Uuid::as_u128`. The contract claims what holds of every identifier that
/// `new_v4` makes, whatever the random bits were: the version is 4 and the
/// variant is that of RFC 4122. It claims nothing of the other 122 bits: two
/// calls may return the same identifier. `new_v4` panics where the operating
/// system hands out no random bytes.
#[verifier::external_body]
pub(crate) fn random_id() -> (id: Id)
    ensures
        id.is_random(),
{
    Id { value: uuid::Uuid::new_v4().as_u128() }
}

} // verus!
