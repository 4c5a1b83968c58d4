//! Identifiers of tasks, tenants and spans: 128-bit UUIDs.

use vstd::prelude::*;

verus! {

/// A UUID, as the number its sixteen bytes spell with the first byte highest.
#[derive(Clone, Copy, Debug, PartialEq, Eq, Structural)]
pub struct Uuid {
    pub bits: u128,
}

/// The lower-case hexadecimal digit `d`.
pub open spec fn hex_digit(d: nat) -> char {
    if d < 10 {
        (48 + d) as char
    } else {
        (87 + d) as char
    }
}

/// The last `width` hexadecimal digits of `n`, the highest first.
pub open spec fn hex_digits(n: nat, width: nat) -> Seq<char>
    decreases width,
{
    if width == 0 {
        Seq::empty()
    } else {
        hex_digits(n / 16, (width - 1) as nat).push(hex_digit(n % 16))
    }
}

/// The 32 hexadecimal digits of a UUID.
pub open spec fn simple_form(bits: u128) -> Seq<char> {
    hex_digits(bits as nat, 32)
}

/// The 32 hexadecimal digits of a UUID in groups of 8, 4, 4, 4 and 12.
pub open spec fn hyphenated_form(bits: u128) -> Seq<char> {
    let digits = simple_form(bits);
    digits.subrange(0, 8) + seq!['-'] + digits.subrange(8, 12) + seq!['-'] + digits.subrange(12, 16)
        + seq!['-'] + digits.subrange(16, 20) + seq!['-'] + digits.subrange(20, 32)
}

/// Whether the number is a random UUID: version 4, in the variant whose high
/// bits are one and zero.
pub open spec fn is_version_4(bits: u128) -> bool {
    &&& (bits / 0x1000_0000_0000_0000_0000) % 16 == 4
    &&& (bits / 0x4000_0000_0000_0000) % 4 == 2
}

/// `uuid::Uuid::new_v4` makes a random UUID. Of its bits only the version and
/// the variant are known; the others come from the system's random numbers.
#[verifier::external_body]
fn random_bits() -> (bits: u128)
    ensures
        is_version_4(bits),
{
    uuid::Uuid::new_v4().as_u128()
}

/// `uuid::Uuid::nil` is the UUID whose bits are all zero.
#[verifier::external_body]
fn nil_bits() -> (bits: u128)
    ensures
        bits == 0,
{
    uuid::Uuid::nil().as_u128()
}

/// `uuid::Uuid::simple` is written as the 32 lower-case hexadecimal digits.
#[verifier::external_body]
fn simple_text(bits: u128) -> (text: String)
    ensures
        text@ == simple_form(bits),
{
    uuid::Uuid::from_u128(bits).simple().to_string()
}

/// `uuid::Uuid` is written as the 32 lower-case hexadecimal digits in groups
/// of 8, 4, 4, 4 and 12, with a hyphen between two groups.
#[verifier::external_body]
fn hyphenated_text(bits: u128) -> (text: String)
    ensures
        text@ == hyphenated_form(bits),
{
    uuid::Uuid::from_u128(bits).to_string()
}

/// What `source` gives back, known to have come from it.
pub(crate) fn drawn<T, F: Fn() -> T>(source: F) -> (value: T)
    requires
        call_requires(source, ()),
    ensures
        call_ensures(source, (), value),
{
    source()
}

impl Uuid {
    /// A random UUID.
    pub fn new_v4() -> (id: Uuid)
        ensures
            is_version_4(id.bits),
    {
        Uuid { bits: random_bits() }
    }

    /// The UUID that stands for nobody.
    pub fn nil() -> (id: Uuid)
        ensures
            id.bits == 0,
    {
        Uuid { bits: nil_bits() }
    }

    /// The 32 hexadecimal digits.
    pub fn simple(&self) -> (text: String)
        ensures
            text@ == simple_form(self.bits),
    {
        simple_text(self.bits)
    }

    /// The usual form, in groups of 8, 4, 4, 4 and 12 digits.
    pub fn hyphenated(&self) -> (text: String)
        ensures
            text@ == hyphenated_form(self.bits),
    {
        hyphenated_text(self.bits)
    }
}

/// Sixteen to the power `width`: how many numbers so many hexadecimal digits can
/// write.
spec fn sixteen_to(width: nat) -> nat
    decreases width,
{
    if width == 0 {
        1
    } else {
        16 * sixteen_to((width - 1) as nat)
    }
}

proof fn lemma_hex_digits_tell_apart(left: nat, right: nat, width: nat)
    requires
        left < sixteen_to(width),
        right < sixteen_to(width),
        hex_digits(left, width) == hex_digits(right, width),
    ensures
        left == right,
    decreases width,
{
    if width > 0 {
        let narrower = (width - 1) as nat;
        let l = hex_digits(left, width);
        let r = hex_digits(right, width);
        assert(l.drop_last() =~= hex_digits(left / 16, narrower));
        assert(r.drop_last() =~= hex_digits(right / 16, narrower));
        assert(l.last() == hex_digit(left % 16));
        assert(r.last() == hex_digit(right % 16));
        lemma_hex_digits_tell_apart(left / 16, right / 16, narrower);
    }
}

/// The digits of a UUID are its own: no other UUID is written so.
pub proof fn law_digits_are_the_identifiers_own(left: Uuid, right: Uuid)
    requires
        left != right,
    ensures
        simple_form(left.bits) != simple_form(right.bits),
{
    assert(sixteen_to(32) > u128::MAX) by {
        reveal_with_fuel(sixteen_to, 33);
    }
    if simple_form(left.bits) == simple_form(right.bits) {
        lemma_hex_digits_tell_apart(left.bits as nat, right.bits as nat, 32);
    }
}

/// So many digits are written as were asked for.
pub proof fn law_hex_width(n: nat, width: nat)
    ensures
        hex_digits(n, width).len() == width,
    decreases width,
{
    if width > 0 {
        law_hex_width(n / 16, (width - 1) as nat);
    }
}

} // verus!
