//! Identities of tasks, chats and messages.

use vstd::prelude::*;

verus! {

/// The identity of one task: a 128-bit value drawn at random.
#[derive(Debug, Clone, Copy, PartialEq, Eq, Structural, Hash)]
pub struct TaskId {
    pub uuid: u128,
}

/// The conversation a task belongs to.
#[derive(Debug, Clone, Copy, PartialEq, Eq, Structural, Hash)]
pub struct ChatId(pub i64);

/// One message inside a conversation.
#[derive(Debug, Clone, Copy, PartialEq, Eq, Structural, Hash)]
pub struct MessageId(pub i32);

/// The version and variant bits that every random identity carries:
/// version 4 in bits 76 to 79 and the variant `10` in bits 62 and 63.
pub open spec fn is_random_uuid(v: u128) -> bool {
    v & 0xF000_C000_0000_0000_0000u128 == 0x4000_8000_0000_0000_0000u128
}

/// The lower-case hexadecimal digit of `n`, for `n` below 16.
pub open spec fn hex_digit(n: int) -> char {
    "0123456789abcdef"@[n]
}

/// The `k`-th hexadecimal digit of `v`, counted from the most significant.
pub open spec fn nibble(v: u128, k: int) -> int {
    (v as int / vstd::arithmetic::power::pow(16, (31 - k) as nat)) % 16
}

/// The number of hyphens that stand before position `i` of the text form.
pub open spec fn hyphens_before(i: int) -> int {
    if i < 8 {
        0
    } else if i < 13 {
        1
    } else if i < 18 {
        2
    } else if i < 23 {
        3
    } else {
        4
    }
}

/// The text form of an identity: 32 lower-case hexadecimal digits, most
/// significant first, in groups of 8, 4, 4, 4 and 12 joined by hyphens.
pub open spec fn hyphenated(v: u128) -> Seq<char> {
    Seq::new(
        36,
        |i: int|
            if i == 8 || i == 13 || i == 18 || i == 23 {
                '-'
            } else {
                hex_digit(nibble(v, i - hyphens_before(i)))
            },
    )
}

/// `uuid::Uuid::new_v4`: a fresh random identity. Only the fixed version
/// and variant bits are known of it.
#[verifier::external_body]
fn random_uuid() -> (v: u128)
    ensures
        is_random_uuid(v),
{
    uuid::Uuid::new_v4().as_u128()
}

/// `uuid::Uuid`'s `Display`: the hyphenated lower-case form of the value
/// that `Uuid::from_u128` holds.
#[verifier::external_body]
fn uuid_text(v: u128) -> (text: String)
    ensures
        text@ == hyphenated(v),
{
    uuid::Uuid::from_u128(v).to_string()
}

impl TaskId {
    /// A fresh identity.
    pub fn new() -> (id: TaskId)
        ensures
            is_random_uuid(id.uuid),
    {
        TaskId { uuid: random_uuid() }
    }

    /// The hyphenated text form, as used in paths and logs.
    pub fn to_string(&self) -> (text: String)
        ensures
            text@ == hyphenated(self.uuid),
            text@.len() == 36,
    {
        uuid_text(self.uuid)
    }
}

} // verus!
