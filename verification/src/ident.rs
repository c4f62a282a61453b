//! Identifiers of person records: 128-bit values and their canonical text.

use uuid::Uuid;
use vstd::prelude::*;

verus! {

/// The `k`-th hexadecimal digit of `bits`, counted from the most significant
/// one, for `k` from 0 to 31.
pub open spec fn hex_digit(bits: u128, k: int) -> int {
    (bits as int / vstd::arithmetic::power::pow(16, (31 - k) as nat)) % 16
}

/// The lower-case character that writes the hexadecimal digit `n`.
pub open spec fn hex_char(n: int) -> char {
    if n < 10 {
        ('0' as int + n) as char
    } else {
        ('a' as int + n - 10) as char
    }
}

/// Whether `bits` carries the marks of a randomly generated identifier: its
/// version digit, the 13th, is 4, and its variant digit, the 17th, is 8, 9, a
/// or b (the two highest bits of that digit are `10`).
pub open spec fn is_random_id(bits: u128) -> bool {
    hex_digit(bits, 12) == 4 && 8 <= hex_digit(bits, 16) <= 11
}

/// The positions of the four hyphens in the canonical text.
pub open spec fn is_hyphen_position(i: int) -> bool {
    i == 8 || i == 13 || i == 18 || i == 23
}

/// How many hexadecimal digits the canonical text holds before position `i`.
pub open spec fn digits_before(i: int) -> int {
    if i < 8 {
        i
    } else if i < 13 {
        i - 1
    } else if i < 18 {
        i - 2
    } else if i < 23 {
        i - 3
    } else {
        i - 4
    }
}

/// The canonical text of an identifier: its 32 hexadecimal digits in lower
/// case, most significant first, in groups of 8, 4, 4, 4 and 12 joined by
/// hyphens.
pub open spec fn id_text(bits: u128) -> Seq<char> {
    Seq::new(
        36,
        |i: int|
            if is_hyphen_position(i) {
                '-'
            } else {
                hex_char(hex_digit(bits, digits_before(i)))
            },
    )
}

/// The canonical text of a random identifier shows its marks: a `4` opens the
/// third group, and `8`, `9`, `a` or `b` opens the fourth.
pub proof fn lemma_random_id_text(bits: u128)
    requires
        is_random_id(bits),
    ensures
        id_text(bits).len() == 36,
        id_text(bits)[14] == '4',
        id_text(bits)[19] == '8' || id_text(bits)[19] == '9' || id_text(bits)[19] == 'a'
            || id_text(bits)[19] == 'b',
{
}

/// The identifier that the uuid crate reads from a text, or `None` where it
/// rejects the text.
pub uninterp spec fn id_of_text(text: Seq<char>) -> Option<u128>;

/// The error with which the uuid crate rejects a text.
#[verifier::external_type_specification]
#[verifier::external_body]
pub struct ExUuidError(uuid::Error);

/// `Uuid::new_v4` of the uuid crate, as the 128-bit number of the identifier
/// it made. The value is random; the contract claims only what the crate
/// gives every such value: version 4 in bits 76 to 79, and the RFC variant,
/// binary `10`, in bits 62 and 63.
#[verifier::external_body]
fn uuid_new_v4() -> (bits: u128)
    ensures
        is_random_id(bits),
{
    Uuid::new_v4().as_u128()
}

/// The hyphenated `Display` of the uuid crate, asked of the identifier with
/// the given number. The contract claims that the text is the canonical
/// lower-case form, and that the crate's own reader accepts it and gives the
/// same identifier back.
#[verifier::external_body]
fn uuid_hyphenated(bits: u128) -> (s: String)
    ensures
        s@ == id_text(bits),
        id_of_text(s@) == Some(bits),
{
    Uuid::from_u128(bits).hyphenated().to_string()
}

/// `Uuid::parse_str` of the uuid crate, with the identifier it read handed
/// back as its 128-bit number. The contract only names the result: what the
/// crate accepts is decided by the crate.
#[verifier::external_body]
fn uuid_parse_str(text: &str) -> (r: Result<u128, uuid::Error>)
    ensures
        r.is_ok() == id_of_text(text@).is_some(),
        r.is_ok() ==> Some(r.unwrap()) == id_of_text(text@),
{
    Uuid::parse_str(text).map(|u| u.as_u128())
}

/// The identifier of a person record.
#[derive(Clone, Copy, Debug, PartialEq, Eq, Structural)]
pub struct Id {
    pub bits: u128,
}

impl Id {
    /// A fresh random identifier.
    pub fn generate() -> (id: Id)
        ensures
            is_random_id(id.bits),
    {
        Id { bits: uuid_new_v4() }
    }

    /// The identifier that `text` writes, where the text is one.
    pub fn parse(text: &str) -> (r: Option<Id>)
        ensures
            r.is_some() == id_of_text(text@).is_some(),
            r.is_some() ==> Some(r.unwrap().bits) == id_of_text(text@),
    {
        match uuid_parse_str(text) {
            Ok(bits) => Some(Id { bits }),
            Err(_) => None,
        }
    }

    /// The canonical text of the identifier. It is 36 characters long, and
    /// [`Id::parse`] reads it back as this identifier.
    pub fn to_text(&self) -> (s: String)
        ensures
            s@ == id_text(self.bits),
            s@.len() == 36,
            id_of_text(s@) == Some(self.bits),
    {
        uuid_hyphenated(self.bits)
    }
}

} // verus!
