//! Opaque 128-bit identifiers and their textual form.

use vstd::prelude::*;

verus! {

/// An opaque 128-bit identifier of a user, a book, a reading session or a
/// ledger entry. Nothing in the tracker interprets its bits.
#[derive(Clone, Copy, Debug, PartialEq, Eq, Structural)]
pub struct Id {
    pub value: u128,
}

/// What `uuid::Uuid::parse_str` makes of a text: the 128-bit value of the
/// identifier that it denotes, or `None` where the text denotes none.
pub uninterp spec fn parsed_uuid(text: Seq<char>) -> Option<u128>;

/// The sixteen lower-case hexadecimal digits.
pub open spec fn hex_digit(n: int) -> char {
    seq!['0', '1', '2', '3', '4', '5', '6', '7', '8', '9', 'a', 'b', 'c', 'd', 'e', 'f'][n]
}

/// The `k`-th of the 32 hexadecimal digits of `v`, the most significant first.
pub open spec fn nibble(v: u128, k: int) -> int {
    ((v >> ((4 * (31 - k)) as u128)) & 0xf) as int
}

/// How many hyphens stand before position `i` of the hyphenated form.
pub open spec fn hyphens_before(i: int) -> int {
    if i < 8 {
        0
    } else if i < 13 {
        1
    } else if i < 18 {
        2
    } else if i < 23 {
        3
    } else {
        4
    }
}

/// The canonical text of a 128-bit identifier: its 32 lower-case hexadecimal
/// digits in groups of 8, 4, 4, 4 and 12, with a hyphen between the groups.
pub open spec fn hyphenated(v: u128) -> Seq<char> {
    Seq::new(
        36,
        |i: int|
            if i == 8 || i == 13 || i == 18 || i == 23 {
                '-'
            } else {
                hex_digit(nibble(v, i - hyphens_before(i)))
            },
    )
}

/// Calls `uuid::Uuid::parse_str` and hands back the value of the identifier
/// as `Uuid::as_u128` gives it. The contract only names the outcome.
#[verifier::external_body]
fn uuid_parse(text: &str) -> (r: Option<u128>)
    ensures
        r == parsed_uuid(text@),
{
    match uuid::Uuid::parse_str(text) {
        Ok(id) => Some(id.as_u128()),
        Err(_) => None,
    }
}

/// Calls `to_string` on the `uuid::Uuid` made by `Uuid::from_u128`. The
/// contract claims that the text is the lower-case hyphenated form, and
/// that `Uuid::parse_str` reads the identifier back from it.
#[verifier::external_body]
fn uuid_text(value: u128) -> (r: String)
    ensures
        r@ == hyphenated(value),
        parsed_uuid(r@) == Some(value),
{
    uuid::Uuid::from_u128(value).to_string()
}

/// Calls `uuid::Uuid::new_v4`, which draws a random identifier. The contract
/// claims only the version and variant bits that every such identifier has.
#[verifier::external_body]
fn uuid_random() -> (r: u128)
    ensures
        nibble(r, 12) == 4,
        8 <= nibble(r, 16) < 12,
{
    uuid::Uuid::new_v4().as_u128()
}

impl Id {
    /// The identifier that a text denotes, if it denotes one.
    pub open spec fn parsed(text: Seq<char>) -> Option<Id> {
        match parsed_uuid(text) {
            Some(value) => Some(Id { value }),
            None => None,
        }
    }

    /// The canonical text of this identifier.
    pub open spec fn text(self) -> Seq<char> {
        hyphenated(self.value)
    }

    /// Reads an identifier from its textual form.
    pub fn parse(text: &str) -> (r: Option<Id>)
        ensures
            r == Id::parsed(text@),
    {
        match uuid_parse(text) {
            Some(value) => Some(Id { value }),
            None => None,
        }
    }

    /// Writes the identifier in its canonical textual form, from which
    /// `parse` reads it back.
    pub fn to_string(&self) -> (r: String)
        ensures
            r@ == self.text(),
            r@.len() == 36,
            Id::parsed(r@) == Some(*self),
    {
        uuid_text(self.value)
    }

    /// Whether the identifier has the form of a random one: its thirteenth
    /// hexadecimal digit is 4 and its seventeenth is 8, 9, a or b.
    pub open spec fn is_random(self) -> bool {
        nibble(self.value, 12) == 4 && 8 <= nibble(self.value, 16) < 12
    }

    /// Draws a fresh random identifier.
    pub fn random() -> (r: Id)
        ensures
            r.is_random(),
    {
        Id { value: uuid_random() }
    }
}

} // verus!
