//! Canonical identifiers, held as their 128-bit value.
use vstd::arithmetic::power2::pow2;
use vstd::prelude::*;

verus! {

/// A canonical (UUID-shaped) identifier of a recording or an artist.
#[derive(Debug, Clone, Copy, PartialEq, Eq, Structural)]
pub struct Mbid {
    pub value: u128,
}

/// What `uuid::Uuid::parse_str` makes of a text: the identifier's value, or nothing.
pub uninterp spec fn uuid_of(s: Seq<char>) -> Option<u128>;

/// Lower-case hexadecimal digit of `d` (0 to 15).
pub open spec fn hex_digit(d: int) -> char {
    seq!['0', '1', '2', '3', '4', '5', '6', '7', '8', '9', 'a', 'b', 'c', 'd', 'e', 'f'][d]
}

/// The `i`-th of the 32 hexadecimal digits of `v`, most significant first.
pub open spec fn nibble(v: u128, i: int) -> int {
    (v as int / pow2((4 * (31 - i)) as nat) as int) % 16
}

/// Number of hyphens before position `k` of the hyphenated form.
pub open spec fn hyphens_before(k: int) -> int {
    if k > 23 { 4 } else if k > 18 { 3 } else if k > 13 { 2 } else if k > 8 { 1 } else { 0 }
}

/// The hyphenated lower-case form, 8-4-4-4-12 digits.
pub open spec fn hyphenated(v: u128) -> Seq<char> {
    Seq::new(
        36,
        |k: int|
            if k == 8 || k == 13 || k == 18 || k == 23 {
                '-'
            } else {
                hex_digit(nibble(v, k - hyphens_before(k)))
            },
    )
}

/// Relies on `uuid::Uuid::parse_str`: parses a textual identifier.
#[verifier::external_body]
fn uuid_parse(s: &str) -> (r: Option<u128>)
    ensures
        r == uuid_of(s@),
{
    uuid::Uuid::parse_str(s).ok().map(|u| u.as_u128())
}

/// Relies on `Display` of `uuid::Uuid`: the hyphenated lower-case form.
#[verifier::external_body]
fn uuid_text(v: u128) -> (r: String)
    ensures
        r@ == hyphenated(v),
{
    uuid::Uuid::from_u128(v).to_string()
}

impl Mbid {
    pub open spec fn text(self) -> Seq<char> {
        hyphenated(self.value)
    }

    /// Parses a textual identifier; `None` when it is not well formed.
    pub fn parse(s: &str) -> (r: Option<Mbid>)
        ensures
            r == (match uuid_of(s@) {
                Some(v) => Some(Mbid { value: v }),
                None => None,
            }),
    {
        match uuid_parse(s) {
            Some(v) => Some(Mbid { value: v }),
            None => None,
        }
    }

    pub fn from_u128(value: u128) -> (r: Mbid)
        ensures
            r.value == value,
    {
        Mbid { value }
    }

    /// The hyphenated lower-case text of the identifier.
    pub fn to_string(&self) -> (r: String)
        ensures
            r@ == self.text(),
            r@.len() == 36,
    {
        uuid_text(self.value)
    }
}

} // verus!
