use vstd::prelude::*;

verus! {

/// The identifier of a text record: a UUID held as its 128-bit value
/// (the big-endian reading of its sixteen bytes).
#[derive(Clone, Copy, Debug, PartialEq, Eq, Hash, Structural)]
pub struct TextId {
    pub value: u128,
}

/// The bits that a random (version 4, RFC 4122 variant) UUID fixes.
pub const RANDOM_ID_MASK: u128 = 0xF000C000000000000000;

/// Their values in a random UUID: version nibble 4, variant bits `10`.
pub const RANDOM_ID_BITS: u128 = 0x40008000000000000000;

/// The value that `uuid::Uuid::try_parse` gives for a text, if it accepts it.
pub uninterp spec fn uuid_parsed(s: Seq<char>) -> Option<u128>;

/// Relies on `uuid::Uuid::try_parse` and `Uuid::as_u128`: parsing depends on
/// the text alone (simple, hyphenated, braced and URN forms are accepted).
#[verifier::external_body]
fn try_parse_uuid(s: &str) -> (r: Option<u128>)
    ensures
        r == uuid_parsed(s@),
{
    match uuid::Uuid::try_parse(s) {
        Ok(u) => Some(u.as_u128()),
        Err(_) => None,
    }
}

/// Relies on `uuid::Uuid::new_v4` and `Uuid::as_u128`: a random UUID whose
/// version and variant bits are set as for version 4.
#[verifier::external_body]
fn random_uuid() -> (r: u128)
    ensures
        r & RANDOM_ID_MASK == RANDOM_ID_BITS,
{
    uuid::Uuid::new_v4().as_u128()
}

/// The lower-case hexadecimal digit for `n` (below 16).
pub open spec fn hex_digit(n: u128) -> char {
    seq!['0', '1', '2', '3', '4', '5', '6', '7', '8', '9', 'a', 'b', 'c', 'd', 'e', 'f'][n as int]
}

/// The `d`-th of the 32 hexadecimal digits of `v`, most significant first.
pub open spec fn nibble(v: u128, d: int) -> u128 {
    (v >> ((124 - 4 * d) as u128)) & 0xf
}

/// Which digit stands at position `p` of the hyphenated form.
pub open spec fn digit_at(p: int) -> int {
    if p < 8 {
        p
    } else if p < 13 {
        p - 1
    } else if p < 18 {
        p - 2
    } else if p < 23 {
        p - 3
    } else {
        p - 4
    }
}

/// The hyphenated form of a UUID: its 32 lower-case hexadecimal digits, most
/// significant first, in groups of 8, 4, 4, 4 and 12 joined by hyphens.
pub open spec fn uuid_text(v: u128) -> Seq<char> {
    Seq::new(
        36,
        |p: int|
            if p == 8 || p == 13 || p == 18 || p == 23 {
                '-'
            } else {
                hex_digit(nibble(v, digit_at(p)))
            },
    )
}

/// Relies on `uuid::Uuid::from_u128` and the `Display` of `Uuid`: it writes
/// the hyphenated lower-case form.
#[verifier::external_body]
fn hyphenated_uuid(v: u128) -> (r: String)
    ensures
        r@ == uuid_text(v),
{
    uuid::Uuid::from_u128(v).to_string()
}

/// The identifier that `s` names, where it names one.
pub open spec fn parsed_id(s: Seq<char>) -> TextId {
    TextId { value: uuid_parsed(s)->0 }
}

impl TextId {
    /// Whether this identifier has the shape of a freshly generated one.
    pub open spec fn is_random(self) -> bool {
        self.value & RANDOM_ID_MASK == RANDOM_ID_BITS
    }

    /// A fresh random identifier.
    pub fn generate() -> (r: TextId)
        ensures
            r.is_random(),
    {
        TextId { value: random_uuid() }
    }

    /// The identifier's hyphenated text: the form in which it is answered,
    /// and the key of its cache entry.
    pub fn to_text(&self) -> (r: String)
        ensures
            r@ == uuid_text(self.value),
            r@.len() == 36,
    {
        hyphenated_uuid(self.value)
    }

    /// The identifier written in `s`; `None` when `s` is not a UUID.
    pub fn parse(s: &str) -> (r: Option<TextId>)
        ensures
            r is Some <==> uuid_parsed(s@) is Some,
            r is Some ==> r->0.value == uuid_parsed(s@)->0,
    {
        match try_parse_uuid(s) {
            Some(v) => Some(TextId { value: v }),
            None => None,
        }
    }
}

} // verus!
