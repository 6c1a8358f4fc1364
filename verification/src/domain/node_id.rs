use std::str::FromStr;

use uuid::Uuid;
use vstd::prelude::*;

verus! {

/// The lower-case hexadecimal digit for `d` (`0 <= d < 16`).
pub open spec fn hex_digit(d: int) -> char {
    seq!['0', '1', '2', '3', '4', '5', '6', '7', '8', '9', 'a', 'b', 'c', 'd', 'e', 'f'][d]
}

/// The `k`-th hexadecimal digit of `value`, counted from the most
/// significant end (`0 <= k < 32`).
pub open spec fn nibble(value: u128, k: int) -> int {
    ((value >> ((124 - 4 * k) as u128)) & 0xfu128) as int
}

/// The positions of the four hyphens in the hyphenated UUID text.
pub open spec fn is_hyphen_position(i: int) -> bool {
    i == 8 || i == 13 || i == 18 || i == 23
}

/// Which hexadecimal digit of the value stands at text position `i`,
/// skipping the hyphens before it.
pub open spec fn digit_position(i: int) -> int {
    if i < 8 {
        i
    } else if i < 13 {
        i - 1
    } else if i < 18 {
        i - 2
    } else if i < 23 {
        i - 3
    } else {
        i - 4
    }
}

/// The hyphenated, lower-case text of a UUID value: 32 hexadecimal
/// digits, most significant first, in groups of 8-4-4-4-12.
pub open spec fn hyphenated_text(value: u128) -> Seq<char> {
    Seq::new(
        36,
        |i: int|
            if is_hyphen_position(i) {
                '-'
            } else {
                hex_digit(nibble(value, digit_position(i)))
            },
    )
}

/// A random (version 4, RFC 4122 variant) UUID value: version nibble 4,
/// variant bits `10`.
pub open spec fn is_random_v4(value: u128) -> bool {
    &&& (value >> 76u128) & 0xfu128 == 4
    &&& (value >> 62u128) & 0x3u128 == 2
}

/// What `uuid::Uuid::parse_str` yields for a text, as the 128-bit value
/// of the UUID, or `None` where it reports an error.
pub uninterp spec fn uuid_parse(text: Seq<char>) -> Option<u128>;

/// The 128-bit value of a `uuid::Uuid` (`Uuid::as_u128`).
pub uninterp spec fn uuid_value(id: Uuid) -> u128;

/// Calls `uuid::Uuid::new_v4` and takes the result's 128-bit value.
/// Claims only what the crate's source sets on every call: the version
/// nibble is 4 and the variant bits are `10`; the other bits are random.
#[verifier::external_body]
pub(crate) fn random_v4_value() -> (value: u128)
    ensures
        is_random_v4(value),
{
    Uuid::new_v4().as_u128()
}

/// Formats the UUID of `value` with `uuid::Uuid`'s `Display` (the
/// hyphenated lower-case form). Claims that the text is exactly
/// `hyphenated_text(value)` and that `Uuid::parse_str`, which accepts
/// every format this crate generates, reads it back as `value`.
#[verifier::external_body]
pub(crate) fn uuid_text(value: u128) -> (text: String)
    ensures
        text@ == hyphenated_text(value),
        uuid_parse(text@) == Some(value),
{
    Uuid::from_u128(value).to_string()
}

/// Calls `uuid::Uuid::parse_str` and takes the parsed UUID's value.
/// Claims that it succeeds exactly where `uuid_parse` gives a value,
/// and with that value.
#[verifier::external_body]
fn uuid_parse_str(text: &str) -> (parsed: Result<u128, uuid::Error>)
    ensures
        match parsed {
            Ok(value) => uuid_parse(text@) == Some(value),
            Err(_) => uuid_parse(text@) is None,
        },
{
    match Uuid::parse_str(text) {
        Ok(id) => Ok(id.as_u128()),
        Err(e) => Err(e),
    }
}

/// Calls `uuid::Uuid::as_u128`: the UUID's value. Claims too that no
/// other UUID has that value (a UUID is its 16 bytes, and `as_u128`
/// reads all of them).
#[verifier::external_body]
pub(crate) fn uuid_to_value(id: Uuid) -> (value: u128)
    ensures
        value == uuid_value(id),
        forall|other: Uuid| uuid_value(other) == value ==> other == id,
{
    id.as_u128()
}

/// Calls `uuid::Uuid::from_u128`. Claims the UUID built has the given
/// value (`as_u128` reads back the big-endian bytes `from_u128` wrote),
/// and is the only UUID with that value.
#[verifier::external_body]
pub(crate) fn uuid_from_value(value: u128) -> (id: Uuid)
    ensures
        uuid_value(id) == value,
        forall|other: Uuid| uuid_value(other) == value ==> other == id,
{
    Uuid::from_u128(value)
}

/// A node's long-term identity: a UUID, held as its 128-bit value so
/// that its text and its equality can be reasoned about.
#[derive(Debug, Clone, Copy, PartialEq, Eq, Hash, Structural)]
pub struct NodeId {
    value: u128,
}

impl View for NodeId {
    type V = u128;

    closed spec fn view(&self) -> u128 {
        self.value
    }
}

impl NodeId {
    /// The identity whose UUID value is `value`.
    pub closed spec fn with_value(value: u128) -> NodeId {
        NodeId { value }
    }

    /// The identity a text denotes, if `uuid::Uuid::parse_str` accepts it.
    pub open spec fn spec_parse(text: Seq<char>) -> Option<NodeId> {
        match uuid_parse(text) {
            Some(value) => Some(NodeId::with_value(value)),
            None => None,
        }
    }

    /// Law: reading an identity agrees with `uuid::Uuid::parse_str` on
    /// every text: where the UUID parser accepts a text with value `v`
    /// (whatever its spelling: upper or lower case, simple, hyphenated,
    /// braced or URN), the text denotes the identity with value `v`, and
    /// where the parser rejects it, the text denotes no identity.
    pub proof fn lemma_parse_agrees_with_uuid(text: Seq<char>, value: u128)
        ensures
            uuid_parse(text) == Some(value) ==> NodeId::spec_parse(text) == Some(
                NodeId::with_value(value),
            ) && NodeId::with_value(value)@ == value,
            uuid_parse(text) is None ==> NodeId::spec_parse(text) is None,
    {
    }

    /// Two identities are equal exactly when their UUID values are, and
    /// the identity with a value has that value.
    pub proof fn lemma_view_determines(a: NodeId, b: NodeId, value: u128)
        ensures
            a == b <==> a@ == b@,
            NodeId::with_value(value)@ == value,
    {
    }

    /// Generates a fresh, random (version 4) node identity.
    pub fn new() -> (id: Self)
        ensures
            is_random_v4(id@),
    {
        NodeId { value: random_v4_value() }
    }

    /// Whether this identity wraps the UUID `id`.
    pub open spec fn wraps(self, id: Uuid) -> bool {
        uuid_value(id) == self@
    }

    /// Wraps an existing UUID as a `NodeId`; no other UUID is wrapped by
    /// the result.
    pub fn from_uuid(id: Uuid) -> (node: Self)
        ensures
            node.wraps(id),
            forall|other: Uuid| node.wraps(other) ==> other == id,
    {
        NodeId { value: uuid_to_value(id) }
    }

    /// The UUID this identity wraps, the only one it wraps.
    pub fn as_uuid(&self) -> (id: Uuid)
        ensures
            self.wraps(id),
            forall|other: Uuid| self.wraps(other) ==> other == id,
    {
        uuid_from_value(self.value)
    }

    /// The hyphenated text of this identity; it parses back to this
    /// identity.
    pub fn to_string(&self) -> (text: String)
        ensures
            text@ == hyphenated_text(self@),
            text@.len() == 36,
            NodeId::spec_parse(text@) == Some(*self),
            uuid_parse(text@) == Some(self@),
    {
        uuid_text(self.value)
    }

    /// Reads an identity from its text; fails exactly where
    /// `uuid::Uuid::parse_str` fails.
    pub fn parse(text: &str) -> (parsed: Result<Self, uuid::Error>)
        ensures
            parsed is Ok <==> NodeId::spec_parse(text@) is Some,
            parsed matches Ok(id) ==> NodeId::spec_parse(text@) == Some(id),
            match parsed {
                Ok(id) => uuid_parse(text@) == Some(id@),
                Err(_) => uuid_parse(text@) is None,
            },
    {
        match uuid_parse_str(text) {
            Ok(value) => Ok(NodeId { value }),
            Err(e) => Err(e),
        }
    }
}

/// Law: an identity is determined by a UUID it wraps. With the
/// contracts of `from_uuid` and `as_uuid` (each gives the one UUID its
/// identity wraps), this makes `from_uuid(n.as_uuid()) == n`,
/// `NodeId::from_uuid(u).as_uuid() == u`, and `from_uuid` injective.
pub proof fn lemma_uuid_round_trip(a: NodeId, b: NodeId, id: Uuid)
    ensures
        a.wraps(id) && b.wraps(id) ==> a == b,
{
}

impl Default for NodeId {
    fn default() -> (id: Self)
        ensures
            is_random_v4(id@),
    {
        Self::new()
    }
}

impl FromStr for NodeId {
    type Err = uuid::Error;

    fn from_str(text: &str) -> (parsed: Result<Self, Self::Err>)
        ensures
            parsed is Ok <==> NodeId::spec_parse(text@) is Some,
            parsed matches Ok(id) ==> NodeId::spec_parse(text@) == Some(id),
            match parsed {
                Ok(id) => uuid_parse(text@) == Some(id@),
                Err(_) => uuid_parse(text@) is None,
            },
    {
        Self::parse(text)
    }
}

} // verus!
