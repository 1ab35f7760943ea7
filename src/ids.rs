//! Opaque identifiers of cards, fields and card types, and timestamps.
use vstd::prelude::*;

verus! {

/// Length of a generated identifier.
pub const ID_LEN: usize = 16;

/// The characters a generated identifier is made of: digits and lower-case ASCII letters.
pub open spec fn is_id_char(c: char) -> bool {
    ('0' <= c && c <= '9') || ('a' <= c && c <= 'z')
}

/// What `generate_id` promises of every identifier it returns.
pub open spec fn is_generated_id(s: Seq<char>) -> bool {
    &&& s.len() == ID_LEN
    &&& forall|i: int| 0 <= i < s.len() ==> is_id_char(#[trigger] s[i])
}

/// Relies on `nanoid::format` driven by `nanoid::rngs::non_secure`: it returns `size`
/// characters, each taken from `alphabet`. Its loop ends only when `size` is positive
/// and every character of `alphabet` is one byte long. Identifiers must be unique, not
/// secret, so the generator seeded from the system's entropy on each call is enough.
#[verifier::external_body]
fn nanoid_format(alphabet: &[char], size: usize) -> (r: String)
    requires
        0 < size,
        0 < alphabet@.len() <= 255,
        forall|i: int| 0 <= i < alphabet@.len() ==> (#[trigger] alphabet@[i] as u32) < 128,
    ensures
        r@.len() == size,
        forall|i: int| 0 <= i < r@.len() ==> alphabet@.contains(#[trigger] r@[i]),
{
    nanoid::format(nanoid::rngs::non_secure, alphabet, size)
}

/// The alphabet of generated identifiers.
fn id_alphabet() -> (a: Vec<char>)
    ensures
        a@.len() == 36,
        forall|i: int| 0 <= i < a@.len() ==> is_id_char(#[trigger] a@[i]),
{
    vec![
        '1', '2', '3', '4', '5', '6', '7', '8', '9', '0', 'a', 'b', 'c', 'd', 'e', 'f', 'g', 'h',
        'i', 'j', 'k', 'l', 'm', 'n', 'o', 'p', 'q', 'r', 's', 't', 'u', 'v', 'w', 'x', 'y', 'z',
    ]
}

/// A fresh random identifier of sixteen digits and lower-case letters.
pub fn generate_id() -> (r: String)
    ensures
        is_generated_id(r@),
{
    let alphabet = id_alphabet();
    let r = nanoid_format(alphabet.as_slice(), ID_LEN);
    assert forall|i: int| 0 <= i < r@.len() implies is_id_char(#[trigger] r@[i]) by {
        let j = choose|j: int| 0 <= j < alphabet@.len() && alphabet@[j] == r@[i];
        assert(is_id_char(alphabet@[j]));
    }
    r
}

/// Identifier of a card.
#[derive(Debug, Clone, PartialEq, Eq, PartialOrd, Ord, Hash)]
pub struct CardId(String);

impl View for CardId {
    type V = Seq<char>;

    closed spec fn view(&self) -> Seq<char> {
        self.0@
    }
}

impl CardId {
    pub fn from(id: String) -> (r: Self)
        ensures
            r@ == id@,
    {
        CardId(id)
    }

    pub fn from_str(id: &str) -> (r: Self)
        ensures
            r@ == id@,
    {
        CardId(id.to_owned())
    }

    /// A fresh identifier.
    pub fn new() -> (r: Self)
        ensures
            is_generated_id(r@),
    {
        let id = generate_id();
        Self::from(id)
    }

    pub fn as_str(&self) -> (r: &str)
        ensures
            r@ == self@,
    {
        self.0.as_str()
    }
}

/// Identifier of a custom field, unique within a card.
#[derive(Debug, Clone, PartialEq, Eq, PartialOrd, Ord, Hash)]
pub struct FieldId(String);

impl View for FieldId {
    type V = Seq<char>;

    closed spec fn view(&self) -> Seq<char> {
        self.0@
    }
}

impl FieldId {
    pub fn from(id: String) -> (r: Self)
        ensures
            r@ == id@,
    {
        FieldId(id)
    }

    pub fn from_str(id: &str) -> (r: Self)
        ensures
            r@ == id@,
    {
        FieldId(id.to_owned())
    }

    /// A fresh identifier.
    pub fn new() -> (r: Self)
        ensures
            is_generated_id(r@),
    {
        let id = generate_id();
        Self::from(id)
    }

    pub fn as_str(&self) -> (r: &str)
        ensures
            r@ == self@,
    {
        self.0.as_str()
    }
}

/// Identifier of a card type.
#[derive(Debug, Clone, PartialEq, Eq, PartialOrd, Ord, Hash)]
pub struct CardTypeId(String);

impl View for CardTypeId {
    type V = Seq<char>;

    closed spec fn view(&self) -> Seq<char> {
        self.0@
    }
}

impl CardTypeId {
    pub fn from(id: String) -> (r: Self)
        ensures
            r@ == id@,
    {
        CardTypeId(id)
    }

    pub fn from_str(id: &str) -> (r: Self)
        ensures
            r@ == id@,
    {
        CardTypeId(id.to_owned())
    }

    /// A fresh identifier.
    pub fn new() -> (r: Self)
        ensures
            is_generated_id(r@),
    {
        let id = generate_id();
        Self::from(id)
    }

    pub fn as_str(&self) -> (r: &str)
        ensures
            r@ == self@,
    {
        self.0.as_str()
    }
}

/// Relies on `chrono::Utc::now` and `DateTime::timestamp_millis`: milliseconds since the
/// Unix epoch, read from the system clock. `Utc::now` does not return a time before the
/// epoch, so the count is never negative; nothing more is promised of a reading.
#[verifier::external_body]
fn now_millis() -> (r: i64)
    ensures
        r >= 0,
{
    chrono::Utc::now().timestamp_millis()
}

/// Milliseconds since the Unix epoch.
#[derive(Debug, Clone, Copy, PartialEq, Eq, PartialOrd, Ord, Hash)]
pub struct Timestamp(i64);

impl Timestamp {
    /// The current time, from the system clock: never before the epoch.
    pub fn now() -> (r: Self)
        ensures
            r.millis() >= 0,
    {
        Timestamp(now_millis())
    }

    pub fn from_millis(millis: i64) -> (r: Self)
        ensures
            r.millis() == millis,
    {
        Timestamp(millis)
    }

    pub closed spec fn millis(&self) -> i64 {
        self.0
    }

    pub fn as_millis(&self) -> (r: i64)
        ensures
            r == self.millis(),
    {
        self.0
    }
}

} // verus!
