use crate::repository::db_error::DbError;
use mongodb::bson::oid::ObjectId;
use mongodb::bson::DateTime;
use vstd::prelude::*;

pub mod crud;

verus! {

/// Whether `c` is one of `0..9`, `a..f` or `A..F`.
pub open spec fn is_hex_digit(c: char) -> bool {
    ||| 0x30 <= c as u32 <= 0x39
    ||| 0x61 <= c as u32 <= 0x66
    ||| 0x41 <= c as u32 <= 0x46
}

/// The number a hexadecimal digit stands for, in either case.
pub open spec fn hex_value(c: char) -> int {
    if 0x30 <= c as u32 <= 0x39 {
        c as u32 - 0x30
    } else if 0x61 <= c as u32 <= 0x66 {
        c as u32 - 0x61 + 10
    } else {
        c as u32 - 0x41 + 10
    }
}

/// The lower-case hexadecimal digit for a number below sixteen.
pub open spec fn hex_digit(n: int) -> char {
    if n < 10 {
        (0x30 + n) as u8 as char
    } else {
        (0x61 + n - 10) as u8 as char
    }
}

/// The text form of a key: exactly twenty-four hexadecimal digits.
pub open spec fn is_key_text(s: Seq<char>) -> bool {
    &&& s.len() == 24
    &&& forall|i: int| 0 <= i < 24 ==> is_hex_digit(#[trigger] s[i])
}

/// The twelve bytes that a key text spells, two digits to a byte, high digit first.
pub open spec fn key_bytes(s: Seq<char>) -> Seq<u8> {
    Seq::new(12, |i: int| (hex_value(s[2 * i]) * 16 + hex_value(s[2 * i + 1])) as u8)
}

/// The lower-case text form of twelve key bytes.
pub open spec fn key_text(b: Seq<u8>) -> Seq<char> {
    Seq::new(
        24,
        |i: int|
            if i % 2 == 0 {
                hex_digit(b[i / 2] as int / 16)
            } else {
                hex_digit(b[i / 2] as int % 16)
            },
    )
}

/// The message with which the store's key parser rejects `s`.
pub uninterp spec fn key_parse_failure(s: Seq<char>) -> Seq<char>;

/// The message for an empty identifier.
pub open spec fn empty_id_failure() -> Seq<char> {
    "failed to parse  as an ObjectId."@
}

/// The store's native key: twelve bytes.
#[derive(Clone, Copy, Debug, PartialEq, Eq)]
pub struct StoreKey {
    pub bytes: [u8; 12],
}

impl View for StoreKey {
    type V = Seq<u8>;

    open spec fn view(&self) -> Seq<u8> {
        self.bytes@
    }
}

/// Calls `ObjectId::parse_str`. It accepts exactly the strings of twenty-four
/// hexadecimal digits, in either case, and yields the bytes they spell; for any
/// other string it fails, and the failure's printed form is handed back.
#[verifier::external_body]
fn parse_object_id(s: &str) -> (r: Result<StoreKey, String>)
    ensures
        match r {
            Ok(k) => is_key_text(s@) && k@ == key_bytes(s@),
            Err(msg) => !is_key_text(s@) && msg@ == key_parse_failure(s@),
        },
{
    match ObjectId::parse_str(s) {
        Ok(oid) => Ok(StoreKey { bytes: oid.bytes() }),
        Err(e) => Err(e.to_string()),
    }
}

/// The text form of a key is a key text, and spells the key.
pub proof fn lemma_key_text_round_trip(key: Seq<u8>)
    requires
        key.len() == 12,
    ensures
        is_key_text(key_text(key)),
        key_bytes(key_text(key)) == key,
{
    let text = key_text(key);
    assert forall|n: int| 0 <= n < 16 implies is_hex_digit(#[trigger] hex_digit(n)) && hex_value(
        hex_digit(n),
    ) == n by {
        if n < 10 {
            assert(((0x30 + n) as u8 as char) as u32 == 0x30 + n);
        } else {
            assert(((0x61 + n - 10) as u8 as char) as u32 == 0x61 + n - 10);
        }
    }
    assert forall|i: int| 0 <= i < 24 implies is_hex_digit(#[trigger] text[i]) by {
        let b = key[i / 2] as int;
        assert(0 <= b / 16 < 16 && 0 <= b % 16 < 16);
    }
    assert forall|i: int| 0 <= i < 12 implies #[trigger] key_bytes(text)[i] == key[i] by {
        let b = key[i] as int;
        assert(0 <= b / 16 < 16 && 0 <= b % 16 < 16);
        assert((2 * i) / 2 == i && (2 * i + 1) / 2 == i);
        assert((2 * i) % 2 == 0 && (2 * i + 1) % 2 == 1);
        assert(text[2 * i] == hex_digit(b / 16));
        assert(text[2 * i + 1] == hex_digit(b % 16));
        assert((b / 16) * 16 + b % 16 == b);
    }
    assert(key_bytes(text) =~= key);
}

/// Calls `ObjectId::to_hex` on the key's bytes: two lower-case hexadecimal
/// digits for each byte, high digit first.
#[verifier::external_body]
pub(crate) fn object_id_hex(key: &StoreKey) -> (s: String)
    ensures
        s@ == key_text(key@),
{
    ObjectId::from_bytes(key.bytes).to_hex()
}

/// Calls `ObjectId::new`, which draws on the clock, a per-process random
/// value and a counter: nothing is claimed of the key that comes back. The
/// call panics where the system clock stands before 1970 or after 2105.
#[verifier::external_body]
pub(crate) fn fresh_object_id() -> StoreKey {
    StoreKey { bytes: ObjectId::new().bytes() }
}

/// A point in time, in milliseconds since the start of 1970 (UTC).
#[derive(Clone, Copy, Debug, PartialEq, Eq)]
pub struct Timestamp {
    pub millis: i64,
}

impl View for Timestamp {
    type V = int;

    open spec fn view(&self) -> int {
        self.millis as int
    }
}

/// The printed form of a store date, given its milliseconds.
pub uninterp spec fn timestamp_text(millis: int) -> Seq<char>;

/// Calls `DateTime::now`: the current time, of which nothing is claimed.
#[verifier::external_body]
pub(crate) fn current_timestamp() -> Timestamp {
    Timestamp { millis: DateTime::now().timestamp_millis() }
}

/// Prints the store date of the given milliseconds with `DateTime`'s
/// `Display`, which depends on the milliseconds alone.
#[verifier::external_body]
pub(crate) fn timestamp_to_string(t: &Timestamp) -> (s: String)
    ensures
        s@ == timestamp_text(t@),
{
    DateTime::from_millis(t.millis).to_string()
}

/// Validates a path-provided identifier and converts it into a store key.
///
/// The empty string is rejected before the store's parser is consulted; any
/// other string is accepted exactly when it is a key text.
pub fn parse_id(id: &String) -> (r: Result<StoreKey, DbError>)
    ensures
        r is Ok <==> is_key_text(id@),
        match r {
            Ok(k) => is_key_text(id@) && k@ == key_bytes(id@),
            Err(e) => {
                &&& !is_key_text(id@)
                &&& id@.len() == 0 ==> e@ == empty_id_failure()
                &&& id@.len() != 0 ==> e@ == key_parse_failure(id@)
            },
        },
{
    if id.as_str().is_empty() {
        return Err(DbError::new("failed to parse  as an ObjectId.".to_owned()));
    }
    match parse_object_id(id.as_str()) {
        Ok(key) => Ok(key),
        Err(msg) => Err(DbError::new(msg)),
    }
}

} // verus!
