use vstd::prelude::*;

use vstd::arithmetic::power::pow;

verus! {

/// The lower-case hexadecimal digit of `n`, for `0 <= n < 16`.
pub open spec fn hex_digit(n: int) -> char {
    if n < 10 {
        (48 + n) as char
    } else {
        (87 + n) as char
    }
}

/// Which of the 32 hexadecimal digits character `i` of the hyphenated form
/// shows (the hyphens stand at positions 8, 13, 18 and 23).
pub open spec fn uuid_digit_index(i: int) -> int {
    if i < 8 {
        i
    } else if i < 13 {
        i - 1
    } else if i < 18 {
        i - 2
    } else if i < 23 {
        i - 3
    } else {
        i - 4
    }
}

/// The textual form that `uuid::Uuid` displays for the identifier whose
/// 128-bit value is `id`: its 32 lower-case hexadecimal digits, most
/// significant first, with a hyphen after the 8th, 12th, 16th and 20th.
pub open spec fn uuid_text(id: u128) -> Seq<char> {
    Seq::new(
        36,
        |i: int|
            if i == 8 || i == 13 || i == 18 || i == 23 {
                '-'
            } else {
                hex_digit((id as int / pow(16, (31 - uuid_digit_index(i)) as nat)) % 16)
            },
    )
}

/// The decimal digits of `n`, most significant first, without leading zeros.
pub open spec fn decimal_text(n: nat) -> Seq<char>
    decreases n,
{
    let digit = (('0' as u32) + (n % 10) as u32) as char;
    if n < 10 {
        seq![digit]
    } else {
        decimal_text(n / 10).push(digit)
    }
}

/// The version nibble (bits 76..80) of a 128-bit identifier.
pub open spec fn uuid_version(id: u128) -> u128 {
    (id >> 76u128) & 0xfu128
}

/// Calls `uuid::Uuid::now_v7` and returns the identifier's 128-bit value
/// (`Uuid::as_u128`). The value depends on the clock and on random bits. Of a
/// single outcome the uuid source guarantees that the version nibble is 7,
/// which is what is claimed here; that the ids of one process are ordered by
/// creation relates different calls through state this contract cannot see,
/// and is left unsaid.
#[verifier::external_body]
fn uuid_now_v7() -> (id: u128)
    ensures
        uuid_version(id) == 7,
{
    uuid::Uuid::now_v7().as_u128()
}

/// A fresh version-7 identifier; never the nil identifier.
pub fn new_id() -> (id: u128)
    ensures
        uuid_version(id) == 7,
        id != 0,
{
    let id = uuid_now_v7();
    assert(uuid_version(id) == 7 ==> id != 0) by (bit_vector);
    id
}

/// Calls `uuid::Uuid::from_u128(id).to_string()`: the hyphenated textual
/// form of the identifier (`from_u128` takes the value's big-endian bytes,
/// and `Display` writes them as lower-case hyphenated hexadecimal), which is
/// `uuid_text(id)`.
#[verifier::external_body]
pub(crate) fn id_text(id: u128) -> (s: String)
    ensures
        s@ == uuid_text(id),
{
    uuid::Uuid::from_u128(id).to_string()
}

/// Calls `u64::to_string`, whose documented result is the decimal form.
#[verifier::external_body]
pub(crate) fn u64_text(n: u64) -> (s: String)
    ensures
        s@ == decimal_text(n as nat),
{
    n.to_string()
}

/// Calls `chrono::Utc::now().timestamp_micros()`: the current wall-clock time
/// in microseconds since the Unix epoch. Nothing is claimed of the value.
#[verifier::external_body]
pub(crate) fn now_micros() -> (t: i64) {
    chrono::Utc::now().timestamp_micros()
}

} // verus!
