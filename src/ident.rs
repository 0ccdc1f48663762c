//! Fresh identifiers and timestamps for newly created records.

use vstd::prelude::*;
use vstd::string::*;

verus! {

/// Relies on `rand::rngs::OsRng::try_fill_bytes` (which reports a failing
/// operating-system source as an error instead of panicking) and on
/// `u128::from_le_bytes`: sixteen random bytes as a number, or none when the
/// source failed. Nothing can be promised of a random value.
#[verifier::external_body]
pub(crate) fn random_u128() -> (r: Option<u128>) {
    let mut bytes = [0u8; 16];
    match rand::RngCore::try_fill_bytes(&mut rand::rngs::OsRng, &mut bytes) {
        Ok(()) => Some(u128::from_le_bytes(bytes)),
        Err(_) => None,
    }
}

/// Relies on `std::time::SystemTime::now`, read against `UNIX_EPOCH` through
/// `duration_since`: `Ok` with the time since the epoch, or `Err` with the
/// time before it, as whole seconds and nanoseconds. `Duration::subsec_nanos`
/// is documented to stay under one billion. It reads the clock, so nothing
/// else is promised.
#[verifier::external_body]
fn clock_reading() -> (r: Result<(u64, u32), (u64, u32)>)
    ensures
        r matches Ok((_, n)) ==> n < 1_000_000_000,
        r matches Err((_, n)) ==> n < 1_000_000_000,
{
    match std::time::SystemTime::now().duration_since(std::time::UNIX_EPOCH) {
        Ok(d) => Ok((d.as_secs(), d.subsec_nanos())),
        Err(e) => Err((e.duration().as_secs(), e.duration().subsec_nanos())),
    }
}

/// A clock reading as seconds from the epoch (negative before it) and the
/// nanoseconds past that second.
pub open spec fn signed_time(reading: Result<(u64, u32), (u64, u32)>) -> (int, int) {
    match reading {
        Ok((s, n)) => (s as int, n as int),
        Err((s, n)) => if n == 0 {
            (-(s as int), 0)
        } else {
            (-(s as int) - 1, 1_000_000_000 - n)
        },
    }
}

/// A clock reading as seconds from the epoch (negative before it) and the
/// nanoseconds past that second; none when that does not fit an `i64` and a
/// `u32`.
pub fn epoch_offset(reading: Result<(u64, u32), (u64, u32)>) -> (r: Option<(i64, u32)>)
    ensures
        ({
            let (s, n) = signed_time(reading);
            if i64::MIN <= s <= i64::MAX && 0 <= n <= u32::MAX {
                r == Some((s as i64, n as u32))
            } else {
                r is None
            }
        }),
{
    match reading {
        Ok((s, n)) => {
            if s > i64::MAX as u64 {
                None
            } else {
                Some((s as i64, n))
            }
        },
        Err((s, n)) => {
            let secs: i128 = if n == 0 {
                -(s as i128)
            } else {
                -(s as i128) - 1
            };
            if secs < i64::MIN as i128 || n > 1_000_000_000 {
                None
            } else {
                let nanos: u32 = if n == 0 {
                    0
                } else {
                    1_000_000_000 - n
                };
                Some((secs as i64, nanos))
            }
        },
    }
}

/// The RFC 3339 text of a UTC time given as seconds from the epoch and
/// nanoseconds, or none when the time is out of range.
pub uninterp spec fn rfc3339_utc(secs: int, nanos: int) -> Option<Seq<char>>;

/// Relies on `chrono::DateTime::<Utc>::from_timestamp`, which returns `None`
/// for an out-of-range time instead of panicking, and on
/// `DateTime::to_rfc3339`. The text depends on the two numbers alone.
#[verifier::external_body]
fn rfc3339_at(secs: i64, nanos: u32) -> (r: Option<String>)
    ensures
        r matches Some(t) ==> rfc3339_utc(secs as int, nanos as int) == Some(t@),
        r is None ==> rfc3339_utc(secs as int, nanos as int) is None,
{
    match chrono::DateTime::<chrono::Utc>::from_timestamp(secs, nanos) {
        Some(t) => Some(t.to_rfc3339()),
        None => None,
    }
}

/// The RFC 3339 text of some UTC time.
pub open spec fn is_timestamp(t: Seq<char>) -> bool {
    exists|s: int, n: int| rfc3339_utc(s, n) == Some(t)
}

/// The current UTC time in RFC 3339 form, or none when the clock reads a time
/// that cannot be written.
pub fn now_rfc3339() -> (r: Option<String>)
    ensures
        r matches Some(t) ==> is_timestamp(t@),
{
    match epoch_offset(clock_reading()) {
        Some((s, n)) => rfc3339_at(s, n),
        None => None,
    }
}

/// The lower-case hexadecimal digit of `d`, for `d < 16`.
pub open spec fn hex_digit(d: nat) -> char {
    seq!['0', '1', '2', '3', '4', '5', '6', '7', '8', '9', 'a', 'b', 'c', 'd', 'e', 'f'][d as int]
}

/// `n` in lower-case hexadecimal, without leading zeros (`0` for zero).
pub open spec fn lower_hex(n: nat) -> Seq<char>
    decreases n,
{
    if n < 16 {
        seq![hex_digit(n)]
    } else {
        lower_hex(n / 16).push(hex_digit(n % 16))
    }
}

/// Appends `n` in lower-case hexadecimal to `out`.
fn push_hex(n: u128, out: &mut String)
    ensures
        final(out)@ == old(out)@ + lower_hex(n as nat),
    decreases n,
{
    if n >= 16 {
        push_hex(n / 16, out);
    }
    let d = (n % 16) as usize;
    let digits = "0123456789abcdef";
    proof {
        reveal_strlit("0123456789abcdef");
    }
    assert(digits@ == seq!['0', '1', '2', '3', '4', '5', '6', '7', '8', '9', 'a', 'b', 'c', 'd', 'e', 'f']);
    let digit = digits.substring_char(d, d + 1);
    assert(digit@ == seq![hex_digit(d as nat)]);
    out.append(digit);
    assert(lower_hex(n as nat) == if n < 16 { seq![hex_digit(n as nat)] } else { lower_hex((n / 16) as nat).push(hex_digit((n % 16) as nat)) });
}

/// `n` in lower-case hexadecimal, without leading zeros.
pub fn to_lower_hex(n: u128) -> (r: String)
    ensures
        r@ == lower_hex(n as nat),
{
    let mut out = String::new();
    push_hex(n, &mut out);
    assert(out@ == Seq::<char>::empty() + lower_hex(n as nat));
    out
}

} // verus!
