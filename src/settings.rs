//! Reading the proxy's numeric settings from text: durations in whole
//! seconds and byte sizes with an optional unit.
use std::num::ParseIntError;
use std::time::Duration;
use vstd::prelude::*;

verus! {

#[verifier::external_type_specification]
#[verifier::external_body]
pub struct ExParseIntError(core::num::ParseIntError);

/// Whether every character of `s` is an ASCII decimal digit.
pub open spec fn all_digits(s: Seq<char>) -> bool {
    forall|i: int| 0 <= i < s.len() ==> '0' <= #[trigger] s[i] <= '9'
}

/// The number that the decimal digits `s` write.
pub open spec fn digits_value(s: Seq<char>) -> nat
    decreases s.len(),
{
    if s.len() == 0 {
        0
    } else {
        digits_value(s.drop_last()) * 10 + ((s.last() as nat) - ('0' as nat)) as nat
    }
}

/// The `u64` that `s` writes in decimal: an optional `+`, then one or more
/// digits, of a value that fits; `None` for any other text.
pub open spec fn u64_text(s: Seq<char>) -> Option<u64> {
    let d = if s.len() > 0 && s[0] == '+' {
        s.drop_first()
    } else {
        s
    };
    if d.len() > 0 && all_digits(d) && digits_value(d) <= u64::MAX {
        Some(digits_value(d) as u64)
    } else {
        None
    }
}

/// What `Duration::from_secs` makes of a count of seconds.
pub uninterp spec fn duration_of_secs(secs: u64) -> Duration;

/// What `bytesize`'s parser makes of `s`, in bytes; `None` where it refuses.
pub uninterp spec fn byte_size_of(s: Seq<char>) -> Option<u64>;

/// Relies on `u64`'s `FromStr` (std's `str::parse::<u64>`): accepts an
/// optional `+` followed by decimal digits whose value fits.
#[verifier::external_body]
fn parse_u64(s: &str) -> (r: Result<u64, ParseIntError>)
    ensures
        r is Ok <==> u64_text(s@) is Some,
        r is Ok ==> u64_text(s@) == Some(r->Ok_0),
{
    s.parse::<u64>()
}

/// Relies on std's `Duration::from_secs`.
#[verifier::external_body]
fn duration_from_secs(secs: u64) -> (r: Duration)
    ensures
        r == duration_of_secs(secs),
{
    Duration::from_secs(secs)
}

/// Relies on `bytesize::ByteSize`'s `FromStr` and `ByteSize::as_u64`: the
/// byte count that `s` writes. Plain decimal text is read as that many bytes,
/// as the parser first tries `s` as a `u64`.
#[verifier::external_body]
fn parse_bytes(s: &str) -> (r: Result<u64, String>)
    ensures
        r is Ok <==> byte_size_of(s@) is Some,
        r is Ok ==> byte_size_of(s@) == Some(r->Ok_0),
        u64_text(s@) is Some ==> r is Ok && u64_text(s@) == Some(r->Ok_0),
{
    <bytesize::ByteSize as std::str::FromStr>::from_str(s).map(|b| b.as_u64())
}

/// Reads a duration written as a whole number of seconds.
pub fn parse_duration(arg: &str) -> (r: Result<Duration, ParseIntError>)
    ensures
        r is Ok <==> u64_text(arg@) is Some,
        r is Ok ==> r->Ok_0 == duration_of_secs(u64_text(arg@)->0),
{
    let seconds = match parse_u64(arg) {
        Ok(n) => n,
        Err(e) => return Err(e),
    };
    Ok(duration_from_secs(seconds))
}

/// Reads a byte size such as `512`, `512B` or `4KiB`, as a count of bytes.
pub fn parse_byte_size(arg: &str) -> (r: Result<usize, String>)
    ensures
        r is Ok <==> byte_size_of(arg@) is Some,
        r is Ok ==> r->Ok_0 == (byte_size_of(arg@)->0) as usize,
        u64_text(arg@) is Some ==> r is Ok && r->Ok_0 == (u64_text(arg@)->0) as usize,
{
    match parse_bytes(arg) {
        Ok(n) => Ok(n as usize),
        Err(e) => Err(e),
    }
}

} // verus!
