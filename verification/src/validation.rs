//! Field rules of incoming records (identifier lengths and the device-id
//! alphabet), checked through the `validator` and `regex` crates.
use vstd::prelude::*;

verus! {

/// A record field that carries a rule.
#[derive(Debug, Clone, Copy, PartialEq, Eq, Structural)]
pub enum CheckedField {
    /// `event_id` of a telemetry record.
    EventId,
    /// `gateway_id` of a telemetry record or a gateway health event.
    GatewayId,
    /// `device_id` of a telemetry record.
    DeviceId,
}

/// The rule a field broke.
#[derive(Debug, Clone, Copy, PartialEq, Eq, Structural)]
pub enum Rule {
    /// Length (in chars) outside `[1, 64]`.
    Length,
    /// Not made only of ASCII letters, digits, `_`, `:`, `.` and `-`.
    Pattern,
}

/// One broken rule.
#[derive(Debug, Clone, Copy, PartialEq, Eq, Structural)]
pub struct Violation {
    /// The field.
    pub field: CheckedField,
    /// The rule it broke.
    pub rule: Rule,
}

/// An identifier holds between 1 and 64 chars.
pub open spec fn id_length_ok(s: Seq<char>) -> bool {
    1 <= s.len() <= 64
}

/// A char allowed in a device id.
pub open spec fn device_id_char(c: char) -> bool {
    ||| 'a' <= c <= 'z'
    ||| 'A' <= c <= 'Z'
    ||| '0' <= c <= '9'
    ||| c == '_'
    ||| c == ':'
    ||| c == '.'
    ||| c == '-'
}

/// `s` matches `^[a-zA-Z0-9_:.-]+$`: non-empty and made of allowed chars.
pub open spec fn device_id_pattern(s: Seq<char>) -> bool {
    &&& s.len() >= 1
    &&& forall|i: int| 0 <= i < s.len() ==> device_id_char(#[trigger] s[i])
}

/// The regular expression that device ids must match.
pub open spec fn device_id_regex() -> Seq<char> {
    "^[a-zA-Z0-9_:.-]+$"@
}

/// Checks the length rule of an identifier.
pub fn validate_length(s: &String) -> (ok: bool)
    ensures
        ok == id_length_ok(s@),
{
    length_within(s, Some(1), Some(64))
}

/// Checks that a string is not empty.
pub fn validate_not_empty(s: &String) -> (ok: bool)
    ensures
        ok == (s@.len() >= 1),
{
    length_within(s, Some(1), None)
}

/// Checks the device-id alphabet.
pub fn matches_device_id_pattern(s: &String) -> (ok: bool)
    ensures
        ok == device_id_pattern(s@),
{
    regex_validates(s, "^[a-zA-Z0-9_:.-]+$")
}

/// Calls `validator::ValidateLength::validate_length` on a `String` with
/// the optional bounds `min` and `max` (and no exact length): its source
/// counts `s.chars()` and refuses a count below `min` or above `max`. (A
/// `String` holds fewer than 2^63 chars, so the count as `u64` is exact.)
#[verifier::external_body]
fn length_within(s: &String, min: Option<u64>, max: Option<u64>) -> (ok: bool)
    ensures
        ok == ((min matches Some(lo) ==> lo <= s@.len()) && (max matches Some(hi) ==> s@.len()
            <= hi)),
{
    validator::ValidateLength::validate_length(s, min, max, None)
}

/// Compiles `pattern` with `regex::Regex::new` and calls
/// `validator::ValidateRegex::validate_regex` on `s` (which calls
/// `Regex::is_match`). For the device-id pattern, whose `^` and `$` anchor
/// at the two ends of the text and whose class lists ASCII ranges and four
/// punctuation chars, a match means that `s` is non-empty and made only of
/// those chars.
#[verifier::external_body]
fn regex_validates(s: &String, pattern: &str) -> (ok: bool)
    requires
        pattern@ == device_id_regex(),
    ensures
        ok == device_id_pattern(s@),
{
    match regex::Regex::new(pattern) {
        Ok(re) => validator::ValidateRegex::validate_regex(s, &re),
        Err(_) => false,
    }
}

} // verus!
