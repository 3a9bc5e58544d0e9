use vstd::prelude::*;

verus! {

#[verifier::external_type_specification]
#[verifier::external_body]
pub struct ExJsonValue(serde_json::Value);

#[verifier::external_type_specification]
#[verifier::external_body]
pub struct ExJsonError(serde_json::Error);

/// Whether `serde_json` accepts `s` as the text of one JSON value.
pub uninterp spec fn is_json_text(s: Seq<char>) -> bool;

/// The JSON value that `serde_json` reads from the text `s`.
pub uninterp spec fn json_value_of(s: Seq<char>) -> serde_json::Value;

/// The compact JSON text that `serde_json` writes for the value `v`.
pub uninterp spec fn json_text_of(v: serde_json::Value) -> Seq<char>;

/// Relies on `serde_json::from_str::<serde_json::Value>`: it parses `s` as
/// one JSON value; whether it succeeds, and the value it gives, depend on
/// the text alone.
#[verifier::external_body]
pub(crate) fn parse_json(s: &str) -> (r: Result<serde_json::Value, serde_json::Error>)
    ensures
        r is Ok <==> is_json_text(s@),
        r matches Ok(v) ==> v == json_value_of(s@),
{
    serde_json::from_str::<serde_json::Value>(s)
}

/// Relies on the `Display` impl of `serde_json::Value`: it writes the compact
/// JSON text of the value, which depends on the value alone, and cannot fail.
#[verifier::external_body]
pub(crate) fn encode_json(v: &serde_json::Value) -> (r: String)
    ensures
        r@ == json_text_of(*v),
{
    v.to_string()
}

/// The decimal digits of `n`, most significant first.
pub open spec fn digits_of(n: nat) -> Seq<char>
    decreases n,
{
    let d = seq!['0', '1', '2', '3', '4', '5', '6', '7', '8', '9'][(n % 10) as int];
    if n < 10 {
        seq![d]
    } else {
        digits_of(n / 10).push(d)
    }
}

/// The decimal rendering of an integer, with a leading `-` when negative.
pub open spec fn decimal_of(n: int) -> Seq<char> {
    if n < 0 {
        seq!['-'] + digits_of((-n) as nat)
    } else {
        digits_of(n as nat)
    }
}

/// Relies on the `Display` impl of `i64`, which writes the number in decimal.
#[verifier::external_body]
pub(crate) fn decimal_text(n: i64) -> (r: String)
    ensures
        r@ == decimal_of(n as int),
{
    n.to_string()
}

} // verus!
