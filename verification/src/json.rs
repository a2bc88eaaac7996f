use vstd::prelude::*;

verus! {

/// Declares serde_json's document type so decoded documents can appear in
/// signatures; the value is opaque to verification and is only carried
/// through to the caller.
#[verifier::external_type_specification]
#[verifier::external_body]
pub struct ExValue(serde_json::Value);

/// Whether a byte sequence is one syntactically valid JSON document, as
/// `serde_json::from_slice` judges it. The outcome is a function of the
/// bytes alone, so it is left uninterpreted.
pub uninterp spec fn is_valid_json(bytes: Seq<u8>) -> bool;

/// Relies on `serde_json::from_slice::<Value>`: parses the bytes as a single
/// JSON document, succeeding exactly on syntactically valid input; the
/// outcome is determined by the bytes alone. Empty input holds no document
/// and always fails. On failure the parser's own message is returned.
#[verifier::external_body]
pub(crate) fn parse_json(bytes: &Vec<u8>) -> (r: Result<serde_json::Value, String>)
    ensures
        r is Ok <==> is_valid_json(bytes@),
        bytes@.len() == 0 ==> r is Err,
{
    match serde_json::from_slice::<serde_json::Value>(bytes.as_slice()) {
        Ok(v) => Ok(v),
        Err(e) => Err(format!("{}", e)),
    }
}

} // verus!
