use vstd::prelude::*;
use crate::errors::IdlError;

verus! {

/// Declares solana_sdk's pubkey parse-failure type so the parsing wrapper
/// can return it; verified code maps it to [`IdlError::AddressFormat`].
#[verifier::external_type_specification]
#[verifier::external_body]
pub struct ExParsePubkeyError(solana_sdk::pubkey::ParsePubkeyError);

/// What `Pubkey::from_str` decodes a string to: `Some` of exactly the
/// 32 decoded bytes when the string is a well-formed base-58 encoding of a
/// 32-byte value, `None` otherwise. The result is a function of the string
/// alone, so it is left uninterpreted.
pub uninterp spec fn pubkey_bytes_of(s: Seq<char>) -> Option<Seq<u8>>;

/// A 32-byte account identifier, decoded from its base-58 text form.
/// Equality is byte-wise; the invariant is that it always holds exactly
/// 32 bytes.
pub struct Identifier {
    pub bytes: Vec<u8>,
}

impl Identifier {
    /// The identifier always holds exactly 32 bytes.
    pub open spec fn wf(&self) -> bool {
        self.bytes@.len() == 32
    }
}

impl View for Identifier {
    type V = Seq<u8>;

    open spec fn view(&self) -> Seq<u8> {
        self.bytes@
    }
}

/// Relies on `solana_sdk::pubkey::Pubkey::from_str`: decodes a base-58
/// string of at most 44 characters into exactly 32 bytes, failing on any
/// other input; the outcome is determined by the string alone.
#[verifier::external_body]
fn parse_pubkey(s: &str) -> (r: Result<Vec<u8>, solana_sdk::pubkey::ParsePubkeyError>)
    ensures
        r is Ok <==> pubkey_bytes_of(s@) is Some,
        r is Ok ==> r->Ok_0@ == pubkey_bytes_of(s@)->0 && r->Ok_0@.len() == 32,
{
    match s.parse::<solana_sdk::pubkey::Pubkey>() {
        Ok(pk) => Ok(pk.to_bytes().to_vec()),
        Err(e) => Err(e),
    }
}

/// Parses a human-readable program identifier into its 32-byte form,
/// failing with [`IdlError::AddressFormat`] exactly on the strings that are
/// not a valid encoding of 32 bytes.
pub fn parse_identifier(s: &str) -> (r: Result<Identifier, IdlError>)
    ensures
        r is Ok <==> pubkey_bytes_of(s@) is Some,
        r is Ok ==> r->Ok_0@ == pubkey_bytes_of(s@)->0 && r->Ok_0.wf(),
        r is Err ==> r->Err_0 is AddressFormat,
{
    match parse_pubkey(s) {
        Ok(bytes) => Ok(Identifier { bytes }),
        Err(_) => Err(IdlError::AddressFormat),
    }
}

} // verus!
