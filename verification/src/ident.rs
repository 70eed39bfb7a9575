//! Identifiers: 128-bit values, written as UUID text.

use vstd::prelude::*;
use vstd::string::*;

use crate::errors::AppError;

verus! {

/// What `uuid::Uuid::parse_str` makes of a text: the identifier's 128 bits,
/// or nothing where the text is no UUID.
pub uninterp spec fn uuid_parse(text: Seq<char>) -> Option<u128>;

/// How `uuid::Uuid` displays an identifier.
pub uninterp spec fn uuid_text(id: u128) -> Seq<char>;

/// Parses a text with `uuid::Uuid::parse_str` and hands out the bits of the
/// identifier (`as_u128`). The contract is not proved; it claims only that
/// the result depends on the text alone, and gives it the name `uuid_parse`.
#[verifier::external_body]
pub(crate) fn parse_id(text: &str) -> (r: Option<u128>)
    ensures
        r == uuid_parse(text@),
{
    match uuid::Uuid::parse_str(text) {
        Ok(id) => Some(id.as_u128()),
        Err(_) => None,
    }
}

/// Writes an identifier as `uuid::Uuid` displays it (`from_u128`, then
/// `to_string`). The contract is not proved; it claims only that the result
/// depends on the identifier alone, and gives it the name `uuid_text`.
#[verifier::external_body]
pub(crate) fn id_text(id: u128) -> (text: String)
    ensures
        text@ == uuid_text(id),
{
    uuid::Uuid::from_u128(id).to_string()
}

/// Draws a random identifier with `uuid::Uuid::new_v4`. Nothing is claimed
/// of the value: any identifier may come back, one that is in use too.
/// Nothing was proved of the call either: `uuid` stops the process where
/// the system gives it no random bytes.
#[verifier::external_body]
pub(crate) fn random_id() -> (id: u128) {
    uuid::Uuid::new_v4().as_u128()
}

/// The message that reports a missing transaction.
pub open spec fn not_found_text(id: u128) -> Seq<char> {
    "Transaction with id "@ + uuid_text(id) + " not found"@
}

/// `e` is the error that reports that no transaction has the identifier `id`.
pub open spec fn reports_missing(e: AppError, id: u128) -> bool {
    e matches AppError::NotFound(m) && m@ == not_found_text(id)
}

/// The error that reports that no transaction has the identifier `id`.
pub fn not_found(id: u128) -> (e: AppError)
    ensures
        reports_missing(e, id),
{
    let name = id_text(id);
    let text = String::from_str("Transaction with id ").concat(name.as_str()).concat(
        " not found",
    );
    AppError::NotFound(text)
}

} // verus!
