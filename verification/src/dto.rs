//! What arrives with a request: the transaction's identifier from the path,
//! the acting user's identifier from the headers, and the body.

use vstd::prelude::*;
use vstd::string::*;

use crate::errors::{bad_request, system_error, AppError};
use crate::ident::{parse_id, uuid_parse};
use crate::models::ApiTransaction;

verus! {

/// Where the last segment of a path begins: just behind its last slash, or
/// at 0 where it has none.
pub open spec fn segment_start(path: Seq<char>) -> int
    decreases path.len(),
{
    if path.len() == 0 || path.last() == '/' {
        path.len() as int
    } else {
        segment_start(path.drop_last())
    }
}

/// The last segment of a path: what follows its last slash.
pub open spec fn last_segment(path: Seq<char>) -> Seq<char> {
    path.subrange(segment_start(path), path.len() as int)
}

/// The last segment holds no slash, and begins the path or follows a slash.
pub proof fn lemma_last_segment(path: Seq<char>)
    ensures
        0 <= segment_start(path) <= path.len(),
        segment_start(path) == 0 || path[segment_start(path) - 1] == '/',
        forall|i: int| segment_start(path) <= i < path.len() ==> #[trigger] path[i] != '/',
    decreases path.len(),
{
    if path.len() != 0 && path.last() != '/' {
        let front = path.drop_last();
        lemma_last_segment(front);
        assert forall|i: int| segment_start(path) <= i < path.len() implies #[trigger] path[i]
            != '/' by {
            if i < front.len() {
                assert(path[i] == front[i]);
            }
        }
    }
}

/// The message for a path whose last segment is no identifier.
pub open spec fn bad_tx_id_text() -> Seq<char> {
    "Некорректное значение идентификатора транзакции"@
}

/// The message for a request without the header `X-USER-ID`.
pub open spec fn missing_user_text() -> Seq<char> {
    "Не передан заголовок X-USER-ID"@
}

/// The message for a header `X-USER-ID` that holds no identifier.
pub open spec fn bad_user_text() -> Seq<char> {
    "Некорректное значение заголовка X-USER-ID"@
}

/// The identifier of a transaction, as the request's path gives it.
#[derive(Debug, Clone, Copy, PartialEq, Eq, Structural)]
pub struct TxId(pub u128);

impl TxId {
    /// Reads the identifier from the last segment of the request's path.
    pub fn from_uri(uri: &str) -> (r: Result<TxId, AppError>)
        ensures
            match uuid_parse(last_segment(uri@)) {
                Some(id) => r == Ok::<TxId, AppError>(TxId(id)),
                None => r matches Err(e) && bad_request(e, bad_tx_id_text()),
            },
    {
        let n: usize = uri.unicode_len();
        let mut start: usize = n;
        let mut found: bool = false;
        proof {
            assert(uri@.subrange(0, n as int) =~= uri@);
        }
        while start > 0 && !found
            invariant
                n == uri@.len(),
                start <= n,
                segment_start(uri@) == segment_start(uri@.subrange(0, start as int)),
                found ==> start > 0 && uri@[start - 1] == '/',
            decreases start + (if found { 0int } else { 1int }),
        {
            if uri.get_char(start - 1) == '/' {
                found = true;
            } else {
                proof {
                    assert(uri@.subrange(0, start as int).drop_last() =~= uri@.subrange(
                        0,
                        start - 1,
                    ));
                }
                start = start - 1;
            }
        }
        let segment = uri.substring_char(start, n);
        match parse_id(segment) {
            Some(id) => Ok(TxId(id)),
            None => Err(
                AppError::BadRequest(
                    String::from_str("Некорректное значение идентификатора транзакции"),
                ),
            ),
        }
    }
}

/// What a request's headers hold under `X-USER-ID`.
#[derive(Debug, PartialEq, Eq)]
pub enum HeaderLookup {
    /// The request has no such header.
    Missing,
    /// The header's value is not visible ASCII text.
    Unreadable,
    /// The header's value.
    Text(String),
}

/// The identifier of the acting user, as the request's headers give it.
#[derive(Debug, Clone, Copy, PartialEq, Eq, Structural)]
pub struct UserId(pub u128);

impl UserId {
    /// Reads the acting user's identifier from the header `X-USER-ID`.
    pub fn from_headers(header: &HeaderLookup) -> (r: Result<UserId, AppError>)
        ensures
            match *header {
                HeaderLookup::Missing => r matches Err(e) && bad_request(e, missing_user_text()),
                HeaderLookup::Unreadable => r matches Err(e) && bad_request(e, bad_user_text()),
                HeaderLookup::Text(text) => match uuid_parse(text@) {
                    Some(id) => r == Ok::<UserId, AppError>(UserId(id)),
                    None => r matches Err(e) && bad_request(e, bad_user_text()),
                },
            },
    {
        match header {
            HeaderLookup::Missing => Err(
                AppError::BadRequest(String::from_str("Не передан заголовок X-USER-ID")),
            ),
            HeaderLookup::Unreadable => Err(
                AppError::BadRequest(String::from_str("Некорректное значение заголовка X-USER-ID")),
            ),
            HeaderLookup::Text(text) => match parse_id(text.as_str()) {
                Some(id) => Ok(UserId(id)),
                None => Err(
                    AppError::BadRequest(
                        String::from_str("Некорректное значение заголовка X-USER-ID"),
                    ),
                ),
            },
        }
    }
}

/// Why a request's body could not be read as a transaction.
#[derive(Debug, PartialEq, Eq)]
pub enum BodyRejection {
    /// The body is JSON of the wrong shape; the reason, where one is known.
    DataError(Option<String>),
    /// The body is no JSON.
    SyntaxError,
    /// The request does not declare a JSON body.
    MissingContentType,
    /// The body could not be read.
    UnreadableBytes,
    /// Any other rejection, in its own words.
    Other(String),
}

/// The message for a body that is no transaction.
pub open spec fn bad_body_text() -> Seq<char> {
    "Передано некорректное тело запроса"@
}

/// The message for a body of the wrong shape, with the reason.
pub open spec fn bad_body_reason_text(reason: Seq<char>) -> Seq<char> {
    "Передано некорректное тело запроса: "@ + reason
}

/// The message for a request that does not declare a JSON body.
pub open spec fn content_type_text() -> Seq<char> {
    "Пожалуйста, укажите заголовок `Content-Type: application/json`"@
}

/// The message for a body that could not be read.
pub open spec fn unreadable_body_text() -> Seq<char> {
    "Не удалось прочитать тело запроса"@
}

impl BodyRejection {
    /// The error that reports the rejection to the caller.
    pub open spec fn reported_as(self, e: AppError) -> bool {
        match self {
            BodyRejection::DataError(Some(reason)) => bad_request(
                e,
                bad_body_reason_text(reason@),
            ),
            BodyRejection::DataError(None) => bad_request(e, bad_body_text()),
            BodyRejection::SyntaxError => bad_request(e, bad_body_text()),
            BodyRejection::MissingContentType => bad_request(e, content_type_text()),
            BodyRejection::UnreadableBytes => system_error(e, unreadable_body_text()),
            BodyRejection::Other(text) => system_error(e, text@),
        }
    }

    /// Turns the rejection into the error that the caller is sent.
    pub fn into_error(self) -> (e: AppError)
        ensures
            self.reported_as(e),
    {
        match self {
            BodyRejection::DataError(Some(reason)) => AppError::BadRequest(
                String::from_str("Передано некорректное тело запроса: ").concat(reason.as_str()),
            ),
            BodyRejection::DataError(None) => AppError::BadRequest(
                String::from_str("Передано некорректное тело запроса"),
            ),
            BodyRejection::SyntaxError => AppError::BadRequest(
                String::from_str("Передано некорректное тело запроса"),
            ),
            BodyRejection::MissingContentType => AppError::BadRequest(
                String::from_str("Пожалуйста, укажите заголовок `Content-Type: application/json`"),
            ),
            BodyRejection::UnreadableBytes => AppError::SystemError(
                String::from_str("Не удалось прочитать тело запроса"),
            ),
            BodyRejection::Other(text) => AppError::SystemError(text),
        }
    }
}

impl ApiTransaction {
    /// The outcome of reading a request's body: the transaction that it
    /// holds, or the error that reports why it holds none.
    pub fn from_request(body: Result<ApiTransaction, BodyRejection>) -> (r: Result<
        ApiTransaction,
        AppError,
    >)
        ensures
            match body {
                Ok(dto) => r == Ok::<ApiTransaction, AppError>(dto),
                Err(rejection) => r matches Err(e) && rejection.reported_as(e),
            },
    {
        match body {
            Ok(dto) => Ok(dto),
            Err(rejection) => Err(rejection.into_error()),
        }
    }
}

} // verus!
