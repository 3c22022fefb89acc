//! Typed errors for every operation of the session layer.

use vstd::prelude::*;
use vstd::string::StringExecFns;

verus! {

/// Error taxonomy of the session layer. Each variant carries a
/// human-readable description of the failure.
#[derive(Debug, Clone)]
pub enum WhatsAppError {
    ConnectionError(String),
    AuthError(String),
    MessageSendError(String),
    MessageReceiveError(String),
    ProtocolError(String),
    SerializationError(String),
    DeserializationError(String),
    ParsingError(String),
    CryptoError(String),
    IOError(String),
    GroupError(String),
    MediaError(String),
    StoreError(String),
    UnknownError(String),
}

/// The mathematical value of a `WhatsAppError`: the same variant with the
/// description as a character sequence.
#[verifier::ext_equal]
pub enum ErrorView {
    ConnectionError(Seq<char>),
    AuthError(Seq<char>),
    MessageSendError(Seq<char>),
    MessageReceiveError(Seq<char>),
    ProtocolError(Seq<char>),
    SerializationError(Seq<char>),
    DeserializationError(Seq<char>),
    ParsingError(Seq<char>),
    CryptoError(Seq<char>),
    IOError(Seq<char>),
    GroupError(Seq<char>),
    MediaError(Seq<char>),
    StoreError(Seq<char>),
    UnknownError(Seq<char>),
}

impl View for WhatsAppError {
    type V = ErrorView;

    open spec fn view(&self) -> ErrorView {
        match self {
            WhatsAppError::ConnectionError(s) => ErrorView::ConnectionError(s@),
            WhatsAppError::AuthError(s) => ErrorView::AuthError(s@),
            WhatsAppError::MessageSendError(s) => ErrorView::MessageSendError(s@),
            WhatsAppError::MessageReceiveError(s) => ErrorView::MessageReceiveError(s@),
            WhatsAppError::ProtocolError(s) => ErrorView::ProtocolError(s@),
            WhatsAppError::SerializationError(s) => ErrorView::SerializationError(s@),
            WhatsAppError::DeserializationError(s) => ErrorView::DeserializationError(s@),
            WhatsAppError::ParsingError(s) => ErrorView::ParsingError(s@),
            WhatsAppError::CryptoError(s) => ErrorView::CryptoError(s@),
            WhatsAppError::IOError(s) => ErrorView::IOError(s@),
            WhatsAppError::GroupError(s) => ErrorView::GroupError(s@),
            WhatsAppError::MediaError(s) => ErrorView::MediaError(s@),
            WhatsAppError::StoreError(s) => ErrorView::StoreError(s@),
            WhatsAppError::UnknownError(s) => ErrorView::UnknownError(s@),
        }
    }
}

impl WhatsAppError {
    /// A copy whose value equals this error's value.
    pub fn deep_clone(&self) -> (r: Self)
        ensures
            r@ == self@,
    {
        match self {
            WhatsAppError::ConnectionError(s) => WhatsAppError::ConnectionError(s.clone()),
            WhatsAppError::AuthError(s) => WhatsAppError::AuthError(s.clone()),
            WhatsAppError::MessageSendError(s) => WhatsAppError::MessageSendError(s.clone()),
            WhatsAppError::MessageReceiveError(s) => WhatsAppError::MessageReceiveError(s.clone()),
            WhatsAppError::ProtocolError(s) => WhatsAppError::ProtocolError(s.clone()),
            WhatsAppError::SerializationError(s) => WhatsAppError::SerializationError(s.clone()),
            WhatsAppError::DeserializationError(s) => WhatsAppError::DeserializationError(
                s.clone(),
            ),
            WhatsAppError::ParsingError(s) => WhatsAppError::ParsingError(s.clone()),
            WhatsAppError::CryptoError(s) => WhatsAppError::CryptoError(s.clone()),
            WhatsAppError::IOError(s) => WhatsAppError::IOError(s.clone()),
            WhatsAppError::GroupError(s) => WhatsAppError::GroupError(s.clone()),
            WhatsAppError::MediaError(s) => WhatsAppError::MediaError(s.clone()),
            WhatsAppError::StoreError(s) => WhatsAppError::StoreError(s.clone()),
            WhatsAppError::UnknownError(s) => WhatsAppError::UnknownError(s.clone()),
        }
    }

    /// The description carried by the error, whatever the variant.
    pub open spec fn spec_detail(&self) -> Seq<char> {
        match self {
            WhatsAppError::ConnectionError(s) => s@,
            WhatsAppError::AuthError(s) => s@,
            WhatsAppError::MessageSendError(s) => s@,
            WhatsAppError::MessageReceiveError(s) => s@,
            WhatsAppError::ProtocolError(s) => s@,
            WhatsAppError::SerializationError(s) => s@,
            WhatsAppError::DeserializationError(s) => s@,
            WhatsAppError::ParsingError(s) => s@,
            WhatsAppError::CryptoError(s) => s@,
            WhatsAppError::IOError(s) => s@,
            WhatsAppError::GroupError(s) => s@,
            WhatsAppError::MediaError(s) => s@,
            WhatsAppError::StoreError(s) => s@,
            WhatsAppError::UnknownError(s) => s@,
        }
    }

    /// A message naming the error kind followed by its detail.
    pub fn message(&self) -> (r: String)
        ensures
            r@.len() >= self.spec_detail().len(),
    {
        let (label, detail): (&str, &String) = match self {
            WhatsAppError::ConnectionError(s) => ("Connection error: ", s),
            WhatsAppError::AuthError(s) => ("Authentication error: ", s),
            WhatsAppError::MessageSendError(s) => ("Message sending error: ", s),
            WhatsAppError::MessageReceiveError(s) => ("Message receiving error: ", s),
            WhatsAppError::ProtocolError(s) => ("Protocol error: ", s),
            WhatsAppError::SerializationError(s) => ("Serialization error: ", s),
            WhatsAppError::DeserializationError(s) => ("Deserialization error: ", s),
            WhatsAppError::ParsingError(s) => ("Parsing error: ", s),
            WhatsAppError::CryptoError(s) => ("Crypto error: ", s),
            WhatsAppError::IOError(s) => ("IO error: ", s),
            WhatsAppError::GroupError(s) => ("Group operation error: ", s),
            WhatsAppError::MediaError(s) => ("Media operation error: ", s),
            WhatsAppError::StoreError(s) => ("Store error: ", s),
            WhatsAppError::UnknownError(s) => ("Unknown error: ", s),
        };
        let mut r = label.to_owned();
        r.append(detail.as_str());
        r
    }
}

/// Result type for operations of the session layer.
pub type WhatsAppResult<T> = Result<T, WhatsAppError>;

} // verus!
