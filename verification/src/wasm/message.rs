//! The messages of the browser backend.

use vstd::prelude::*;
use vstd::std_specs::convert::{FromSpecImpl, TryFromSpecImpl};
use vstd::string::{StringExecFns, StringSliceAdditionalSpecFns};
use vstd::utf8::{encode_utf8, valid_utf8};

use super::error::Error;
use crate::text::{decimal, decimal_string};

verus! {

/// `core::str::from_utf8` accepts exactly the byte strings that are valid UTF-8, and returns
/// them as the text that they encode.
pub assume_specification<'a>[ core::str::from_utf8 ](data: &'a [u8]) -> (r: Result<
    &'a str,
    std::str::Utf8Error,
>)
    ensures
        r is Ok <==> valid_utf8(data@),
        r matches Ok(text) ==> encode_utf8(text@) == data@,
;

/// `String::into_bytes` returns the bytes of the string, which are its UTF-8 encoding.
pub assume_specification[ std::string::String::into_bytes ](text: std::string::String) -> (bytes:
    std::vec::Vec<u8>)
    ensures
        bytes@ == encode_utf8(text@),
;

/// Represents a WebSocket Message, after converting from JavaScript type.
#[derive(Debug, Clone, PartialEq, Eq, Hash)]
pub enum WsMessage {
    /// The data of the message is a string.
    Text(String),
    /// The message contains binary data.
    Binary(Vec<u8>),
}

/// The payload of a browser message event, as plain values.
#[derive(Debug, Clone, PartialEq, Eq)]
pub enum EventData {
    /// An array buffer, with its bytes.
    ArrayBuffer(Vec<u8>),
    /// A string, with its text where it is well-formed.
    Text(Option<String>),
    /// A blob.
    Blob,
    /// Anything else.
    Other,
}

impl WsMessage {
    /// The bytes of the message: the UTF-8 encoding of a text, the data of a binary message.
    pub open spec fn spec_data(&self) -> Seq<u8> {
        match self {
            WsMessage::Text(string) => encode_utf8(string@),
            WsMessage::Binary(data) => data@,
        }
    }

    /// The text that `to_string` gives for binary data of `len` bytes that is no text.
    pub open spec fn binary_label(len: nat) -> Seq<char> {
        "Binary Data<length="@ + decimal(len) + ">"@
    }

    /// Get the length of the WebSocket message.
    #[inline]
    pub fn len(&self) -> (len: usize)
        ensures
            len == self.spec_data().len(),
    {
        match self {
            Self::Text(string) => string.as_str().as_bytes().len(),
            Self::Binary(data) => data.len(),
        }
    }

    /// Returns true if the WebSocket message has no content.
    /// For example, if the other side of the connection sent an empty string.
    #[inline]
    pub fn is_empty(&self) -> (empty: bool)
        ensures
            empty == (self.spec_data().len() == 0),
    {
        self.len() == 0
    }

    /// Consume the message and return it as binary data.
    pub fn into_data(self) -> (data: Vec<u8>)
        ensures
            data@ == self.spec_data(),
    {
        match self {
            Self::Text(string) => string.into_bytes(),
            Self::Binary(data) => data,
        }
    }

    /// The bytes of the message, borrowed.
    pub fn as_bytes(&self) -> (data: &[u8])
        ensures
            data@ == self.spec_data(),
    {
        match self {
            Self::Text(string) => string.as_str().as_bytes(),
            Self::Binary(data) => data.as_slice(),
        }
    }

    /// Attempt to get a &str from the WebSocket message,
    /// this will try to convert binary data to utf8.
    pub fn to_text(&self) -> (r: Result<&str, Error>)
        ensures
            r is Ok <==> valid_utf8(self.spec_data()),
            r matches Ok(text) ==> encode_utf8(text@) == self.spec_data(),
            r matches Err(err) ==> err is Utf8,
            self matches WsMessage::Text(string) ==> r matches Ok(text) && text@ == string@,
    {
        match self {
            Self::Text(string) => {
                proof {
                    vstd::utf8::encode_utf8_valid_utf8(string@);
                }
                Ok(string.as_str())
            },
            Self::Binary(data) => match core::str::from_utf8(data.as_slice()) {
                Ok(text) => Ok(text),
                Err(err) => Err(Error::Utf8(err)),
            },
        }
    }

    /// The message as a line of text: the text of the message where it has one, and else a
    /// note of how many bytes of binary data it holds.
    pub fn to_string(&self) -> (line: String)
        ensures
            valid_utf8(self.spec_data()) ==> encode_utf8(line@) == self.spec_data(),
            !valid_utf8(self.spec_data()) ==> line@ == Self::binary_label(self.spec_data().len()),
    {
        match self.to_text() {
            Ok(text) => text.to_owned(),
            Err(_) => {
                let head = "Binary Data<length=".to_owned();
                head.concat(decimal_string(self.len() as u64).as_str()).concat(">")
            },
        }
    }
}

/// What the payload of a message event decodes to: an array buffer is a binary message and
/// a well-formed string a text message; a malformed string, a blob and anything else are
/// each refused with an error of their own.
pub open spec fn decoded(data: EventData) -> Result<WsMessage, Error> {
    match data {
        EventData::ArrayBuffer(bytes) => Ok(WsMessage::Binary(bytes)),
        EventData::Text(Some(text)) => Ok(WsMessage::Text(text)),
        EventData::Text(None) => Err(Error::InvalidEncoding),
        EventData::Blob => Err(Error::CantDecodeBlob),
        EventData::Other => Err(Error::UnknownDataType),
    }
}

impl TryFrom<EventData> for WsMessage {
    type Error = Error;

    /// Decodes the payload of a message event. An array buffer gives a binary message with
    /// the same bytes and a well-formed string a text message; everything else is refused.
    fn try_from(data: EventData) -> (r: Result<Self, Error>) {
        match data {
            EventData::ArrayBuffer(bytes) => Ok(WsMessage::Binary(bytes)),
            EventData::Text(Some(text)) => Ok(WsMessage::Text(text)),
            EventData::Text(None) => Err(Error::InvalidEncoding),
            EventData::Blob => Err(Error::CantDecodeBlob),
            EventData::Other => Err(Error::UnknownDataType),
        }
    }
}

impl TryFromSpecImpl<EventData> for WsMessage {
    open spec fn obeys_try_from_spec() -> bool {
        true
    }

    open spec fn try_from_spec(data: EventData) -> Result<Self, Error> {
        decoded(data)
    }
}

/// Decoding keeps binary data as it is and invents none: an array buffer gives a binary
/// message of exactly its bytes, and a blob gives an error, never a message.
pub proof fn lemma_decode_keeps_bytes(bytes: Vec<u8>)
    ensures
        decoded(EventData::ArrayBuffer(bytes)) matches Ok(msg) && msg is Binary
            && msg.spec_data() == bytes@,
        decoded(EventData::Blob) == Err::<WsMessage, Error>(Error::CantDecodeBlob),
{
}

impl From<Vec<u8>> for WsMessage {
    fn from(vec: Vec<u8>) -> (msg: Self) {
        WsMessage::Binary(vec)
    }
}

impl FromSpecImpl<Vec<u8>> for WsMessage {
    open spec fn obeys_from_spec() -> bool {
        true
    }

    open spec fn from_spec(vec: Vec<u8>) -> Self {
        WsMessage::Binary(vec)
    }
}

impl From<String> for WsMessage {
    fn from(s: String) -> (msg: Self) {
        WsMessage::Text(s)
    }
}

impl FromSpecImpl<String> for WsMessage {
    open spec fn obeys_from_spec() -> bool {
        true
    }

    open spec fn from_spec(s: String) -> Self {
        WsMessage::Text(s)
    }
}

} // verus!
