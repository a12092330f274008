//! The application envelope and its two payloads, as values.
//!
//! Each type has a view that replaces strings and byte vectors by sequences;
//! the contracts of the codec and of the driver speak of those views.

use vstd::prelude::*;

verus! {

/// The view of an optional string.
pub open spec fn opt_chars(s: Option<String>) -> Option<Seq<char>> {
    match s {
        Some(s) => Some(s@),
        None => None,
    }
}

/// The view of an optional byte vector.
pub open spec fn opt_bytes(b: Option<Vec<u8>>) -> Option<Seq<u8>> {
    match b {
        Some(b) => Some(b@),
        None => None,
    }
}

/// The view of a list of strings.
pub open spec fn all_chars(v: Seq<String>) -> Seq<Seq<char>> {
    Seq::new(v.len(), |i: int| v[i]@)
}

/// A request as it travels: an identifier and an HTTP-like verb, path,
/// header lines and body, each of which may be absent.
#[derive(Debug, PartialEq)]
pub struct RequestProto {
    pub verb: Option<String>,
    pub path: Option<String>,
    pub body: Option<Vec<u8>>,
    pub headers: Vec<String>,
    pub id: Option<u64>,
}

/// What a [`RequestProto`] holds.
pub struct RequestModel {
    pub verb: Option<Seq<char>>,
    pub path: Option<Seq<char>>,
    pub body: Option<Seq<u8>>,
    pub headers: Seq<Seq<char>>,
    pub id: Option<u64>,
}

impl View for RequestProto {
    type V = RequestModel;

    open spec fn view(&self) -> RequestModel {
        RequestModel {
            verb: opt_chars(self.verb),
            path: opt_chars(self.path),
            body: opt_bytes(self.body),
            headers: all_chars(self.headers@),
            id: self.id,
        }
    }
}

/// A response as it travels.
#[derive(Debug, PartialEq)]
pub struct ResponseProto {
    pub id: Option<u64>,
    pub status: Option<u32>,
    pub message: Option<String>,
    pub headers: Vec<String>,
    pub body: Option<Vec<u8>>,
}

/// What a [`ResponseProto`] holds.
pub struct ResponseModel {
    pub id: Option<u64>,
    pub status: Option<u32>,
    pub message: Option<Seq<char>>,
    pub headers: Seq<Seq<char>>,
    pub body: Option<Seq<u8>>,
}

impl View for ResponseProto {
    type V = ResponseModel;

    open spec fn view(&self) -> ResponseModel {
        ResponseModel {
            id: self.id,
            status: self.status,
            message: opt_chars(self.message),
            headers: all_chars(self.headers@),
            body: opt_bytes(self.body),
        }
    }
}

/// The envelope: a type tag and at most one payload of each kind.
#[derive(Debug, PartialEq)]
pub struct MessageProto {
    pub message_type: Option<i32>,
    pub request: Option<RequestProto>,
    pub response: Option<ResponseProto>,
}

/// What a [`MessageProto`] holds.
pub struct MessageModel {
    pub message_type: Option<i32>,
    pub request: Option<RequestModel>,
    pub response: Option<ResponseModel>,
}

impl View for MessageProto {
    type V = MessageModel;

    open spec fn view(&self) -> MessageModel {
        MessageModel {
            message_type: self.message_type,
            request: match self.request {
                Some(r) => Some(r@),
                None => None,
            },
            response: match self.response {
                Some(r) => Some(r@),
                None => None,
            },
        }
    }
}

/// The tag of an envelope.
#[derive(Clone, Copy, Debug, PartialEq, Eq, Structural)]
pub enum ChatMessageType {
    Unknown,
    Request,
    Response,
}

impl ChatMessageType {
    /// The number that stands for this tag in an envelope.
    pub open spec fn number(self) -> i32 {
        match self {
            ChatMessageType::Unknown => 0,
            ChatMessageType::Request => 1,
            ChatMessageType::Response => 2,
        }
    }

    /// The tag that `value` stands for, if any.
    pub open spec fn of_number(value: i32) -> Option<ChatMessageType> {
        if value == 0 {
            Some(ChatMessageType::Unknown)
        } else if value == 1 {
            Some(ChatMessageType::Request)
        } else if value == 2 {
            Some(ChatMessageType::Response)
        } else {
            None
        }
    }

    /// Computes [`Self::number`].
    pub fn to_i32(self) -> (n: i32)
        ensures
            n == self.number(),
            Self::of_number(n) == Some(self),
    {
        match self {
            ChatMessageType::Unknown => 0,
            ChatMessageType::Request => 1,
            ChatMessageType::Response => 2,
        }
    }

    /// Reads a tag from its number; the number comes back where it names none.
    pub fn try_from_i32(value: i32) -> (r: Result<ChatMessageType, i32>)
        ensures
            r == match Self::of_number(value) {
                Some(t) => Ok::<ChatMessageType, i32>(t),
                None => Err::<ChatMessageType, i32>(value),
            },
    {
        if value == 0 {
            Ok(ChatMessageType::Unknown)
        } else if value == 1 {
            Ok(ChatMessageType::Request)
        } else if value == 2 {
            Ok(ChatMessageType::Response)
        } else {
            Err(value)
        }
    }
}

/// A frame of the channel below: text or bytes.
#[derive(Debug, PartialEq)]
pub enum TextOrBinary {
    Text(String),
    Binary(Vec<u8>),
}

} // verus!
