//! The upload request: from the first field of a multipart body to the file
//! that is written and the answer that is sent.
//!
//! Handling an upload takes three steps, and each step decides on what the
//! step before it met: the first field of the body, the field's content, and
//! the write into the storage directory. A step that fails ends the request
//! with a rejection; no later step is taken, so nothing is written.

use crate::status::Status;
use vstd::prelude::*;

verus! {

/// The largest request body the server admits, in bytes: 10 MiB.
pub const MAX_BODY_BYTES: usize = 10 * 1024 * 1024;

/// What the first field of a multipart body declares before its content is
/// read.
#[derive(Clone, Debug, PartialEq, Eq)]
pub struct Field {
    /// The file name the field declares, if it declares one.
    pub file_name: Option<String>,
}

/// The answer to an upload request.
#[derive(Clone, Debug, PartialEq, Eq)]
pub enum UploadReply {
    /// The file was stored.
    Created,
    /// The request was turned down, for the reason given.
    Rejected(String),
}

/// The mathematical form of an [`UploadReply`].
pub enum UploadReplyView {
    Created,
    Rejected(Seq<char>),
}

impl View for UploadReply {
    type V = UploadReplyView;

    open spec fn view(&self) -> UploadReplyView {
        match self {
            UploadReply::Created => UploadReplyView::Created,
            UploadReply::Rejected(reason) => UploadReplyView::Rejected(reason@),
        }
    }
}

impl UploadReplyView {
    /// The status the answer carries: a rejection is a client error.
    pub open spec fn status(self) -> Status {
        match self {
            UploadReplyView::Created => Status::Created,
            UploadReplyView::Rejected(_) => Status::BadRequest,
        }
    }

    /// The text the answer carries: the reason of a rejection, and nothing
    /// otherwise.
    pub open spec fn message(self) -> Seq<char> {
        match self {
            UploadReplyView::Created => Seq::<char>::empty(),
            UploadReplyView::Rejected(reason) => reason,
        }
    }
}

impl UploadReply {
    /// The status to answer with.
    pub fn status(&self) -> (s: Status)
        ensures
            s == self@.status(),
    {
        match self {
            UploadReply::Created => Status::Created,
            UploadReply::Rejected(_) => Status::BadRequest,
        }
    }

    /// The text to answer with.
    pub fn message(&self) -> (m: String)
        ensures
            m@ == self@.message(),
    {
        match self {
            UploadReply::Created => String::new(),
            UploadReply::Rejected(reason) => reason.clone(),
        }
    }
}

/// An upload whose field was accepted and whose content is still to be read.
#[derive(Debug, PartialEq, Eq)]
pub struct PendingUpload {
    file_name: String,
}

impl PendingUpload {
    /// The file name under which the content will be stored.
    pub closed spec fn name(&self) -> Seq<char> {
        self.file_name@
    }

    /// The file name under which the content will be stored.
    pub fn file_name(&self) -> (name: &str)
        ensures
            name@ == self.name(),
    {
        self.file_name.as_str()
    }

    /// Decides on the outcome of reading the field's content. Content that
    /// was read leads to a request to store it, byte for byte, under the
    /// name the field declared. A failed read (a malformed body, or one
    /// larger than the server admits) is rejected with the failure's text.
    pub fn accept_content(self, content: Result<Vec<u8>, String>) -> (r: Result<
        StoreRequest,
        UploadReply,
    >)
        ensures
            match content {
                Ok(bytes) => r is Ok && r->Ok_0@ == (StoreRequestView {
                    name: self.name(),
                    content: bytes@,
                }),
                Err(failure) => r is Err && r->Err_0@ == UploadReplyView::Rejected(failure@),
            },
    {
        match content {
            Ok(bytes) => Ok(StoreRequest { name: self.file_name, content: bytes }),
            Err(failure) => Err(UploadReply::Rejected(failure)),
        }
    }
}

/// A file to write into the storage directory. Writing it replaces a stored
/// file of the same name.
#[derive(Clone, Debug, PartialEq, Eq)]
pub struct StoreRequest {
    /// The name of the file within the storage directory.
    pub name: String,
    /// The bytes the file is to hold.
    pub content: Vec<u8>,
}

/// The mathematical form of a [`StoreRequest`].
pub struct StoreRequestView {
    pub name: Seq<char>,
    pub content: Seq<u8>,
}

impl View for StoreRequest {
    type V = StoreRequestView;

    open spec fn view(&self) -> StoreRequestView {
        StoreRequestView { name: self.name@, content: self.content@ }
    }
}

/// Decides on what reading the first field of the body gave; later fields
/// are never looked at. `first` is the field, nothing where the body holds
/// no field, or the failure's text where the body could not be read. Only a
/// field with a file name is accepted, under that name as it stands. A
/// field without a file name is rejected as such, and everything else as a
/// body without a file.
pub fn accept_field(first: Result<Option<Field>, String>) -> (r: Result<
    PendingUpload,
    UploadReply,
>)
    ensures
        match first {
            Ok(Some(field)) => match field.file_name {
                Some(name) => r is Ok && r->Ok_0.name() == name@,
                None => r is Err && r->Err_0@ == UploadReplyView::Rejected(
                    "No filename provided"@,
                ),
            },
            _ => r is Err && r->Err_0@ == UploadReplyView::Rejected("No file provided"@),
        },
{
    match first {
        Ok(Some(field)) => match field.file_name {
            Some(name) => Ok(PendingUpload { file_name: name }),
            None => Err(UploadReply::Rejected("No filename provided".to_owned())),
        },
        _ => Err(UploadReply::Rejected("No file provided".to_owned())),
    }
}

/// Decides on the outcome of writing the file: a file that was written is
/// answered with `Created`, a failed write with a rejection that carries
/// the failure's text.
pub fn conclude(written: Result<(), String>) -> (reply: UploadReply)
    ensures
        reply@ == match written {
            Ok(_) => UploadReplyView::Created,
            Err(failure) => UploadReplyView::Rejected(failure@),
        },
{
    match written {
        Ok(_) => UploadReply::Created,
        Err(failure) => UploadReply::Rejected(failure),
    }
}

} // verus!
