//! What the gateway sends back to its caller.

use crate::record::{FileRecord, FileRecordView};
use vstd::prelude::*;
use vstd::string::*;

verus! {

/// Status of a failure that the caller's request brought about.
pub const BAD_REQUEST: u16 = 400;

/// Status of a request for something that is not there.
pub const NOT_FOUND: u16 = 404;

/// Status of a failure on the provider's side.
pub const UPSTREAM_FAILURE: u16 = 500;

/// Said when the path names no route.
pub const NO_ROUTE: &'static str = "Not found";

/// Said when the name in the path does not decode to text.
pub const INVALID_NAME: &'static str = "Invalid file name encoding";

/// Said when the folder holds no entry of the requested name.
pub const FILE_NOT_FOUND: &'static str = "File not found";

/// Said when the provider does not list the folder.
pub const LIST_FAILED: &'static str = "Failed to fetch files from Google Drive";

/// Said when the provider does not run the search.
pub const SEARCH_FAILED: &'static str = "Failed to search for file";

/// Said when the provider does not describe the target of an alias.
pub const TARGET_FAILED: &'static str = "Failed to fetch target file of shortcut";

/// Said when the provider does not hand out the content of an entry.
pub const DOWNLOAD_FAILED: &'static str = "Failed to download file";

/// Name of the header that carries the content type.
pub const CONTENT_TYPE: &'static str = "Content-Type";

/// Name of the header that says how the content is to be presented.
pub const CONTENT_DISPOSITION: &'static str = "Content-Disposition";

/// One header of a reply.
#[derive(Clone, Debug, PartialEq, Eq)]
pub struct Header {
    pub name: String,
    pub value: String,
}

/// A reply to the caller.
#[derive(Clone, Debug, PartialEq, Eq)]
pub enum Reply {
    /// An HTML document, sent with a success status.
    Page { html: String },
    /// The bytes of a file, sent with a success status and these headers.
    File { body: Vec<u8>, headers: Vec<Header> },
    /// A plain-text message under a failure status.
    Failure { status: u16, message: String },
}

/// A [`Header`] as a value of specifications.
pub struct HeaderView {
    pub name: Seq<char>,
    pub value: Seq<char>,
}

/// A [`Reply`] as a value of specifications.
pub enum ReplyView {
    Page { html: Seq<char> },
    File { body: Seq<u8>, headers: Seq<HeaderView> },
    Failure { status: u16, message: Seq<char> },
}

impl View for Header {
    type V = HeaderView;

    open spec fn view(&self) -> HeaderView {
        HeaderView { name: self.name@, value: self.value@ }
    }
}

impl View for Reply {
    type V = ReplyView;

    open spec fn view(&self) -> ReplyView {
        match *self {
            Reply::Page { html } => ReplyView::Page { html: html@ },
            Reply::File { body, headers } => ReplyView::File {
                body: body@,
                headers: headers@.map_values(|header: Header| header@),
            },
            Reply::Failure { status, message } => ReplyView::Failure { status, message: message@ },
        }
    }
}

/// The failure reply with a given status and message.
pub open spec fn failure(status: u16, message: Seq<char>) -> ReplyView {
    ReplyView::Failure { status, message }
}

/// The value of the disposition header for a file name: the name stands
/// between the quotes as it is.
pub open spec fn inline_disposition(name: Seq<char>) -> Seq<char> {
    "inline; filename=\""@ + name + "\""@
}

/// The reply that serves `body` as the content of `file`: the content type is
/// the entry's label, the disposition carries the entry's name, and the body
/// is `body`, byte for byte.
pub open spec fn file_reply(file: FileRecordView, body: Seq<u8>) -> ReplyView {
    ReplyView::File {
        body,
        headers: seq![
            HeaderView { name: CONTENT_TYPE@, value: file.mime_type },
            HeaderView { name: CONTENT_DISPOSITION@, value: inline_disposition(file.name) },
        ],
    }
}

impl Reply {
    /// Builds a failure reply.
    pub fn fail(status: u16, message: &str) -> (reply: Reply)
        ensures
            reply@ == failure(status, message@),
    {
        Reply::Failure { status, message: String::from_str(message) }
    }

    /// Builds the reply that serves `body` as the content of `file`.
    pub fn serve(file: &FileRecord, body: Vec<u8>) -> (reply: Reply)
        ensures
            reply@ == file_reply(file@, body@),
    {
        let mut disposition = String::from_str("inline; filename=\"");
        disposition.append(file.name.as_str());
        disposition.append("\"");
        let mut headers: Vec<Header> = Vec::new();
        headers.push(Header { name: String::from_str(CONTENT_TYPE), value: file.mime_type.clone() });
        headers.push(Header { name: String::from_str(CONTENT_DISPOSITION), value: disposition });
        let reply = Reply::File { body, headers };
        proof {
            assert(reply@->File_headers =~= file_reply(file@, body@)->File_headers);
        }
        reply
    }

    /// The status under which the reply is sent.
    pub fn status(&self) -> (code: u16)
        ensures
            code == reply_status(self@),
    {
        match self {
            Reply::Failure { status, .. } => *status,
            _ => 200,
        }
    }
}

/// The status of a reply: that of the failure, or 200.
pub open spec fn reply_status(reply: ReplyView) -> u16 {
    match reply {
        ReplyView::Failure { status, .. } => status,
        _ => 200,
    }
}

} // verus!
