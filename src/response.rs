use vstd::prelude::*;

use crate::resolve::{Target, TargetModel, target_view};

verus! {

pub const STATUS_OK: u16 = 200;

pub const STATUS_BAD_REQUEST: u16 = 400;

pub const STATUS_NOT_FOUND: u16 = 404;

pub const STATUS_SERVER_ERROR: u16 = 500;

/// What reading the resolved file gave.
pub enum FileLookup {
    /// No file exists at the path.
    Missing,
    /// The file's whole contents.
    Found(Vec<u8>),
    /// The path exists but could not be read (a directory, no permission, gone
    /// since it was seen).
    Unreadable,
}

/// A file lookup as values.
pub enum LookupModel {
    Missing,
    Found(Seq<u8>),
    Unreadable,
}

impl View for FileLookup {
    type V = LookupModel;

    open spec fn view(&self) -> LookupModel {
        match self {
            FileLookup::Missing => LookupModel::Missing,
            FileLookup::Found(bytes) => LookupModel::Found(bytes@),
            FileLookup::Unreadable => LookupModel::Unreadable,
        }
    }
}

/// An HTTP reply: status, `Content-Type` where there is one, and body.
pub struct Reply {
    pub status: u16,
    pub content_type: Option<String>,
    pub body: Vec<u8>,
}

/// A reply as values.
pub struct ReplyModel {
    pub status: u16,
    pub content_type: Option<Seq<char>>,
    pub body: Seq<u8>,
}

impl View for Reply {
    type V = ReplyModel;

    open spec fn view(&self) -> ReplyModel {
        ReplyModel {
            status: self.status,
            content_type: match self.content_type {
                Some(c) => Some(c@),
                None => None,
            },
            body: self.body@,
        }
    }
}

/// A reply with `status`, no `Content-Type` and an empty body.
pub open spec fn bare_reply(status: u16) -> ReplyModel {
    ReplyModel { status, content_type: None, body: Seq::empty() }
}

/// The reply owed for a request that resolved to `target` where the lookup of
/// its file gave `lookup`.
pub open spec fn reply_for(target: Option<TargetModel>, lookup: LookupModel) -> ReplyModel {
    match target {
        None => bare_reply(404),
        Some(t) => match lookup {
            LookupModel::Missing => bare_reply(404),
            LookupModel::Found(bytes) => ReplyModel {
                status: 200,
                content_type: Some(t.content_type),
                body: bytes,
            },
            LookupModel::Unreadable => bare_reply(500),
        },
    }
}

/// A reply with `status`, no `Content-Type` and an empty body.
pub fn bare(status: u16) -> (r: Reply)
    ensures
        r@ == bare_reply(status),
{
    let r = Reply { status, content_type: None, body: Vec::new() };
    assert(r@.body =~= Seq::<u8>::empty());
    r
}

/// The reply to a request that resolved to `target`, given what the lookup of
/// its file found: 404 where there is no file under the root, 200 with the
/// file's type and bytes where it was read, 500 where it could not be read.
pub fn serve(target: Option<Target>, lookup: FileLookup) -> (r: Reply)
    ensures
        r@ == reply_for(target_view(target), lookup@),
{
    match target {
        None => bare(STATUS_NOT_FOUND),
        Some(t) => match lookup {
            FileLookup::Missing => bare(STATUS_NOT_FOUND),
            FileLookup::Found(bytes) => Reply {
                status: STATUS_OK,
                content_type: Some(t.content_type),
                body: bytes,
            },
            FileLookup::Unreadable => bare(STATUS_SERVER_ERROR),
        },
    }
}

} // verus!
