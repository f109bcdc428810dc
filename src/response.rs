//! The replies a request can get.
use vstd::prelude::*;

verus! {

/// The status of a successful reply.
pub const STATUS_OK: u16 = 200;

/// The status of a reply for a file that could not be read.
pub const STATUS_NOT_FOUND: u16 = 404;

/// A status and the body bytes sent with it.
pub struct Reply {
    pub status: u16,
    pub body: Vec<u8>,
}

/// The mathematical form of a `Reply`.
pub struct ReplyView {
    pub status: u16,
    pub body: Seq<u8>,
}

impl View for Reply {
    type V = ReplyView;

    open spec fn view(&self) -> ReplyView {
        ReplyView { status: self.status, body: self.body@ }
    }
}

/// The bytes of `OK\n`.
pub open spec fn ok_body() -> Seq<u8> {
    seq![0x4Fu8, 0x4Bu8, 0x0Au8]
}

/// The bytes of `Not Found`.
pub open spec fn not_found_body() -> Seq<u8> {
    seq![0x4Eu8, 0x6Fu8, 0x74u8, 0x20u8, 0x46u8, 0x6Fu8, 0x75u8, 0x6Eu8, 0x64u8]
}

/// The reply given when no serve root is configured.
pub open spec fn ok_reply() -> ReplyView {
    ReplyView { status: STATUS_OK, body: ok_body() }
}

/// The reply given for a file that could not be read, whatever the cause.
pub open spec fn not_found_reply() -> ReplyView {
    ReplyView { status: STATUS_NOT_FOUND, body: not_found_body() }
}

/// The reply for a file read: its exact bytes where it was read, otherwise
/// the plain not-found reply.
pub open spec fn file_reply(read: Option<Seq<u8>>) -> ReplyView {
    match read {
        Some(contents) => ReplyView { status: STATUS_OK, body: contents },
        None => not_found_reply(),
    }
}

impl Reply {
    /// The fixed reply of a listener with no serve root: status 200, body `OK\n`.
    pub fn ok() -> (r: Reply)
        ensures
            r@ == ok_reply(),
    {
        let body: Vec<u8> = vec![0x4Fu8, 0x4Bu8, 0x0Au8];
        assert(body@ =~= ok_body());
        Reply { status: STATUS_OK, body }
    }

    /// The reply for a file that could not be read: status 404, body `Not Found`.
    pub fn not_found() -> (r: Reply)
        ensures
            r@ == not_found_reply(),
    {
        let body: Vec<u8> = vec![0x4Eu8, 0x6Fu8, 0x74u8, 0x20u8, 0x46u8, 0x6Fu8, 0x75u8, 0x6Eu8, 0x64u8];
        assert(body@ =~= not_found_body());
        Reply { status: STATUS_NOT_FOUND, body }
    }
}

/// The reply for the outcome of reading the requested file: `Some` with its
/// bytes where the read succeeded, `None` where it failed for any reason.
pub fn serve_file(read: Option<Vec<u8>>) -> (r: Reply)
    ensures
        r@ == file_reply(
            match read {
                Some(v) => Some(v@),
                None => None,
            },
        ),
{
    match read {
        Some(contents) => Reply { status: STATUS_OK, body: contents },
        None => Reply::not_found(),
    }
}

} // verus!
