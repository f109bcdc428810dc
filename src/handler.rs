//! The per-request decision: log the request, then reply at once or read a
//! file below the serve root and reply with what the read gave.
use vstd::prelude::*;

use crate::request::{logs, request_log, IncomingRequest, LogRecord};
use crate::response::{file_reply, not_found_reply, ok_reply, Reply, ReplyView, STATUS_OK};
use crate::target::{file_path_for, file_path_of, index_name};

verus! {

/// What is left to do for a request once it has been logged.
pub enum Dispatch {
    /// Send this reply.
    Respond(Reply),
    /// Read this file, relative to the serve root, and send `serve_file` of
    /// the outcome.
    ReadFile(String),
}

/// The mathematical form of a `Dispatch`.
pub enum DispatchView {
    Respond(ReplyView),
    ReadFile(Seq<char>),
}

impl View for Dispatch {
    type V = DispatchView;

    open spec fn view(&self) -> DispatchView {
        match self {
            Dispatch::Respond(reply) => DispatchView::Respond(reply@),
            Dispatch::ReadFile(name) => DispatchView::ReadFile(name@),
        }
    }
}

/// The step for a request with path `path`: without a serve root the fixed
/// `OK` reply, with one a read of the file that the path names.
pub open spec fn dispatch_of(path: Seq<char>, serving_files: bool) -> DispatchView {
    if serving_files {
        DispatchView::ReadFile(file_path_of(path))
    } else {
        DispatchView::Respond(ok_reply())
    }
}

/// What reading `name` below a serve root gives, where `files` maps the
/// relative name of each readable file to its contents.
pub open spec fn read_of(files: Map<Seq<char>, Seq<u8>>, name: Seq<char>) -> Option<Seq<u8>> {
    if files.contains_key(name) {
        Some(files[name])
    } else {
        None
    }
}

/// The reply to a request with path `path`, where `serving_files` tells
/// whether a serve root is configured and `files` holds its readable files.
pub open spec fn response_for(
    path: Seq<char>,
    serving_files: bool,
    files: Map<Seq<char>, Seq<u8>>,
) -> ReplyView {
    match dispatch_of(path, serving_files) {
        DispatchView::Respond(reply) => reply,
        DispatchView::ReadFile(name) => file_reply(read_of(files, name)),
    }
}

/// Handles one request: builds its log record and decides the next step.
/// `serving_files` tells whether a serve root is configured.
pub fn handle(req: &IncomingRequest, serving_files: bool) -> (r: (LogRecord, Dispatch))
    ensures
        logs(req, &r.0),
        r.1@ == dispatch_of(req.path@, serving_files),
{
    let record = request_log(req);
    if serving_files {
        (record, Dispatch::ReadFile(file_path_for(req.path.as_str())))
    } else {
        (record, Dispatch::Respond(Reply::ok()))
    }
}

/// Without a serve root every request, whatever its method, path or headers,
/// gets status 200 and the body `OK\n`.
pub proof fn lemma_no_root_replies_ok(path: Seq<char>, files: Map<Seq<char>, Seq<u8>>)
    ensures
        response_for(path, false, files) == ok_reply(),
{
}

/// With a serve root whose `index.html` holds `contents`, the path `/` and
/// the empty path both get status 200 and exactly `contents`.
pub proof fn lemma_root_path_serves_index(files: Map<Seq<char>, Seq<u8>>, contents: Seq<u8>)
    requires
        files.contains_key(index_name()),
        files[index_name()] == contents,
    ensures
        response_for(seq!['/'], true, files) == (ReplyView { status: STATUS_OK, body: contents }),
        response_for(Seq::empty(), true, files) == (ReplyView {
            status: STATUS_OK,
            body: contents,
        }),
{
    assert(seq!['/'].drop_first() =~= Seq::<char>::empty());
}

/// With a serve root that has no readable file where a path leads, that path
/// gets status 404 and the body `Not Found`.
pub proof fn lemma_missing_file_not_found(path: Seq<char>, files: Map<Seq<char>, Seq<u8>>)
    requires
        !files.contains_key(file_path_of(path)),
    ensures
        response_for(path, true, files) == not_found_reply(),
{
}

/// With a serve root holding a file `name` (not itself starting with `/`),
/// the path `/` followed by `name` gets status 200 and exactly its contents.
pub proof fn lemma_named_file_served(
    name: Seq<char>,
    files: Map<Seq<char>, Seq<u8>>,
    contents: Seq<u8>,
)
    requires
        name.len() > 0,
        name[0] != '/',
        files.contains_key(name),
        files[name] == contents,
    ensures
        response_for(seq!['/'] + name, true, files) == (ReplyView {
            status: STATUS_OK,
            body: contents,
        }),
{
    assert((seq!['/'] + name).drop_first() =~= name);
}

/// Repeating a request gives the same reply each time, as long as the file
/// it leads to is unchanged: nothing else is read or kept between requests.
pub proof fn lemma_repeated_request_same_reply(
    path: Seq<char>,
    serving_files: bool,
    files_before: Map<Seq<char>, Seq<u8>>,
    files_after: Map<Seq<char>, Seq<u8>>,
)
    requires
        read_of(files_before, file_path_of(path)) == read_of(files_after, file_path_of(path)),
    ensures
        response_for(path, serving_files, files_before) == response_for(
            path,
            serving_files,
            files_after,
        ),
{
}

} // verus!
