use vstd::prelude::*;
use vstd::utf8::valid_utf8;

use crate::access_log::{exchange_record, exchange_status, intake_of, IntakeModel};
use crate::mime::{guessed_mime, plain_text};
use crate::resolve::{content_type_of, index_document, relative_target, stays_under_root, target_of};
use crate::response::{bare_reply, reply_for, LookupModel, ReplyModel};

verus! {

/// The request path of the site's root.
pub open spec fn root_request() -> Seq<char> {
    seq!['/']
}

/// The request path that names the index document.
pub open spec fn index_request() -> Seq<char> {
    seq!['/'] + index_document()
}

/// A request whose file does not exist under the root is answered 404, with no
/// `Content-Type` and an empty body, whatever its path.
pub proof fn law_missing_file_is_not_found(p: Seq<char>)
    ensures
        reply_for(target_of(p), LookupModel::Missing) == bare_reply(404),
        reply_for(target_of(p), LookupModel::Missing).body.len() == 0,
{
}

/// A request whose path would leave the static root is answered 404, whatever
/// lies at that path.
pub proof fn law_escaping_path_is_not_found(p: Seq<char>, lookup: LookupModel)
    requires
        !stays_under_root(relative_target(p)),
    ensures
        reply_for(target_of(p), lookup) == bare_reply(404),
{
}

/// Requesting `/` is requesting `/index.html`: the same file, the same type, and
/// so the same reply for whatever the lookup finds.
pub proof fn law_root_is_index(lookup: LookupModel)
    ensures
        relative_target(root_request()) == relative_target(index_request()),
        target_of(root_request()) == target_of(index_request()),
        reply_for(target_of(root_request()), lookup) == reply_for(
            target_of(index_request()),
            lookup,
        ),
{
    assert(relative_target(root_request()) =~= index_document());
    assert(relative_target(index_request()) =~= index_document());
}

/// A file that exists under the root is answered 200, with the type guessed
/// from its extension and its bytes unchanged.
pub proof fn law_found_file_is_served(p: Seq<char>, bytes: Seq<u8>)
    requires
        stays_under_root(relative_target(p)),
    ensures
        reply_for(target_of(p), LookupModel::Found(bytes)) == (ReplyModel {
            status: 200,
            content_type: Some(content_type_of(relative_target(p))),
            body: bytes,
        }),
        relative_target(p).contains('.') ==> content_type_of(relative_target(p)) == guessed_mime(
            relative_target(p),
        ),
{
}

/// A file whose path has no extension is served as plain text.
pub proof fn law_no_extension_is_plain_text(p: Seq<char>, bytes: Seq<u8>)
    requires
        stays_under_root(relative_target(p)),
        !relative_target(p).contains('.'),
    ensures
        reply_for(target_of(p), LookupModel::Found(bytes)).content_type == Some(plain_text()),
{
}

/// The one record of an exchange carries the status of the reply returned to
/// the client.
pub proof fn law_record_has_returned_status(
    uri: Seq<char>,
    method: Seq<char>,
    body: Seq<u8>,
    handler_status: u16,
)
    ensures
        exchange_record(uri, method, body, handler_status).status_code == exchange_status(
            body,
            handler_status,
        ),
        exchange_record(uri, method, body, handler_status).uri == uri,
        exchange_record(uri, method, body, handler_status).method == method,
{
}

/// Logging does not consume the body: the handler behind receives the very
/// bytes of the request.
pub proof fn law_body_passes_through(uri: Seq<char>, method: Seq<char>, body: Seq<u8>)
    requires
        valid_utf8(body),
    ensures
        intake_of(uri, method, body) matches IntakeModel::Forward { body: forwarded, .. }
            && forwarded == body,
{
}

} // verus!
