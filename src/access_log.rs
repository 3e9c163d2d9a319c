use vstd::prelude::*;
use vstd::utf8::{decode_utf8, valid_utf8};

use crate::response::{STATUS_BAD_REQUEST, STATUS_OK};

verus! {

/// The record kept of one exchange: the request's URI, method and body text,
/// and the status of the reply.
pub struct AccessLog {
    pub uri: String,
    pub method: String,
    pub req_body: String,
    pub status_code: u16,
}

/// An access-log record as values.
pub struct AccessLogModel {
    pub uri: Seq<char>,
    pub method: Seq<char>,
    pub req_body: Seq<char>,
    pub status_code: u16,
}

impl View for AccessLog {
    type V = AccessLogModel;

    open spec fn view(&self) -> AccessLogModel {
        AccessLogModel {
            uri: self.uri@,
            method: self.method@,
            req_body: self.req_body@,
            status_code: self.status_code,
        }
    }
}

/// The request as the middleware hands it on, or the reply it gives itself.
pub enum Intake {
    /// Pass the request on with `body`; `log` waits for the reply's status.
    Forward { log: AccessLog, body: Vec<u8> },
    /// The body is not UTF-8 text: answer 400 at once; `log` is complete.
    Reject { log: AccessLog },
}

/// The record opened for a request with the given URI, method and body text,
/// before the reply is known.
pub open spec fn opened_record(uri: Seq<char>, method: Seq<char>, body: Seq<char>) -> AccessLogModel {
    AccessLogModel { uri, method, req_body: body, status_code: 200 }
}

/// An intake as values.
pub enum IntakeModel {
    Forward { log: AccessLogModel, body: Seq<u8> },
    Reject { log: AccessLogModel },
}

impl View for Intake {
    type V = IntakeModel;

    open spec fn view(&self) -> IntakeModel {
        match self {
            Intake::Forward { log, body } => IntakeModel::Forward { log: log@, body: body@ },
            Intake::Reject { log } => IntakeModel::Reject { log: log@ },
        }
    }
}

/// How a request with the given URI, method and body bytes is taken in: handed
/// on with the same bytes and a record of its body text where the bytes are
/// UTF-8, answered with 400 otherwise.
pub open spec fn intake_of(uri: Seq<char>, method: Seq<char>, body: Seq<u8>) -> IntakeModel {
    if valid_utf8(body) {
        IntakeModel::Forward { log: opened_record(uri, method, decode_utf8(body)), body }
    } else {
        IntakeModel::Reject { log: closed_record(opened_record(uri, method, Seq::empty()), 400) }
    }
}

/// `log` once the reply's status is known.
pub open spec fn closed_record(log: AccessLogModel, status: u16) -> AccessLogModel {
    AccessLogModel { status_code: status, ..log }
}

/// Relies on `std::str::from_utf8`: it succeeds exactly on well-formed UTF-8, and
/// the text then holds the characters that the bytes encode.
#[verifier::external_body]
fn decode_text(bytes: &[u8]) -> (r: Option<String>)
    ensures
        r is Some <==> valid_utf8(bytes@),
        r matches Some(s) ==> s@ == decode_utf8(bytes@),
{
    match std::str::from_utf8(bytes) {
        Ok(text) => Some(text.to_owned()),
        Err(_) => None,
    }
}

/// Takes in a request: reads its whole body as text and opens its record. The
/// body's bytes are handed on unchanged, so the handler behind can still read
/// them. A body that is not UTF-8 gets a 400 reply, recorded with an empty body
/// text.
pub fn begin_exchange(uri: String, method: String, body: Vec<u8>) -> (r: Intake)
    ensures
        r@ == intake_of(uri@, method@, body@),
{
    match decode_text(body.as_slice()) {
        Some(text) => Intake::Forward {
            log: AccessLog { uri, method, req_body: text, status_code: STATUS_OK },
            body,
        },
        None => {
            let log = AccessLog {
                uri,
                method,
                req_body: String::new(),
                status_code: STATUS_BAD_REQUEST,
            };
            assert(log@ == closed_record(opened_record(uri@, method@, Seq::empty()), 400));
            Intake::Reject { log }
        },
    }
}

impl AccessLog {
    /// Sets the status of the reply that was actually returned; the rest of the
    /// record stays.
    pub fn record_status(&mut self, status: u16)
        ensures
            final(self)@ == closed_record(old(self)@, status),
    {
        self.status_code = status;
    }
}

/// The record emitted for an exchange whose handler, if it was reached, replied
/// with `handler_status`.
pub open spec fn exchange_record(
    uri: Seq<char>,
    method: Seq<char>,
    body: Seq<u8>,
    handler_status: u16,
) -> AccessLogModel {
    match intake_of(uri, method, body) {
        IntakeModel::Forward { log, .. } => closed_record(log, handler_status),
        IntakeModel::Reject { log } => log,
    }
}

/// The status of the reply returned to the client for that exchange.
pub open spec fn exchange_status(body: Seq<u8>, handler_status: u16) -> u16 {
    if valid_utf8(body) {
        handler_status
    } else {
        400
    }
}

/// Ends an exchange whose reply had status `returned_status`: the record is
/// consumed and handed back complete, ready to be emitted once.
pub fn close_exchange(log: AccessLog, returned_status: u16) -> (r: AccessLog)
    ensures
        r@ == closed_record(log@, returned_status),
{
    let mut log = log;
    log.record_status(returned_status);
    log
}

} // verus!
