//! What holds of requests and answers on their way between a client and the daemon.

use crate::daemon::client::DaemonClient;
use crate::daemon::handlers::{
    empty_params, handle_request, handle_with_params, transcript_error_code, Method,
};
use crate::daemon::protocol::{
    decode_request, Envelope, EnvelopeKind, TranscriptReadParams,
};
use crate::daemon::transcripts::{transcript_target, TranscriptOf};
use crate::error::{AppError, IoKind};
use crate::json::JsonPart;
use vstd::prelude::*;

verus! {

/// Whether an answer is an error with this code, to a request by this identifier.
pub open spec fn is_refusal(reply: Envelope, id: Option<String>, code: Seq<char>) -> bool {
    &&& reply.v == 1
    &&& reply.kind == EnvelopeKind::Error
    &&& reply.id == id
    &&& reply.params is None && reply.result is None
    &&& reply.error matches Some(error) && error.code@ == code
}

/// Whether an envelope is one that the daemon takes.
pub open spec fn is_sound(envelope: Envelope) -> bool {
    envelope.v == 1 && envelope.kind == EnvelopeKind::Request && envelope.method is Some
}

/// A request of the right version that names its method is taken as it is; every other line is
/// answered with an error, to its sender where that is known.
pub proof fn only_a_sound_request_is_taken(
    parsed: Result<Envelope, String>,
    result: Result<Envelope, Envelope>,
)
    requires
        call_ensures(decode_request, (parsed,), result),
    ensures
        result is Ok <==> parsed is Ok && is_sound(parsed->Ok_0),
        result is Ok ==> result->Ok_0 == parsed->Ok_0,
        parsed is Err ==> is_refusal(result->Err_0, None, "malformed_request"@),
        parsed matches Ok(envelope) && envelope.v != 1 ==> is_refusal(
            result->Err_0,
            parsed->Ok_0.id,
            "unsupported_version"@,
        ),
        parsed matches Ok(envelope) && envelope.v == 1 && !is_sound(envelope) ==> is_refusal(
            result->Err_0,
            parsed->Ok_0.id,
            "malformed_request"@,
        ),
        parsed matches Ok(envelope) && result is Err && envelope.method is Some ==> (
        result->Err_0.method is Some && result->Err_0.method->0@ == parsed->Ok_0.method->0@),
{
}

/// The ten methods and their names.
pub open spec fn is_called(method: Method, name: Seq<char>) -> bool {
    ||| method == Method::Hello && name == "hello"@
    ||| method == Method::RunStart && name == "run.start"@
    ||| method == Method::MessageAppend && name == "message.append"@
    ||| method == Method::IssuePrepStart && name == "issue-prep.start"@
    ||| method == Method::EventsStream && name == "events.stream"@
    ||| method == Method::ApprovalDecide && name == "approval.decide"@
    ||| method == Method::RunCancel && name == "run.cancel"@
    ||| method == Method::SessionsList && name == "sessions.list"@
    ||| method == Method::ShutdownIfIdle && name == "daemon.shutdown_if_idle"@
    ||| method == Method::TranscriptRead && name == "transcript.read"@
}

proof fn names_differ()
    ensures
        forall|method: Method, other: Method, name: Seq<char>|
            #[trigger] is_called(method, name) && #[trigger] is_called(other, name) ==> method
                == other,
{
    reveal_strlit("hello");
    reveal_strlit("run.start");
    reveal_strlit("message.append");
    reveal_strlit("issue-prep.start");
    reveal_strlit("events.stream");
    reveal_strlit("approval.decide");
    reveal_strlit("run.cancel");
    reveal_strlit("sessions.list");
    reveal_strlit("daemon.shutdown_if_idle");
    reveal_strlit("transcript.read");
    assert("hello"@.len() == 5 && "run.start"@.len() == 9 && "message.append"@.len() == 14);
    assert("issue-prep.start"@.len() == 16 && "events.stream"@.len() == 13);
    assert("approval.decide"@.len() == 15 && "run.cancel"@.len() == 10);
    assert("sessions.list"@.len() == 13 && "daemon.shutdown_if_idle"@.len() == 23);
    assert("transcript.read"@.len() == 15);
    assert("events.stream"@[0] == 'e' && "sessions.list"@[0] == 's');
    assert("approval.decide"@[0] == 'a' && "transcript.read"@[0] == 't');
}

/// A method is found by its own name and by no other; what is not the name of a method is not
/// supported.
pub proof fn a_method_is_found_by_its_name(
    id: Option<String>,
    method: Option<String>,
    result: Result<Method, Envelope>,
)
    requires
        call_ensures(handle_request, (id, method), result),
    ensures
        method is None ==> result is Err && is_refusal(result->Err_0, id, "malformed_request"@),
        method matches Some(name) ==> forall|known: Method|
            #[trigger] is_called(known, name@) <==> result == Ok::<Method, Envelope>(known),
        method is Some && result is Err ==> is_refusal(
            result->Err_0,
            id,
            "unsupported_method"@,
        ),
{
    names_differ();
    if let Some(name) = method {
        if let Ok(found) = result {
            assert(is_called(found, name@));
        }
        assert forall|known: Method| #[trigger] is_called(known, name@) implies result == Ok::<
            Method,
            Envelope,
        >(known) by {
            if let Ok(found) = result {
                assert(is_called(found, name@));
            }
        }
    }
}

/// A method gives its name back.
pub proof fn a_method_has_its_name(method: Method, name: &'static str)
    requires
        call_ensures(Method::as_str, (method,), name),
    ensures
        is_called(method, name@),
{
}

/// Parameters are taken over as they were read; without them, or where they could not be read, the
/// request is malformed.
pub proof fn parameters_are_taken_as_read<T>(
    id: Option<String>,
    method: Method,
    parsed: Option<Result<T, String>>,
    result: Result<T, Envelope>,
)
    requires
        call_ensures(handle_with_params::<T>, (id, method, parsed), result),
    ensures
        result is Ok <==> parsed is Some && parsed->0 is Ok,
        result is Ok ==> result->Ok_0 == parsed->0->Ok_0,
        result is Err ==> is_refusal(result->Err_0, id, "malformed_request"@),
        result is Err ==> result->Err_0.method is Some && is_called(
            method,
            result->Err_0.method->0@,
        ),
{
}

/// A request is put as it is: under its identifier and its method, with its parameters.
pub proof fn a_request_is_put_as_it_is(
    method: Method,
    id: &str,
    params: Option<String>,
    envelope: Envelope,
)
    requires
        call_ensures(DaemonClient::request_envelope, (method, id, params), envelope),
    ensures
        is_sound(envelope),
        envelope.id is Some && envelope.id->0@ == id@,
        is_called(method, envelope.method->0@),
        envelope.params == params,
        envelope.result is None && envelope.error is None,
{
}

/// The daemon takes every request that a client puts, as the method that it was put for.
pub proof fn a_put_request_is_understood(
    method: Method,
    id: &str,
    params: Option<String>,
    envelope: Envelope,
    taken: Result<Envelope, Envelope>,
    found: Result<Method, Envelope>,
)
    requires
        call_ensures(DaemonClient::request_envelope, (method, id, params), envelope),
        call_ensures(decode_request, (Ok(envelope),), taken),
        taken is Ok ==> call_ensures(
            handle_request,
            (taken->Ok_0.id, taken->Ok_0.method),
            found,
        ),
    ensures
        taken == Ok::<Envelope, Envelope>(envelope),
        found == Ok::<Method, Envelope>(method),
{
    only_a_sound_request_is_taken(Ok(envelope), taken);
    a_request_is_put_as_it_is(method, id, params, envelope);
    a_method_is_found_by_its_name(envelope.id, envelope.method, found);
}

/// Whether an answer is one to the request by this identifier.
pub open spec fn is_answer(response: Envelope, id: Seq<char>) -> bool {
    response.v == 1 && response.id is Some && response.id->0@ == id
}

/// A client takes the result of an answer to its own request, and nothing else: an error that the
/// daemon reports is passed on, and whatever is no such answer is an error of the protocol.
pub proof fn only_an_answer_is_taken(
    method: Method,
    id: &str,
    bytes_read: usize,
    parsed: Result<Envelope, String>,
    result: Result<String, AppError>,
)
    requires
        call_ensures(DaemonClient::decode_response, (method, id, bytes_read, parsed), result),
    ensures
        result is Ok <==> bytes_read > 0 && (parsed matches Ok(response) && is_answer(response, id@)
            && response.kind == EnvelopeKind::Response && response.result is Some),
        result matches Ok(body) ==> parsed->Ok_0.result == Some(body),
        bytes_read == 0 ==> (result matches Err(AppError::Io { kind, .. }) && kind
            == IoKind::UnexpectedEof),
        bytes_read > 0 && parsed is Err ==> result == Err::<String, AppError>(
            AppError::Json(parsed->Err_0),
        ),
        result matches Err(AppError::DaemonResponse(reported)) ==> parsed is Ok && is_answer(
            parsed->Ok_0,
            id@,
        ) && parsed->Ok_0.error == Some(reported),
        bytes_read > 0 && (parsed matches Ok(response) && is_answer(response, id@) && response.kind
            == EnvelopeKind::Error && response.error is Some) ==> result == Err::<String, AppError>(
            AppError::DaemonResponse(parsed->Ok_0.error->0),
        ),
        bytes_read > 0 && parsed is Ok && !is_answer(parsed->Ok_0, id@) ==> result is Err
            && result->Err_0 is DaemonProtocol,
{
}

/// Parameters are left out, or are an object without fields; nothing else counts as none.
pub proof fn no_parameters_are_none(params: &Option<JsonPart>, none: bool)
    requires
        call_ensures(empty_params, (params,), none),
    ensures
        params is None ==> none,
        params matches Some(part) ==> (none <==> part@ == (crate::json::JsonPartView::Object {
            is_empty: true,
        })),
{
}

/// What is not there is not found; every other error is the daemon's own.
pub proof fn only_what_is_missing_is_not_found(error: &AppError, code: &'static str)
    requires
        call_ensures(transcript_error_code, (error,), code),
    ensures
        error is RunNotFound || error is SessionNotFound || error is NoSqliteRuns || error
            is NoSqliteSessions ==> code@ == "not_found"@,
        !(error is RunNotFound || error is SessionNotFound || error is NoSqliteRuns || error
            is NoSqliteSessions) ==> code@ == "internal_error"@,
{
}

/// A run that is named counts before a session that is named; without either nothing can be read.
pub proof fn a_named_run_counts_first(
    id: Option<String>,
    params: TranscriptReadParams,
    result: Result<TranscriptOf, Envelope>,
)
    requires
        call_ensures(transcript_target, (id, params), result),
    ensures
        result is Err <==> params.run_id is None && params.session_id is None,
        result is Err ==> is_refusal(result->Err_0, id, "malformed_request"@),
        params.run_id matches Some(run_id) ==> result == Ok::<TranscriptOf, Envelope>(
            TranscriptOf::Run(run_id),
        ),
        params.run_id is None ==> (params.session_id matches Some(session_id) ==> result == Ok::<
            TranscriptOf,
            Envelope,
        >(TranscriptOf::Session(session_id))),
{
}

} // verus!
