//! The client's side of the protocol: what is asked, and what is made of the answers.

use crate::app::model::RunOverrides;
use crate::daemon::handlers::{self, Method};
use crate::daemon::protocol;
use crate::daemon::protocol::{
    ApprovalDecideParams, ApprovalDecision, Envelope, EnvelopeKind, EventsStreamParams,
    HelloParams, IssuePrepStartParams, MessageAppendParams, RunCancelParams, RunStartParams,
    TranscriptReadParams, PROTOCOL_VERSION,
};
use crate::error::{AppError, IoKind};
use crate::{text, time};
use vstd::prelude::*;

verus! {

/// The most bytes in an answer of a daemon whose process is known.
pub const CONTROL_RESPONSE_LIMIT: u64 = 65_536;

/// A connection to the daemon, as far as the protocol sees it.
#[derive(Debug, PartialEq, Eq)]
pub struct DaemonClient {
    pub next_id: u64,
    /// The most bytes in an answer.
    pub response_limit: Option<u64>,
    /// The moment by which an answer must be there.
    pub response_deadline: Option<u128>,
}

/// A request on its way to the daemon.
#[derive(Debug, PartialEq, Eq)]
pub struct ClientRequest<P> {
    pub id: String,
    pub method: Method,
    pub params: Option<P>,
}

/// A text with every dot made an underscore.
pub open spec fn underscored(s: Seq<char>) -> Seq<char> {
    s.map_values(
        |c: char|
            if c == '.' {
                '_'
            } else {
                c
            },
    )
}

/// The identifier of a request.
pub open spec fn request_id(method: Method, number: u64) -> Seq<char> {
    underscored(handlers::method_text(method)) + "_"@ + text::decimal(number as nat)
}

/// Whether a request was made as it should be, and the next one gets another number.
pub open spec fn requested<P>(
    before: DaemonClient,
    after: DaemonClient,
    request: ClientRequest<P>,
    method: Method,
) -> bool {
    &&& request.id@ == request_id(method, before.next_id)
    &&& request.method == method
    &&& after == (DaemonClient { next_id: (before.next_id + 1) as u64, ..before })
}

fn underscore_dots(s: &str) -> (result: String)
    ensures
        result@ == underscored(s@),
{
    let mut out = String::new();
    for c in it: s.chars()
        invariant
            out@ == underscored(s@.take(it.index())),
            it.seq() == s@,
    {
        let made = if c == '.' {
            '_'
        } else {
            c
        };
        out.push(made);
        assert(underscored(s@.take(it.index() + 1)) =~= underscored(s@.take(it.index())).push(
            made,
        ));
    }
    assert(s@.take(s@.len() as int) =~= s@);
    out
}

/// What the standard library's `Debug` writes of an optional string.
pub uninterp spec fn debug_text(value: Option<Seq<char>>) -> Seq<char>;

/// `format!` with `{:?}` writes the `Debug` form of an `Option<String>`; it is a function of the
/// value.
#[verifier::external_body]
fn debug_option(value: &Option<String>) -> (result: String)
    ensures
        result@ == debug_text(
            match value {
                Some(s) => Some(s@),
                None => None,
            },
        ),
{
    format!("{:?}", value)
}

/// What comes of the daemon's answer to a request: the result, as JSON, or the error. `bytes_read`
/// is the length of the answer, and `parsed` what came of reading it as an envelope.
pub open spec fn response_of(
    method: Method,
    id: Seq<char>,
    bytes_read: usize,
    parsed: Result<Envelope, String>,
    result: Result<String, AppError>,
) -> bool {
    if bytes_read == 0 {
        result matches Err(AppError::Io { kind, message }) && kind == IoKind::UnexpectedEof
            && message@ == "daemon connection closed before response"@
    } else {
        match parsed {
            Err(complaint) => result == Err::<String, AppError>(AppError::Json(complaint)),
            Ok(response) => if response.v != PROTOCOL_VERSION {
                result matches Err(AppError::DaemonProtocol(message)) && message@
                    == "unsupported response protocol version: "@ + text::decimal(
                    response.v as nat,
                )
            } else if !(response.id matches Some(found) && found@ == id) {
                result matches Err(AppError::DaemonProtocol(message)) && message@
                    == "response id mismatch: expected "@ + id + ", got "@ + debug_text(
                    match response.id {
                        Some(s) => Some(s@),
                        None => None,
                    },
                )
            } else {
                match response.kind {
                    EnvelopeKind::Response => match response.result {
                        Some(body) => result == Ok::<String, AppError>(body),
                        None => result matches Err(AppError::DaemonProtocol(message)) && message@
                            == handlers::method_text(method) + " response missing result"@,
                    },
                    EnvelopeKind::Error => match response.error {
                        Some(error) => result == Err::<String, AppError>(
                            AppError::DaemonResponse(error),
                        ),
                        None => result matches Err(AppError::DaemonProtocol(message)) && message@
                            == handlers::method_text(method) + " error missing payload"@,
                    },
                    EnvelopeKind::Request => result matches Err(AppError::DaemonProtocol(message))
                        && message@ == handlers::method_text(method)
                        + " returned unexpected envelope kind Request"@,
                    EnvelopeKind::Event => result matches Err(AppError::DaemonProtocol(message))
                        && message@ == handlers::method_text(method)
                        + " returned unexpected envelope kind Event"@,
                }
            },
        }
    }
}

/// Whether an envelope is a request by this identifier; `params` is JSON.
pub open spec fn is_request(
    envelope: Envelope,
    method: Method,
    id: Seq<char>,
    params: Option<String>,
) -> bool {
    &&& envelope.v == PROTOCOL_VERSION
    &&& envelope.id matches Some(found) && found@ == id
    &&& envelope.kind == EnvelopeKind::Request
    &&& envelope.method matches Some(name) && name@ == handlers::method_text(method)
    &&& envelope.params == params
    &&& envelope.result is None
    &&& envelope.error is None
}

/// What one reading from the connection did to a line.
#[derive(Clone, Copy, Debug, PartialEq, Eq, Structural)]
pub struct LineStep {
    /// The bytes that belong to the line and are used up.
    pub consumed: usize,
    /// Whether the line is complete, or the connection was closed.
    pub done: bool,
}

/// The number of bytes up to the first line feed and with it, or all of them.
pub open spec fn line_part(available: Seq<u8>) -> int
    decreases available.len(),
{
    if available.len() == 0 {
        0
    } else if available[0] == 10u8 {
        1
    } else {
        1 + line_part(available.drop_first())
    }
}

/// The bytes of a reading that a line can take: up to one more than the limit.
pub open spec fn kept_part(line_len: nat, limit: Option<u64>, consumed: int) -> int {
    match limit {
        Some(limit) => {
            let room: int = if limit + 1 >= line_len {
                limit + 1 - line_len
            } else {
                0
            };
            if consumed <= room {
                consumed
            } else {
                room
            }
        },
        None => consumed,
    }
}

proof fn line_part_is(available: Seq<u8>, n: int)
    requires
        0 < n <= available.len(),
        forall|j: int| 0 <= j < n - 1 ==> #[trigger] available[j] != 10u8,
        n < available.len() ==> available[n - 1] == 10u8,
    ensures
        line_part(available) == n,
    decreases n,
{
    if available[0] != 10u8 {
        let rest = available.drop_first();
        if n > 1 {
            assert forall|j: int| 0 <= j < n - 2 implies #[trigger] rest[j] != 10u8 by {
                assert(rest[j] == available[j + 1]);
            }
            line_part_is(rest, n - 1);
        } else {
            assert(rest.len() == 0);
            assert(line_part(rest) == 0);
        }
    } else if n > 1 {
        assert(available[0] != 10u8);
    }
}

impl DaemonClient {
    /// A new connection.
    pub fn connect() -> (result: Self)
        ensures
            result == (DaemonClient { next_id: 1, response_limit: None, response_deadline: None }),
    {
        DaemonClient { next_id: 1, response_limit: None, response_deadline: None }
    }

    /// A new connection whose answers must be there in time.
    pub fn connect_with_timeout(now: u128, timeout: u128) -> (result: Self)
        requires
            time::moment_after(now, timeout) is Some,
        ensures
            result == (DaemonClient {
                next_id: 1,
                response_limit: None,
                response_deadline: Some((now + timeout) as u128),
            }),
    {
        let mut client = DaemonClient::connect();
        client.set_timeout(now, timeout);
        client
    }

    /// Answers must be there in time from now on.
    pub fn set_timeout(&mut self, now: u128, timeout: u128)
        requires
            time::moment_after(now, timeout) is Some,
        ensures
            *final(self) == (DaemonClient {
                response_deadline: Some((now + timeout) as u128),
                ..*old(self)
            }),
    {
        self.response_deadline = time::later(now, timeout);
    }

    /// A new connection to a daemon whose process is known.
    pub fn connect_expected_server() -> (result: Self)
        ensures
            result == (DaemonClient {
                next_id: 1,
                response_limit: Some(CONTROL_RESPONSE_LIMIT),
                response_deadline: None,
            }),
    {
        DaemonClient {
            next_id: 1,
            response_limit: Some(CONTROL_RESPONSE_LIMIT),
            response_deadline: None,
        }
    }

    /// The identifier of the next request.
    pub fn next_request_id(&mut self, method: Method) -> (result: String)
        requires
            old(self).next_id < u64::MAX,
        ensures
            result@ == request_id(method, old(self).next_id),
            *final(self) == (DaemonClient {
                next_id: (old(self).next_id + 1) as u64,
                ..*old(self)
            }),
    {
        let name = underscore_dots(method.as_str());
        let number = text::to_decimal(self.next_id);
        self.next_id = self.next_id + 1;
        text::concat3(name.as_str(), "_", number.as_str())
    }

    fn request<P>(&mut self, method: Method, params: Option<P>) -> (result: ClientRequest<P>)
        requires
            old(self).next_id < u64::MAX,
        ensures
            requested(*old(self), *final(self), result, method),
            result.params == params,
    {
        let id = self.next_request_id(method);
        ClientRequest { id, method, params }
    }

    /// The envelope of a request; `params` is JSON.
    pub fn request_envelope(method: Method, id: &str, params: Option<String>) -> (result: Envelope)
        ensures
            is_request(result, method, id@, params),
    {
        Envelope {
            v: PROTOCOL_VERSION,
            id: Some(id.to_owned()),
            kind: EnvelopeKind::Request,
            method: Some(method.as_str().to_owned()),
            params,
            result: None,
            error: None,
        }
    }

    /// Greets the daemon of a workspace, given by its resolved root.
    pub fn hello(&mut self, workspace_root: String, workspace_id: String) -> (result: ClientRequest<
        HelloParams,
    >)
        requires
            old(self).next_id < u64::MAX,
        ensures
            requested(*old(self), *final(self), result, Method::Hello),
            result.params == Some(HelloParams { workspace_root, workspace_id }),
    {
        self.request(Method::Hello, Some(HelloParams { workspace_root, workspace_id }))
    }

    /// Asks for the sessions of the workspace.
    pub fn sessions_list(&mut self) -> (result: ClientRequest<()>)
        requires
            old(self).next_id < u64::MAX,
        ensures
            requested(*old(self), *final(self), result, Method::SessionsList),
            result.params is None,
    {
        self.request(Method::SessionsList, None)
    }

    /// Asks the daemon to shut down.
    pub fn shutdown_if_idle(&mut self) -> (result: ClientRequest<()>)
        requires
            old(self).next_id < u64::MAX,
        ensures
            requested(*old(self), *final(self), result, Method::ShutdownIfIdle),
            result.params is None,
    {
        self.request(Method::ShutdownIfIdle, None)
    }

    /// Asks for the transcript of a run.
    pub fn transcript_read(&mut self, run_id: &str) -> (result: ClientRequest<TranscriptReadParams>)
        requires
            old(self).next_id < u64::MAX,
        ensures
            requested(*old(self), *final(self), result, Method::TranscriptRead),
            result.params matches Some(params) && params.session_id is None && (
            params.run_id matches Some(id) && id@ == run_id@),
    {
        self.request(
            Method::TranscriptRead,
            Some(TranscriptReadParams { run_id: Some(run_id.to_owned()), session_id: None }),
        )
    }

    /// Asks for the transcript of a session.
    pub fn transcript_read_session(&mut self, session_id: &str) -> (result: ClientRequest<
        TranscriptReadParams,
    >)
        requires
            old(self).next_id < u64::MAX,
        ensures
            requested(*old(self), *final(self), result, Method::TranscriptRead),
            result.params matches Some(params) && params.run_id is None && (
            params.session_id matches Some(id) && id@ == session_id@),
    {
        self.request(
            Method::TranscriptRead,
            Some(
                TranscriptReadParams { run_id: None, session_id: Some(session_id.to_owned()) },
            ),
        )
    }

    /// Starts a run in a new session.
    pub fn run_start(&mut self, question: String, config_path: Option<String>, wait: bool) -> (result:
        ClientRequest<RunStartParams>)
        requires
            old(self).next_id < u64::MAX,
        ensures
            requested(*old(self), *final(self), result, Method::RunStart),
            result.params == Some(
                RunStartParams {
                    question,
                    config_path,
                    overrides: RunOverrides { model: None, reasoning_effort: None },
                    wait: Some(wait),
                },
            ),
    {
        self.run_start_with_overrides(question, config_path, RunOverrides::default(), wait)
    }

    /// Starts a run in a new session, with its own settings.
    pub fn run_start_with_overrides(
        &mut self,
        question: String,
        config_path: Option<String>,
        overrides: RunOverrides,
        wait: bool,
    ) -> (result: ClientRequest<RunStartParams>)
        requires
            old(self).next_id < u64::MAX,
        ensures
            requested(*old(self), *final(self), result, Method::RunStart),
            result.params == Some(
                RunStartParams { question, config_path, overrides, wait: Some(wait) },
            ),
    {
        self.request(
            Method::RunStart,
            Some(RunStartParams { question, config_path, overrides, wait: Some(wait) }),
        )
    }

    /// Goes on with the latest session.
    pub fn message_append(
        &mut self,
        message: String,
        config_path: Option<String>,
        wait: bool,
    ) -> (result: ClientRequest<MessageAppendParams>)
        requires
            old(self).next_id < u64::MAX,
        ensures
            requested(*old(self), *final(self), result, Method::MessageAppend),
            result.params == Some(
                MessageAppendParams {
                    message,
                    session_id: None,
                    config_path,
                    overrides: RunOverrides { model: None, reasoning_effort: None },
                    wait: Some(wait),
                },
            ),
    {
        self.message_append_to_session(message, None, config_path, wait)
    }

    /// Goes on with a session, or with the latest one.
    pub fn message_append_to_session(
        &mut self,
        message: String,
        session_id: Option<String>,
        config_path: Option<String>,
        wait: bool,
    ) -> (result: ClientRequest<MessageAppendParams>)
        requires
            old(self).next_id < u64::MAX,
        ensures
            requested(*old(self), *final(self), result, Method::MessageAppend),
            result.params == Some(
                MessageAppendParams {
                    message,
                    session_id,
                    config_path,
                    overrides: RunOverrides { model: None, reasoning_effort: None },
                    wait: Some(wait),
                },
            ),
    {
        self.message_append_to_session_with_overrides(
            message,
            session_id,
            config_path,
            RunOverrides::default(),
            wait,
        )
    }

    /// Goes on with a session, or with the latest one, with settings of its own.
    pub fn message_append_to_session_with_overrides(
        &mut self,
        message: String,
        session_id: Option<String>,
        config_path: Option<String>,
        overrides: RunOverrides,
        wait: bool,
    ) -> (result: ClientRequest<MessageAppendParams>)
        requires
            old(self).next_id < u64::MAX,
        ensures
            requested(*old(self), *final(self), result, Method::MessageAppend),
            result.params == Some(
                MessageAppendParams {
                    message,
                    session_id,
                    config_path,
                    overrides,
                    wait: Some(wait),
                },
            ),
    {
        self.request(
            Method::MessageAppend,
            Some(
                MessageAppendParams {
                    message,
                    session_id,
                    config_path,
                    overrides,
                    wait: Some(wait),
                },
            ),
        )
    }

    /// Starts issue preparation.
    pub fn issue_prep_start(&mut self, input: String, config_path: Option<String>) -> (result:
        ClientRequest<IssuePrepStartParams>)
        requires
            old(self).next_id < u64::MAX,
        ensures
            requested(*old(self), *final(self), result, Method::IssuePrepStart),
            result.params == Some(IssuePrepStartParams { input, config_path }),
    {
        self.request(Method::IssuePrepStart, Some(IssuePrepStartParams { input, config_path }))
    }

    /// Asks for the events of a run.
    pub fn events_stream(&mut self, run_id: &str, from_offset: Option<u64>, limit: usize) -> (result:
        ClientRequest<EventsStreamParams>)
        requires
            old(self).next_id < u64::MAX,
        ensures
            requested(*old(self), *final(self), result, Method::EventsStream),
            result.params matches Some(params) && params.run_id@ == run_id@ && params.from_offset
                == from_offset && params.limit == Some(limit),
    {
        self.request(
            Method::EventsStream,
            Some(
                EventsStreamParams {
                    run_id: run_id.to_owned(),
                    from_offset,
                    limit: Some(limit),
                },
            ),
        )
    }

    /// Approves a call.
    pub fn approval_grant(&mut self, run_id: &str, tool_call_id: &str) -> (result: ClientRequest<
        ApprovalDecideParams,
    >)
        requires
            old(self).next_id < u64::MAX,
        ensures
            requested(*old(self), *final(self), result, Method::ApprovalDecide),
            result.params matches Some(params) && params.run_id@ == run_id@ && params.tool_call_id@
                == tool_call_id@ && params.decision == ApprovalDecision::Grant && params.reason
                is None,
    {
        self.request(
            Method::ApprovalDecide,
            Some(
                ApprovalDecideParams {
                    run_id: run_id.to_owned(),
                    tool_call_id: tool_call_id.to_owned(),
                    decision: ApprovalDecision::Grant,
                    reason: None,
                },
            ),
        )
    }

    /// Refuses a call.
    pub fn approval_deny(&mut self, run_id: &str, tool_call_id: &str, reason: String) -> (result:
        ClientRequest<ApprovalDecideParams>)
        requires
            old(self).next_id < u64::MAX,
        ensures
            requested(*old(self), *final(self), result, Method::ApprovalDecide),
            result.params matches Some(params) && params.run_id@ == run_id@ && params.tool_call_id@
                == tool_call_id@ && params.decision == ApprovalDecision::Deny && params.reason
                == Some(reason),
    {
        self.request(
            Method::ApprovalDecide,
            Some(
                ApprovalDecideParams {
                    run_id: run_id.to_owned(),
                    tool_call_id: tool_call_id.to_owned(),
                    decision: ApprovalDecision::Deny,
                    reason: Some(reason),
                },
            ),
        )
    }

    /// Asks a run to stop.
    pub fn run_cancel(&mut self, run_id: &str) -> (result: ClientRequest<RunCancelParams>)
        requires
            old(self).next_id < u64::MAX,
        ensures
            requested(*old(self), *final(self), result, Method::RunCancel),
            result.params matches Some(params) && params.run_id@ == run_id@,
    {
        self.request(Method::RunCancel, Some(RunCancelParams { run_id: run_id.to_owned() }))
    }

    /// What comes of the daemon's answer to a request.
    pub fn decode_response(
        method: Method,
        id: &str,
        bytes_read: usize,
        parsed: Result<Envelope, String>,
    ) -> (result: Result<String, AppError>)
        ensures
            response_of(method, id@, bytes_read, parsed, result),
    {
        if bytes_read == 0 {
            return Err(
                AppError::Io {
                    kind: IoKind::UnexpectedEof,
                    message: "daemon connection closed before response".to_owned(),
                },
            );
        }
        let response = match parsed {
            Ok(response) => response,
            Err(complaint) => return Err(AppError::Json(complaint)),
        };
        if response.v != PROTOCOL_VERSION {
            let version = text::to_decimal(response.v as u64);
            return Err(
                AppError::DaemonProtocol(
                    text::concat(
                        "unsupported response protocol version: ",
                        version.as_str(),
                    ),
                ),
            );
        }
        let expected = match &response.id {
            Some(found) => text::same(found.as_str(), id),
            None => false,
        };
        if !expected {
            let found = debug_option(&response.id);
            let mut message = text::concat3("response id mismatch: expected ", id, ", got ");
            message.append(found.as_str());
            return Err(AppError::DaemonProtocol(message));
        }
        match response.kind {
            EnvelopeKind::Response => match response.result {
                Some(body) => Ok(body),
                None => Err(
                    AppError::DaemonProtocol(
                        text::concat(method.as_str(), " response missing result"),
                    ),
                ),
            },
            EnvelopeKind::Error => match response.error {
                Some(error) => Err(AppError::DaemonResponse(error)),
                None => Err(
                    AppError::DaemonProtocol(
                        text::concat(method.as_str(), " error missing payload"),
                    ),
                ),
            },
            EnvelopeKind::Request => Err(
                AppError::DaemonProtocol(
                    text::concat(
                        method.as_str(),
                        " returned unexpected envelope kind Request",
                    ),
                ),
            ),
            EnvelopeKind::Event => Err(
                AppError::DaemonProtocol(
                    text::concat(method.as_str(), " returned unexpected envelope kind Event"),
                ),
            ),
        }
    }

    /// How much time is left for an answer, or that there is none.
    pub fn remaining(method: Method, deadline: u128, now: u128) -> (result: Result<u128, AppError>)
        ensures
            if now < deadline {
                result == Ok::<u128, AppError>((deadline - now) as u128)
            } else {
                result matches Err(AppError::Io { kind, message }) && kind == IoKind::TimedOut
                    && message@ == handlers::method_text(method) + " response timed out"@
            },
    {
        if now < deadline {
            Ok(deadline - now)
        } else {
            Err(
                AppError::Io {
                    kind: IoKind::TimedOut,
                    message: text::concat(method.as_str(), " response timed out"),
                },
            )
        }
    }

    /// Adds what one reading from the connection gave to a line. A reading that gave nothing means
    /// that the connection was closed.
    pub fn read_line_until_deadline(
        method: Method,
        limit: Option<u64>,
        line: &mut Vec<u8>,
        available: &Vec<u8>,
    ) -> (result: Result<LineStep, AppError>)
        requires
            limit matches Some(most) ==> most < u64::MAX,
        ensures
            ({
                let consumed = line_part(available@);
                let kept = kept_part(old(line)@.len(), limit, consumed);
                &&& final(line)@ == old(line)@ + available@.take(kept)
                &&& if available@.len() > 0 && (limit matches Some(most) && final(line)@.len()
                    > most) {
                    result matches Err(AppError::DaemonProtocol(message)) && message@
                        == handlers::method_text(method) + " response exceeds "@ + text::decimal(
                        limit->0 as nat,
                    ) + " bytes"@
                } else {
                    result matches Ok(step) && step.consumed == consumed && step.done == (
                    available@.len() == 0 || available@[consumed - 1] == 10u8)
                }
            }),
    {
        if available.len() == 0 {
            assert(line@ =~= old(line)@ + available@.take(0));
            return Ok(LineStep { consumed: 0, done: true });
        }
        let mut consumed: usize = 0;
        let mut ended = false;
        while consumed < available.len() && !ended
            invariant
                consumed <= available.len(),
                available.len() > 0,
                !ended ==> forall|j: int| 0 <= j < consumed ==> #[trigger] available@[j] != 10u8,
                ended ==> consumed > 0 && available@[consumed - 1] == 10u8 && forall|j: int|
                    0 <= j < consumed - 1 ==> #[trigger] available@[j] != 10u8,
            decreases available.len() - consumed, (if ended { 0int } else { 1int }),
        {
            ended = available[consumed] == 10;
            consumed = consumed + 1;
        }
        proof {
            line_part_is(available@, consumed as int);
        }
        let held: u64 = line.len() as u64;
        let kept: usize = match limit {
            Some(most) => {
                let room: u64 = if most + 1 >= held {
                    most + 1 - held
                } else {
                    0
                };
                if consumed as u64 <= room {
                    consumed
                } else {
                    room as usize
                }
            },
            None => consumed,
        };
        let mut i: usize = 0;
        let ghost before = line@;
        assert(line@ =~= before + available@.take(0));
        while i < kept
            invariant
                i <= kept <= available.len(),
                line@ == before + available@.take(i as int),
            decreases kept - i,
        {
            line.push(available[i]);
            assert(line@ =~= before + available@.take(i + 1));
            i = i + 1;
        }
        if let Some(most) = limit {
            if line.len() as u64 > most {
                let number = text::to_decimal(most);
                let mut message = text::concat3(
                    method.as_str(),
                    " response exceeds ",
                    number.as_str(),
                );
                message.append(" bytes");
                return Err(AppError::DaemonProtocol(message));
            }
        }
        Ok(LineStep { consumed, done: ended })
    }

    /// Refuses an answer that is longer than its limit.
    pub fn read_limited_line(method: Method, limit: u64, bytes_read: usize) -> (result: Result<
        usize,
        AppError,
    >)
        ensures
            if bytes_read > limit {
                result matches Err(AppError::DaemonProtocol(message)) && message@
                    == handlers::method_text(method) + " response exceeds "@ + text::decimal(
                    limit as nat,
                ) + " bytes"@
            } else {
                result == Ok::<usize, AppError>(bytes_read)
            },
    {
        if bytes_read as u64 > limit {
            let number = text::to_decimal(limit);
            let mut message = text::concat3(
                method.as_str(),
                " response exceeds ",
                number.as_str(),
            );
            message.append(" bytes");
            return Err(AppError::DaemonProtocol(message));
        }
        Ok(bytes_read)
    }
}

/// The daemon takes every request that a client makes, as the request that was meant.
pub proof fn the_daemon_takes_what_a_client_asks(
    envelope: Envelope,
    method: Method,
    id: Seq<char>,
    params: Option<String>,
    checked: Result<Envelope, Envelope>,
)
    requires
        is_request(envelope, method, id, params),
        protocol::request_checked(Ok(envelope), checked),
    ensures
        checked == Ok::<Envelope, Envelope>(envelope),
        handlers::method_named(envelope.method->0@) == Some(method),
{
    handlers::every_method_is_reached(method);
}

/// What the daemon answers is what the client gets: the result, or the error.
pub proof fn the_client_gets_what_the_daemon_answers(
    method: Method,
    id: String,
    bytes_read: usize,
    response: Envelope,
    got: Result<String, AppError>,
)
    requires
        bytes_read > 0,
        response.v == PROTOCOL_VERSION,
        response.id == Some(id),
        response_of(method, id@, bytes_read, Ok(response), got),
    ensures
        response.kind == EnvelopeKind::Response && response.result is Some ==> got == Ok::<
            String,
            AppError,
        >(response.result->0),
        response.kind == EnvelopeKind::Error && response.error is Some ==> got == Err::<
            String,
            AppError,
        >(AppError::DaemonResponse(response.error->0)),
{
}

/// No two requests of a connection have the same identifier.
pub proof fn request_ids_differ(first: Method, m: u64, second: Method, n: u64)
    requires
        m != n,
    ensures
        request_id(first, m) != request_id(second, n),
{
    text::numbered_texts_differ(
        underscored(handlers::method_text(first)),
        m as nat,
        underscored(handlers::method_text(second)),
        n as nat,
    );
}

/// What a line takes of a reading ends at its first line feed: nothing before its last byte is
/// one.
pub proof fn a_line_ends_at_its_first_line_feed(available: Seq<u8>)
    requires
        available.len() > 0,
    ensures
        0 < line_part(available) <= available.len(),
        forall|j: int| 0 <= j < line_part(available) - 1 ==> available[j] != 10u8,
        line_part(available) < available.len() ==> available[line_part(available) - 1] == 10u8,
    decreases available.len(),
{
    if available[0] != 10u8 {
        let rest = available.drop_first();
        if rest.len() > 0 {
            a_line_ends_at_its_first_line_feed(rest);
            assert forall|j: int| 0 <= j < line_part(available) - 1 implies available[j]
                != 10u8 by {
                if j > 0 {
                    assert(available[j] == rest[j - 1]);
                }
            }
        } else {
            assert(line_part(rest) == 0);
        }
    }
}

/// Where to find the daemon of a workspace.
#[derive(Debug, PartialEq, Eq)]
pub struct DaemonConnectionConfig {
    pub workspace_root: String,
    pub socket_path: String,
}

impl DaemonConnectionConfig {
    /// The daemon of a workspace, given by its resolved root: at the socket that is named, or else
    /// at the workspace's own.
    pub fn resolve(
        workspace_root: String,
        socket_path: Option<String>,
        default_socket_path: String,
    ) -> (result: Self)
        ensures
            result == (DaemonConnectionConfig {
                workspace_root,
                socket_path: match socket_path {
                    Some(path) => path,
                    None => default_socket_path,
                },
            }),
    {
        DaemonConnectionConfig {
            workspace_root,
            socket_path: socket_path.unwrap_or(default_socket_path),
        }
    }
}

} // verus!
