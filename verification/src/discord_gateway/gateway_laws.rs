//! What holds of the messages of a channel: which are taken, where they go, and what comes back.

use crate::app::model::RunOverrides;
use crate::daemon::client::DaemonClient;
use crate::daemon::protocol::{RunStateName, TranscriptReadResult};
use crate::discord_gateway::gateway::{
    reconnectable, terminal_message, token_from, DiscordGateway, EnvValue, MessageDecision,
    RunRequest,
};
use crate::discord_gateway::input::{
    self, contains_ascii_bounded_marker, discord_input_is_unsafe, normalize_discord_input,
};
use crate::discord_gateway::presentation::{Emoji, MessagePresentation, PresentationEffect};
use crate::discord_gateway::receiver::DiscordMessage;
use crate::error::AppError;
use crate::text;
use vstd::prelude::*;

verus! {

/// Whether a text holds nothing but white space.
pub open spec fn says_nothing(words: Seq<char>) -> bool {
    forall|i: int| 0 <= i < words.len() ==> text::is_space(#[trigger] words[i])
}

/// A message is passed over exactly where it is not an owner's or says nothing; of the others those
/// that are unsafe are refused and the rest are taken.
pub proof fn an_owners_safe_message_is_taken(
    gateway: &DiscordGateway,
    message: &DiscordMessage,
    decision: MessageDecision,
    content: &str,
    is_unsafe: bool,
)
    requires
        call_ensures(DiscordGateway::poll_once, (gateway, message), decision),
        call_ensures(discord_input_is_unsafe, (content,), is_unsafe),
        content@ == message.content@,
    ensures
        decision is Ignore <==> !gateway.owner_user_ids@.contains(message.author_id)
            || says_nothing(message.content@),
        decision is Reject <==> gateway.owner_user_ids@.contains(message.author_id)
            && !says_nothing(message.content@) && is_unsafe,
        decision is Handle <==> gateway.owner_user_ids@.contains(message.author_id)
            && !says_nothing(message.content@) && !is_unsafe,
{
}

proof fn scan_is_clean(s: Seq<char>, after_space: bool)
    ensures
        ({
            let r = input::scanned(s, after_space);
            &&& r.len() <= s.len()
            &&& forall|i: int|
                0 <= i < r.len() ==> {
                    &&& #[trigger] r[i] == ' ' || !text::is_space(r[i])
                    &&& !('A' <= r[i] <= 'Z')
                }
            &&& forall|i: int| 0 <= i < r.len() - 1 && #[trigger] r[i] == ' ' ==> r[i + 1] != ' '
            &&& after_space && r.len() > 0 ==> r[0] != ' '
        }),
    decreases s.len(),
{
    if s.len() > 0 {
        let t = s.drop_first();
        scan_is_clean(t, true);
        scan_is_clean(t, false);
        scan_is_clean(t, after_space);
        let r = input::scanned(s, after_space);
        if text::is_space(s[0]) {
            let inner = input::scanned(t, true);
            if !after_space {
                assert forall|i: int| 0 <= i < r.len() - 1 && #[trigger] r[i] == ' ' implies r[i + 1]
                    != ' ' by {
                    assert(r[i + 1] == inner[i]);
                    if i > 0 {
                        assert(r[i] == inner[i - 1]);
                    }
                }
                assert forall|i: int| 0 <= i < r.len() implies {
                    &&& #[trigger] r[i] == ' ' || !text::is_space(r[i])
                    &&& !('A' <= r[i] <= 'Z')
                } by {
                    if i > 0 {
                        assert(r[i] == inner[i - 1]);
                    }
                }
            }
        } else if !text::is_control(s[0]) {
            let inner = input::scanned(t, false);
            assert forall|i: int| 0 <= i < r.len() - 1 && #[trigger] r[i] == ' ' implies r[i + 1]
                != ' ' by {
                assert(r[i + 1] == inner[i]);
                if i > 0 {
                    assert(r[i] == inner[i - 1]);
                }
            }
            assert forall|i: int| 0 <= i < r.len() implies {
                &&& #[trigger] r[i] == ' ' || !text::is_space(r[i])
                &&& !('A' <= r[i] <= 'Z')
            } by {
                if i > 0 {
                    assert(r[i] == inner[i - 1]);
                }
            }
        }
    }
}

proof fn plain_text_is_scanned(s: Seq<char>)
    requires
        forall|i: int|
            0 <= i < s.len() ==> !text::is_space(#[trigger] s[i]) && !text::is_control(s[i]),
    ensures
        input::scanned(s, false) == text::lower_all(s),
    decreases s.len(),
{
    if s.len() > 0 {
        let t = s.drop_first();
        assert forall|i: int| 0 <= i < t.len() implies !text::is_space(#[trigger] t[i])
            && !text::is_control(t[i]) by {
            assert(t[i] == s[i + 1]);
        }
        plain_text_is_scanned(t);
        assert(text::lower_all(s) =~= seq![text::lower(s[0])] + text::lower_all(t));
    } else {
        assert(text::lower_all(s) =~= s);
    }
}

/// What a message is searched for in has no capital letters, no white space but single blanks, and is
/// never longer than the message; a plain word is searched as it is, in small letters.
pub proof fn a_message_is_searched_in_plain_form(content: &str, plain: String)
    requires
        call_ensures(normalize_discord_input, (content,), plain),
    ensures
        plain@.len() <= content@.len(),
        forall|i: int|
            0 <= i < plain@.len() ==> (#[trigger] plain@[i] == ' ' || !text::is_space(plain@[i]))
                && !('A' <= plain@[i] <= 'Z'),
        forall|i: int|
            0 <= i < plain@.len() - 1 && #[trigger] plain@[i] == ' ' ==> plain@[i + 1] != ' ',
        (forall|i: int|
            0 <= i < content@.len() ==> !text::is_space(#[trigger] content@[i])
                && !text::is_control(content@[i])) ==> plain@ == text::lower_all(content@),
{
    scan_is_clean(content@, false);
    if forall|i: int|
        0 <= i < content@.len() ==> !text::is_space(#[trigger] content@[i]) && !text::is_control(
            content@[i],
        ) {
        plain_text_is_scanned(content@);
    }
}

/// Whether a marker stands at a place of a text.
pub open spec fn stands_at(s: Seq<char>, marker: Seq<char>, at: int) -> bool {
    0 <= at && at + marker.len() <= s.len() && s.subrange(at, at + marker.len()) == marker
}

/// Whether no letter or digit touches a part of a text.
pub open spec fn is_apart(s: Seq<char>, at: int, end: int) -> bool {
    &&& at > 0 ==> !text::is_alphanumeric(s[at - 1])
    &&& end < s.len() ==> !text::is_alphanumeric(s[end])
}

proof fn alone_is_found(s: Seq<char>, marker: Seq<char>, from: int)
    requires
        0 <= from,
        marker.len() > 0,
    ensures
        input::found_alone(s, marker, from) ==> exists|at: int|
            from <= at && #[trigger] stands_at(s, marker, at) && is_apart(
                s,
                at,
                at + marker.len(),
            ),
        forall|at: int|
            from <= at && #[trigger] stands_at(s, marker, at) && is_apart(s, at, at + marker.len())
                && (forall|b: int| from <= b < at ==> !#[trigger] stands_at(s, marker, b))
                ==> input::found_alone(s, marker, from),
    decreases s.len() + 1 - from,
{
    if from + marker.len() <= s.len() {
        if text::occurs_at(s, marker, from) {
            assert(stands_at(s, marker, from));
            alone_is_found(s, marker, from + marker.len());
        } else {
            assert(!stands_at(s, marker, from));
            alone_is_found(s, marker, from + 1);
        }
    }
}

/// A marker that is found stands somewhere with no letter or digit beside it, and the first place at
/// which a marker stands is enough where nothing touches it there.
pub proof fn a_marker_is_found_where_it_stands_apart(content: &str, marker: &str, found: bool)
    requires
        call_ensures(contains_ascii_bounded_marker, (content, marker), found),
        marker@.len() > 0,
    ensures
        found ==> exists|at: int| #[trigger]
            stands_at(content@, marker@, at) && is_apart(content@, at, at + marker@.len()),
        forall|at: int| #[trigger]
            stands_at(content@, marker@, at) && is_apart(content@, at, at + marker@.len()) && (
            forall|b: int| 0 <= b < at ==> !#[trigger] stands_at(content@, marker@, b)) ==> found,
{
    alone_is_found(content@, marker@, 0);
}

/// Whether a text is a phrase that tries to speak for somebody else.
pub open spec fn is_phrase(marker: Seq<char>) -> bool {
    ||| marker == "act as"@
    ||| marker == "assistant message"@
    ||| marker == "assistant messages"@
    ||| marker == "developer message"@
    ||| marker == "developer messages"@
    ||| marker == "disregard previous instructions"@
    ||| marker == "disregard prior instructions"@
    ||| marker == "function call"@
    ||| marker == "function calls"@
    ||| marker == "ignore all previous instructions"@
    ||| marker == "ignore previous instructions"@
    ||| marker == "ignore prior instructions"@
    ||| marker == "system prompt"@
    ||| marker == "tool call"@
    ||| marker == "tool calls"@
    ||| marker == "you are chatgpt"@
    ||| marker == "you are now"@
}

/// Whether a text is a tag of another speaker.
pub open spec fn is_tag(marker: Seq<char>) -> bool {
    marker == "<system>"@ || marker == "<|im_start|>"@ || marker == "<|im_end|>"@
}

proof fn markers_are_known()
    ensures
        ({
            let texts = input::unsafe_marker_texts();
            &&& texts.len() == 20
            &&& forall|i: int| 0 <= i < 17 ==> is_phrase(#[trigger] texts[i])
            &&& forall|i: int| 17 <= i < 20 ==> is_tag(#[trigger] texts[i])
            &&& forall|m: Seq<char>| #[trigger]
                is_phrase(m) ==> exists|i: int| 0 <= i < 17 && #[trigger] texts[i] == m
            &&& forall|m: Seq<char>| #[trigger]
                is_tag(m) ==> exists|i: int| 17 <= i < 20 && #[trigger] texts[i] == m
            &&& forall|m: Seq<char>| #[trigger] is_phrase(m) ==> m.len() > 0 && m[0] != '<'
            &&& forall|m: Seq<char>| #[trigger] is_tag(m) ==> m.len() > 0 && m[0] == '<'
        }),
{
    let texts = input::unsafe_marker_texts();
    reveal_strlit("act as");
    reveal_strlit("assistant message");
    reveal_strlit("assistant messages");
    reveal_strlit("developer message");
    reveal_strlit("developer messages");
    reveal_strlit("disregard previous instructions");
    reveal_strlit("disregard prior instructions");
    reveal_strlit("function call");
    reveal_strlit("function calls");
    reveal_strlit("ignore all previous instructions");
    reveal_strlit("ignore previous instructions");
    reveal_strlit("ignore prior instructions");
    reveal_strlit("system prompt");
    reveal_strlit("tool call");
    reveal_strlit("tool calls");
    reveal_strlit("you are chatgpt");
    reveal_strlit("you are now");
    reveal_strlit("<system>");
    reveal_strlit("<|im_start|>");
    reveal_strlit("<|im_end|>");
    assert(texts[0] == "act as"@);
    assert(texts[1] == "assistant message"@);
    assert(texts[2] == "assistant messages"@);
    assert(texts[3] == "developer message"@);
    assert(texts[4] == "developer messages"@);
    assert(texts[5] == "disregard previous instructions"@);
    assert(texts[6] == "disregard prior instructions"@);
    assert(texts[7] == "function call"@);
    assert(texts[8] == "function calls"@);
    assert(texts[9] == "ignore all previous instructions"@);
    assert(texts[10] == "ignore previous instructions"@);
    assert(texts[11] == "ignore prior instructions"@);
    assert(texts[12] == "system prompt"@);
    assert(texts[13] == "tool call"@);
    assert(texts[14] == "tool calls"@);
    assert(texts[15] == "you are chatgpt"@);
    assert(texts[16] == "you are now"@);
    assert(texts[17] == "<system>"@);
    assert(texts[18] == "<|im_start|>"@);
    assert(texts[19] == "<|im_end|>"@);
}

/// A message is unsafe where it has more than 4096 bytes, where a tag of another speaker stands in it
/// anywhere, and where a phrase that speaks for somebody else stands in it apart; and it is unsafe for
/// one of these reasons alone.
pub proof fn a_message_is_unsafe_for_a_reason(content: &str, plain: String, is_unsafe: bool)
    requires
        call_ensures(normalize_discord_input, (content,), plain),
        call_ensures(discord_input_is_unsafe, (content,), is_unsafe),
    ensures
        text::utf8_len(content@) > 4_096 ==> is_unsafe,
        forall|m: Seq<char>, at: int| #[trigger]
            stands_at(plain@, m, at) && is_tag(m) ==> is_unsafe,
        forall|m: Seq<char>, at: int| #[trigger]
            stands_at(plain@, m, at) && is_phrase(m) && is_apart(plain@, at, at + m.len()) && (
            forall|b: int| 0 <= b < at ==> !#[trigger] stands_at(plain@, m, b)) ==> is_unsafe,
        is_unsafe && text::utf8_len(content@) <= 4_096 ==> exists|m: Seq<char>, at: int| #[trigger]
            stands_at(plain@, m, at) && (is_tag(m) || is_phrase(m) && is_apart(
                plain@,
                at,
                at + m.len(),
            )),
{
    markers_are_known();
    let texts = input::unsafe_marker_texts();
    let p = plain@;
    assert forall|m: Seq<char>, at: int| #[trigger] stands_at(p, m, at) && is_tag(
        m,
    ) implies is_unsafe by {
        let i = choose|i: int| 17 <= i < 20 && #[trigger] texts[i] == m;
        assert(text::occurs_at(p, texts[i], at));
        assert(input::marked(input::scanned(content@, false), texts[i]));
    }
    assert forall|m: Seq<char>, at: int| #[trigger]
        stands_at(p, m, at) && is_phrase(m) && is_apart(p, at, at + m.len()) && (forall|b: int|
            0 <= b < at ==> !#[trigger] stands_at(p, m, b)) implies is_unsafe by {
        let i = choose|i: int| 0 <= i < 17 && #[trigger] texts[i] == m;
        alone_is_found(p, m, 0);
        assert(input::marked(input::scanned(content@, false), texts[i]));
    }
    if is_unsafe && text::utf8_len(content@) <= 4_096 {
        let i = choose|i: int|
            0 <= i < texts.len() && input::marked(
                input::scanned(content@, false),
                #[trigger] texts[i],
            );
        let m = texts[i];
        if i < 17 {
            alone_is_found(p, m, 0);
        } else {
            let at = choose|at: int| text::occurs_at(p, m, at);
            assert(stands_at(p, m, at));
        }
    }
}

/// Where a message goes: to the session that its channel talks to, or to a new one; in either case as
/// it was written, under the settings of its channel, and without waiting for the run.
pub proof fn a_message_goes_to_its_channels_session(
    gateway: DiscordGateway,
    kept: DiscordGateway,
    started_in: u64,
    session_id: String,
    message: DiscordMessage,
    overrides: RunOverrides,
    before: DaemonClient,
    request: RunRequest,
)
    requires
        exists|g: &mut DiscordGateway|
            *g == gateway && *final(g) == kept && #[trigger] call_ensures(
                DiscordGateway::started,
                (g, started_in, session_id),
                (),
            ),
        exists|daemon: &mut DaemonClient|
            *daemon == before && #[trigger] call_ensures(
                DiscordGateway::handle_message,
                (&kept, daemon, message, overrides),
                request,
            ),
    ensures
        message.channel_id == started_in ==> (request matches RunRequest::Append(sent)
            && sent.params matches Some(params) && params.session_id == Some(session_id)
            && params.message == message.content && params.overrides == overrides && params.wait
            == Some(false) && params.config_path == gateway.config_path),
        message.channel_id != started_in && gateway.sessions@.contains_key(message.channel_id) ==> (
        request matches RunRequest::Append(sent) && sent.params matches Some(params)
            && params.session_id == Some(gateway.sessions@[message.channel_id]) && params.message
            == message.content && params.overrides == overrides),
        message.channel_id != started_in && !gateway.sessions@.contains_key(message.channel_id)
            ==> (request matches RunRequest::Start(sent) && sent.params matches Some(params)
            && params.question == message.content && params.overrides == overrides && params.wait
            == Some(false) && params.config_path == gateway.config_path),
{
}

/// What a channel is told at the end of a run: its answer where it finished, that it failed where it
/// did, and nothing where it was stopped. A run without an answer, or that has not ended, is an error.
pub proof fn a_channel_is_told_the_end(
    transcript: TranscriptReadResult,
    told: Result<Option<String>, AppError>,
)
    requires
        call_ensures(terminal_message, (transcript,), told),
    ensures
        transcript.status == RunStateName::Finished && transcript.final_answer is Some ==> told
            == Ok::<Option<String>, AppError>(transcript.final_answer),
        transcript.status == RunStateName::Finished && transcript.final_answer is None
            ==> told matches Err(AppError::RunFailed(_)),
        transcript.status == RunStateName::Failed ==> (told matches Ok(Some(words)) && words@.len()
            > 0 && words@ == "Run failed. Inspect it locally with: plato replay"@),
        transcript.status == RunStateName::Canceled || transcript.status
            == RunStateName::Interrupted ==> told == Ok::<Option<String>, AppError>(None),
        transcript.status == RunStateName::Running || transcript.status
            == RunStateName::CancelRequested ==> told matches Err(AppError::DaemonProtocol(_)),
{
    reveal_strlit("Run failed. Inspect it locally with: plato replay");
}

/// The gateway gets its token exactly where the token has a variable of its own, that variable holds
/// a text, and no credential of a provider is set beside it; the token is then that text.
pub proof fn a_token_stands_alone(
    token_env: &str,
    provider_env: &str,
    provider: EnvValue,
    openai: EnvValue,
    openrouter: EnvValue,
    token: EnvValue,
    result: Result<String, AppError>,
)
    requires
        call_ensures(
            token_from,
            (token_env, provider_env, provider, openai, openrouter, token),
            result,
        ),
    ensures
        result is Ok <==> {
            &&& token_env@ != provider_env@
            &&& token_env@ != "OPENAI_API_KEY"@
            &&& token_env@ != "OPENROUTER_API_KEY"@
            &&& provider is Unset
            &&& openai is Unset
            &&& openrouter is Unset
            &&& token matches EnvValue::Text(words) && words@.len() > 0
        },
        result matches Ok(found) ==> token == EnvValue::Text(found),
        result matches Err(error) ==> error is Config,
{
}

/// A daemon is asked again after its connection broke or it sent something that cannot be read, and
/// where it does not know the run; any other error stands.
pub proof fn only_a_broken_connection_is_tried_again(error: &AppError, again: bool)
    requires
        call_ensures(reconnectable, (error,), again),
    ensures
        error is Io || error is Json || error is DaemonProtocol ==> again,
        *error matches AppError::DaemonResponse(reply) ==> (again <==> reply.code@ == "not_found"@),
        error !is Io && error !is Json && error !is DaemonProtocol && error !is DaemonResponse
            ==> !again,
{
}

/// How the end of a run is shown: the mark of work goes first, and then comes the mark of success or
/// of failure where the run finished or failed.
pub proof fn the_end_of_a_run_is_shown(
    before: MessagePresentation,
    status: RunStateName,
    shown: Vec<PresentationEffect>,
)
    requires
        exists|p: &mut MessagePresentation|
            *p == before && #[trigger] call_ensures(
                MessagePresentation::finish,
                (p, status),
                shown,
            ),
    ensures
        status == RunStateName::Running || status == RunStateName::CancelRequested <==> shown@.len()
            == 0,
        shown@.len() > 0 ==> shown@[0] == PresentationEffect::RemoveReaction(Emoji::Eyes),
        status == RunStateName::Finished ==> shown@.len() == 2 && shown@[1]
            == PresentationEffect::AddTerminalReaction(Emoji::Success),
        status == RunStateName::Failed ==> shown@.len() == 2 && shown@[1]
            == PresentationEffect::AddTerminalReaction(Emoji::Failure),
        status == RunStateName::Canceled || status == RunStateName::Interrupted ==> shown@.len()
            == 1,
{
}

/// While a run goes on a typing signal is shown at once and then every eight seconds or later, and
/// none is shown while the run waits for an approval.
pub proof fn typing_is_shown_while_a_run_goes_on(
    before: MessagePresentation,
    after: MessagePresentation,
    paused: bool,
    now: u128,
    shown: Option<PresentationEffect>,
)
    requires
        exists|p: &mut MessagePresentation|
            *p == before && *final(p) == after && #[trigger] call_ensures(
                MessagePresentation::observe_running,
                (p, paused, now),
                shown,
            ),
    ensures
        paused ==> shown is None && after.next_typing_at is None,
        !paused && before.next_typing_at is None ==> shown == Some(
            PresentationEffect::TriggerTyping,
        ),
        !paused && before.next_typing_at is Some ==> (shown is Some <==> now
            >= before.next_typing_at->0),
        shown matches Some(effect) ==> effect == PresentationEffect::TriggerTyping,
        shown is Some && now + 8_000_000_000 <= crate::time::LAST_MOMENT ==> after.next_typing_at
            == Some((now + 8_000_000_000) as u128),
        !paused && shown is None ==> after.next_typing_at == before.next_typing_at,
        after.channel_id == before.channel_id && after.message_id == before.message_id,
{
}

} // verus!
