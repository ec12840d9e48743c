//! The requests to the Discord service, and what its answers mean.

use crate::app::model::ReasoningEffort;
use crate::discord_gateway::approvals::DISCORD_MESSAGE_LIMIT;
use crate::discord_gateway::presentation::Emoji;
use crate::discord_gateway::presentation;
use crate::error;
use crate::error::AppError;
use crate::text;
use crate::time;
use vstd::prelude::*;

verus! {

pub const DISCORD_API_BASE: &'static str = "https://discord.com/api/v10";

pub const DISCORD_STATUS_COMMAND: &'static str = "status";

pub const DISCORD_STATUS_DESCRIPTION: &'static str = "Show Plato Agent gateway and daemon status";

pub const DISCORD_MODEL_COMMAND: &'static str = "model";

pub const DISCORD_MODEL_DESCRIPTION: &'static str = "Show or set this channel's model";

pub const DISCORD_REASONING_COMMAND: &'static str = "reasoning";

pub const DISCORD_REASONING_DESCRIPTION: &'static str =
    "Show or set this channel's reasoning effort";

pub const DISCORD_MODEL_OPTION: &'static str = "name";

pub const DISCORD_REASONING_OPTION: &'static str = "effort";

pub const DISCORD_DEFAULT_SETTING: &'static str = "default";

pub const DISCORD_CHAT_INPUT_COMMAND: u8 = 1;

pub const DISCORD_STRING_OPTION: u8 = 3;

/// The longest wait for a reaction that ends the work on a message.
pub const TERMINAL_REACTION_WAIT_LIMIT: u128 = 2_000_000_000;

/// The texts that a message is sent as: each as long as one message may be, but for the last.
pub open spec fn chunks(s: Seq<char>) -> Seq<Seq<char>>
    decreases s.len(),
{
    if s.len() == 0 {
        seq![]
    } else if s.len() <= DISCORD_MESSAGE_LIMIT {
        seq![s]
    } else {
        seq![s.take(DISCORD_MESSAGE_LIMIT as int)] + chunks(s.skip(DISCORD_MESSAGE_LIMIT as int))
    }
}

/// The texts of some strings.
pub open spec fn texts(strings: Seq<String>) -> Seq<Seq<char>> {
    strings.map_values(|s: String| s@)
}

/// Parts a text into messages.
pub fn discord_chunks(message: &str) -> (result: Vec<String>)
    ensures
        texts(result@) == chunks(message@),
{
    let chars = text::chars_of(message);
    let mut parts: Vec<String> = Vec::new();
    let mut from: usize = 0;
    assert(message@.skip(0) =~= message@);
    assert(texts(parts@) =~= Seq::<Seq<char>>::empty());
    while from < chars.len()
        invariant
            from <= chars.len(),
            chars@ == message@,
            texts(parts@) + chunks(message@.skip(from as int)) =~= chunks(message@),
        decreases chars.len() - from,
    {
        let ghost rest = message@.skip(from as int);
        let to: usize = if chars.len() - from > DISCORD_MESSAGE_LIMIT {
            from + DISCORD_MESSAGE_LIMIT
        } else {
            chars.len()
        };
        let ghost before = texts(parts@);
        let part = text::text_of(&chars, from, to);
        assert(part@ =~= rest.take(to - from));
        assert(rest.skip(to - from) =~= message@.skip(to as int));
        proof {
            if rest.len() <= DISCORD_MESSAGE_LIMIT {
                assert(rest.take(to - from) =~= rest);
                assert(message@.skip(to as int) =~= Seq::<char>::empty());
            }
        }
        let ghost added = part@;
        parts.push(part);
        assert(texts(parts@) =~= before + seq![added]);
        from = to;
    }
    assert(message@.skip(from as int) =~= Seq::<char>::empty());
    parts
}

/// Some texts, one behind the other.
pub open spec fn joined(parts: Seq<Seq<char>>) -> Seq<char>
    decreases parts.len(),
{
    if parts.len() == 0 {
        seq![]
    } else {
        parts[0] + joined(parts.drop_first())
    }
}

/// The messages that a text is parted into give the text again. None is empty, none is too long,
/// and all but the last are as long as one message may be.
pub proof fn chunks_are_the_text(s: Seq<char>)
    ensures
        joined(chunks(s)) == s,
        forall|i: int|
            0 <= i < chunks(s).len() ==> 0 < (#[trigger] chunks(s)[i]).len()
                <= DISCORD_MESSAGE_LIMIT,
        forall|i: int|
            0 <= i < chunks(s).len() - 1 ==> (#[trigger] chunks(s)[i]).len()
                == DISCORD_MESSAGE_LIMIT,
    decreases s.len(),
{
    if s.len() > DISCORD_MESSAGE_LIMIT {
        let first = s.take(DISCORD_MESSAGE_LIMIT as int);
        let rest = s.skip(DISCORD_MESSAGE_LIMIT as int);
        chunks_are_the_text(rest);
        assert(chunks(s).drop_first() =~= chunks(rest));
        assert(first + rest =~= s);
        assert forall|i: int| 0 <= i < chunks(s).len() implies 0 < (#[trigger] chunks(s)[i]).len()
            <= DISCORD_MESSAGE_LIMIT by {
            if i > 0 {
                assert(chunks(s)[i] == chunks(rest)[i - 1]);
            }
        }
        assert forall|i: int| 0 <= i < chunks(s).len() - 1 implies (#[trigger] chunks(s)[i]).len()
            == DISCORD_MESSAGE_LIMIT by {
            if i > 0 {
                assert(chunks(s)[i] == chunks(rest)[i - 1]);
            }
        }
    } else if s.len() > 0 {
        assert(chunks(s).drop_first() =~= Seq::<Seq<char>>::empty());
        assert(joined(chunks(s).drop_first()) =~= Seq::<char>::empty());
        assert(joined(chunks(s)) =~= s);
    }
}

/// Whether a request shows something in a channel or brings a message.
#[derive(Clone, Copy, Debug, PartialEq, Eq, Structural)]
pub enum RestClass {
    Presentation,
    Product,
}

/// What the service asks for when it gets too many requests.
#[derive(Clone, Copy, Debug, PartialEq, Eq, Structural)]
pub struct DiscordRateLimit {
    pub retry_after: u128,
    pub global: bool,
}

/// Until when the service wants no requests.
#[derive(Clone, Copy, Debug, PartialEq, Eq, Structural)]
pub struct DiscordRateLimits {
    pub presentation_not_before: Option<u128>,
    pub global_not_before: Option<u128>,
}

pub open spec fn reached(deadline: Option<u128>, now: u128) -> bool {
    match deadline {
        Some(deadline) => now >= deadline,
        None => true,
    }
}

/// The later of two moments, the first of which may be missing.
pub open spec fn latest(current: Option<u128>, deadline: u128) -> Option<u128> {
    match current {
        Some(current) => if current >= deadline {
            Some(current)
        } else {
            Some(deadline)
        },
        None => Some(deadline),
    }
}

/// The limits after an answer that asked to wait.
pub open spec fn recorded(
    limits: DiscordRateLimits,
    class: RestClass,
    global: bool,
    retry_after: u128,
    now: u128,
) -> DiscordRateLimits {
    match time::moment_after(now, retry_after) {
        None => limits,
        Some(deadline) => if global {
            DiscordRateLimits {
                global_not_before: latest(limits.global_not_before, deadline),
                ..limits
            }
        } else if class == RestClass::Presentation {
            DiscordRateLimits {
                presentation_not_before: latest(limits.presentation_not_before, deadline),
                ..limits
            }
        } else {
            limits
        },
    }
}

fn has_passed(deadline: Option<u128>, now: u128) -> (result: bool)
    ensures
        result == reached(deadline, now),
{
    match deadline {
        Some(deadline) => now >= deadline,
        None => true,
    }
}

fn later_of(current: Option<u128>, deadline: u128) -> (result: Option<u128>)
    ensures
        result == latest(current, deadline),
{
    match current {
        Some(current) => if current >= deadline {
            Some(current)
        } else {
            Some(deadline)
        },
        None => Some(deadline),
    }
}

impl Default for DiscordRateLimits {
    fn default() -> (result: Self)
        ensures
            result == (DiscordRateLimits {
                presentation_not_before: None,
                global_not_before: None,
            }),
    {
        DiscordRateLimits { presentation_not_before: None, global_not_before: None }
    }
}

impl DiscordRateLimits {
    /// Whether something may be shown.
    pub fn presentation_allowed(&self, now: u128) -> (result: bool)
        ensures
            result == (reached(self.global_not_before, now) && reached(
                self.presentation_not_before,
                now,
            )),
    {
        has_passed(self.global_not_before, now) && has_passed(self.presentation_not_before, now)
    }

    /// Whether a message may be sent.
    pub fn product_allowed(&self, now: u128) -> (result: bool)
        ensures
            result == reached(self.global_not_before, now),
    {
        has_passed(self.global_not_before, now)
    }

    /// Takes in an answer that asks to wait.
    pub fn record(&mut self, class: RestClass, global: bool, retry_after: u128, now: u128)
        ensures
            *final(self) == recorded(*old(self), class, global, retry_after, now),
    {
        if let Some(deadline) = time::later(now, retry_after) {
            if global {
                self.global_not_before = later_of(self.global_not_before, deadline);
            } else if matches!(class, RestClass::Presentation) {
                self.presentation_not_before = later_of(self.presentation_not_before, deadline);
            }
        }
    }
}

/// What is not allowed stays so after another answer: a limit only ever moves to a later moment.
/// An answer to a request that shows something does not keep messages back, unless it holds for
/// all requests.
pub proof fn limits_only_grow(
    limits: DiscordRateLimits,
    class: RestClass,
    global: bool,
    retry_after: u128,
    now: u128,
    moment: u128,
)
    ensures
        ({
            let after = recorded(limits, class, global, retry_after, now);
            &&& reached(after.global_not_before, moment) ==> reached(
                limits.global_not_before,
                moment,
            )
            &&& reached(after.presentation_not_before, moment) ==> reached(
                limits.presentation_not_before,
                moment,
            )
            &&& !global ==> after.global_not_before == limits.global_not_before
        }),
{
}

/// The service gets no request, of a kind that it wants none of, before the time that it asked for
/// has passed in full.
pub proof fn the_full_time_is_waited(
    limits: DiscordRateLimits,
    class: RestClass,
    global: bool,
    retry_after: u128,
    now: u128,
    moment: u128,
)
    requires
        now + retry_after <= time::LAST_MOMENT,
        moment < now + retry_after,
    ensures
        ({
            let after = recorded(limits, class, global, retry_after, now);
            &&& global ==> !reached(after.global_not_before, moment)
            &&& !global && class == RestClass::Presentation ==> !reached(
                after.presentation_not_before,
                moment,
            )
        }),
{
}

/// How long to wait before a reaction that ends the work is tried once more, if it is.
pub fn terminal_reaction_wait(rate_limit: DiscordRateLimit) -> (result: Option<u128>)
    ensures
        result == reaction_wait(rate_limit),
{
    if rate_limit.global {
        None
    } else if rate_limit.retry_after <= TERMINAL_REACTION_WAIT_LIMIT {
        Some(rate_limit.retry_after)
    } else {
        Some(TERMINAL_REACTION_WAIT_LIMIT)
    }
}

/// How long to wait before a reaction that ends the work is tried once more, if it is.
pub open spec fn reaction_wait(rate_limit: DiscordRateLimit) -> Option<u128> {
    if rate_limit.global {
        None
    } else if rate_limit.retry_after <= TERMINAL_REACTION_WAIT_LIMIT {
        Some(rate_limit.retry_after)
    } else {
        Some(TERMINAL_REACTION_WAIT_LIMIT)
    }
}

/// What an answer of too many requests says: the time to wait by its header and by its body, and
/// what tells whether the limit holds for all requests.
#[derive(Debug, PartialEq, Eq)]
pub struct RateLimitAnswer {
    pub header_retry_after: Option<u128>,
    /// The header `X-RateLimit-Global`.
    pub header_global: Option<String>,
    /// The header `X-RateLimit-Scope`.
    pub header_scope: Option<String>,
    pub body_retry_after: Option<u128>,
    pub body_global: bool,
}

/// How a request failed.
#[derive(Debug, PartialEq, Eq)]
pub enum RestFailure {
    TooManyRequests(RateLimitAnswer),
    Status(u16),
    Transport,
}

/// A failed request: what to report, and what the service asked for.
#[derive(Debug, PartialEq, Eq)]
pub struct DiscordRestError {
    pub app_error: AppError,
    pub rate_limit: Option<DiscordRateLimit>,
}

/// The longer of two times to wait, each of which may be missing.
pub open spec fn longest_wait(a: Option<u128>, b: Option<u128>) -> Option<u128> {
    match a {
        Some(a) => latest(b, a),
        None => b,
    }
}

/// What an answer of too many requests asks for, if it names a time.
pub open spec fn asked_limit(answer: RateLimitAnswer) -> Option<DiscordRateLimit> {
    match longest_wait(answer.header_retry_after, answer.body_retry_after) {
        None => None,
        Some(retry_after) => Some(
            DiscordRateLimit {
                retry_after,
                global: (answer.header_global is Some && answer.header_global->0@ == "true"@) || (
                answer.header_scope is Some && answer.header_scope->0@ == "global"@)
                    || answer.body_global,
            },
        ),
    }
}

/// How a failed request is reported.
pub open spec fn failure_text(operation: Seq<char>, failure: RestFailure) -> Seq<char> {
    match failure {
        RestFailure::TooManyRequests(_) => "discord "@ + operation + " returned HTTP 429"@,
        RestFailure::Status(status) => "discord "@ + operation + " returned HTTP "@ + text::decimal(
            status as nat,
        ),
        RestFailure::Transport => "discord "@ + operation + " transport failed"@,
    }
}

/// What a failed request asks for.
pub open spec fn failure_limit(failure: RestFailure) -> Option<DiscordRateLimit> {
    match failure {
        RestFailure::TooManyRequests(answer) => asked_limit(answer),
        _ => None,
    }
}

/// Reports a failed request, of which nothing but its name and the answer's status is told.
pub fn discord_http_error(operation: &str, failure: &RestFailure) -> (result: AppError)
    ensures
        error::is_provider_error(result, failure_text(operation@, *failure)),
{
    let mut message = text::concat("discord ", operation);
    match failure {
        RestFailure::TooManyRequests(_) => {
            message.append(" returned HTTP 429");
        },
        RestFailure::Status(status) => {
            message.append(" returned HTTP ");
            message.append(text::to_decimal(*status as u64).as_str());
        },
        RestFailure::Transport => {
            message.append(" transport failed");
        },
    }
    AppError::Provider(message)
}

fn holds_text(value: &Option<String>, expected: &str) -> (result: bool)
    ensures
        result == (value is Some && value->0@ == expected@),
{
    match value {
        Some(s) => text::same(s.as_str(), expected),
        None => false,
    }
}

fn limit_asked_for(answer: &RateLimitAnswer) -> (result: Option<DiscordRateLimit>)
    ensures
        result == asked_limit(*answer),
{
    let retry_after = match answer.header_retry_after {
        Some(header) => later_of(answer.body_retry_after, header),
        None => answer.body_retry_after,
    };
    let global = holds_text(&answer.header_global, "true") || holds_text(
        &answer.header_scope,
        "global",
    ) || answer.body_global;
    match retry_after {
        Some(retry_after) => Some(DiscordRateLimit { retry_after, global }),
        None => None,
    }
}

/// The client of the Discord service: where it is, who asks, and what it wants to be left alone
/// with.
#[derive(Debug)]
pub struct DiscordRestClient {
    pub api_base: String,
    pub token: String,
    pub rate_limits: DiscordRateLimits,
}

/// A text without the slashes at its end.
pub open spec fn without_slashes(s: Seq<char>) -> Seq<char>
    decreases s.len(),
{
    if s.len() > 0 && s.last() == '/' {
        without_slashes(s.drop_last())
    } else {
        s
    }
}

/// A text without the slashes at its end.
pub fn trim_slashes(s: &str) -> (result: String)
    ensures
        result@ == without_slashes(s@),
{
    let chars = text::chars_of(s);
    let mut to: usize = chars.len();
    assert(s@.take(to as int) =~= s@);
    while to > 0 && chars[to - 1] == '/'
        invariant
            to <= chars.len(),
            chars@ == s@,
            without_slashes(s@) == without_slashes(s@.take(to as int)),
        decreases to,
    {
        assert(s@.take(to as int).drop_last() =~= s@.take(to - 1));
        to = to - 1;
    }
    assert(s@.subrange(0, to as int) =~= s@.take(to as int));
    text::text_of(&chars, 0, to)
}

/// How a byte stands in a form: itself, a plus for a blank, or a percent sign and its two
/// hexadecimal digits.
pub open spec fn form_byte(byte: u8) -> Seq<char> {
    let c = byte as char;
    if text::is_alphanumeric(c) || c == '*' || c == '-' || c == '.' || c == '_' {
        seq![c]
    } else if c == ' ' {
        seq!['+']
    } else {
        seq!['%', hex_digit(byte / 16), hex_digit(byte % 16)]
    }
}

pub open spec fn hex_digit(d: u8) -> char {
    if d < 10 {
        ('0' as u8 + d) as char
    } else {
        ('A' as u8 + d - 10) as char
    }
}

/// How some bytes stand in a form.
pub open spec fn form_bytes(bytes: Seq<u8>) -> Seq<char>
    decreases bytes.len(),
{
    if bytes.len() == 0 {
        seq![]
    } else {
        form_byte(bytes[0]) + form_bytes(bytes.drop_first())
    }
}

/// `url::form_urlencoded::byte_serialize` writes each byte of the text's UTF-8 encoding as a form
/// has it: letters, digits and `*-._` as they are, a blank as a plus sign, every other byte as a
/// percent sign and two hexadecimal digits in upper case.
#[verifier::external_body]
fn form_encode(s: &str) -> (result: String)
    ensures
        result@ == form_bytes(vstd::utf8::encode_utf8(s@)),
{
    url::form_urlencoded::byte_serialize(s.as_bytes()).collect::<String>()
}

/// What became of something to be shown.
#[derive(Clone, Copy, Debug, PartialEq, Eq, Structural)]
pub enum PresentationAttempt {
    Sent,
    /// It was not sent, since the service wants no such request yet.
    Gated,
    RateLimited(DiscordRateLimit),
}

/// What follows from the first attempt at a reaction that ends the work.
#[derive(Debug, PartialEq, Eq)]
pub enum TerminalReaction {
    Done,
    /// Wait, and try it once more.
    WaitAndRetry(u128),
    Failed(AppError),
}

/// A client after a failed request: a time to wait that it names is kept.
pub open spec fn after_failure(
    client: DiscordRestClient,
    class: RestClass,
    failure: RestFailure,
    now: u128,
) -> DiscordRestClient {
    DiscordRestClient {
        rate_limits: match failure_limit(failure) {
            Some(limit) => recorded(
                client.rate_limits,
                class,
                limit.global,
                limit.retry_after,
                now,
            ),
            None => client.rate_limits,
        },
        ..client
    }
}

impl DiscordRestClient {
    pub fn new(api_base: &str, token: String) -> (result: Self)
        ensures
            result.api_base@ == without_slashes(api_base@),
            result.token == token,
            result.rate_limits == (DiscordRateLimits {
                presentation_not_before: None,
                global_not_before: None,
            }),
    {
        DiscordRestClient {
            api_base: trim_slashes(api_base),
            token,
            rate_limits: DiscordRateLimits::default(),
        }
    }

    /// The header that says who asks.
    pub fn authorization(&self) -> (result: String)
        ensures
            result@ == "Bot "@ + self.token@,
    {
        text::concat("Bot ", self.token.as_str())
    }

    pub fn application_url(&self) -> (result: String)
        ensures
            result@ == self.api_base@ + "/oauth2/applications/@me"@,
    {
        text::concat(self.api_base.as_str(), "/oauth2/applications/@me")
    }

    pub fn commands_url(&self, application_id: u64) -> (result: String)
        ensures
            result@ == self.api_base@ + "/applications/"@ + text::decimal(application_id as nat)
                + "/commands"@,
    {
        let mut url = text::concat3(
            self.api_base.as_str(),
            "/applications/",
            text::to_decimal(application_id).as_str(),
        );
        url.append("/commands");
        url
    }

    pub fn gateway_discovery_url(&self) -> (result: String)
        ensures
            result@ == self.api_base@ + "/gateway/bot"@,
    {
        text::concat(self.api_base.as_str(), "/gateway/bot")
    }

    pub fn messages_url(&self, channel_id: u64) -> (result: String)
        ensures
            result@ == self.api_base@ + "/channels/"@ + text::decimal(channel_id as nat)
                + "/messages"@,
    {
        let mut url = text::concat3(
            self.api_base.as_str(),
            "/channels/",
            text::to_decimal(channel_id).as_str(),
        );
        url.append("/messages");
        url
    }

    pub fn typing_url(&self, channel_id: u64) -> (result: String)
        ensures
            result@ == self.api_base@ + "/channels/"@ + text::decimal(channel_id as nat)
                + "/typing"@,
    {
        let mut url = text::concat3(
            self.api_base.as_str(),
            "/channels/",
            text::to_decimal(channel_id).as_str(),
        );
        url.append("/typing");
        url
    }

    pub fn reaction_url(&self, channel_id: u64, message_id: u64, emoji: Emoji) -> (result: String)
        ensures
            result@ == self.api_base@ + "/channels/"@ + text::decimal(channel_id as nat)
                + "/messages/"@ + text::decimal(message_id as nat) + "/reactions/"@ + form_bytes(
                vstd::utf8::encode_utf8(presentation::emoji_text(emoji)),
            ) + "/@me"@,
    {
        let mut url = text::concat3(
            self.api_base.as_str(),
            "/channels/",
            text::to_decimal(channel_id).as_str(),
        );
        url.append("/messages/");
        url.append(text::to_decimal(message_id).as_str());
        url.append("/reactions/");
        url.append(form_encode(emoji.as_str()).as_str());
        url.append("/@me");
        url
    }

    /// Whether something may be shown.
    pub fn presentation_allowed(&self, now: u128) -> (result: bool)
        ensures
            result == (reached(self.rate_limits.global_not_before, now) && reached(
                self.rate_limits.presentation_not_before,
                now,
            )),
    {
        self.rate_limits.presentation_allowed(now)
    }

    /// Refuses to send a message while the service wants no requests at all.
    pub fn require_product_allowed(&self, now: u128) -> (result: Result<(), AppError>)
        ensures
            result is Ok == reached(self.rate_limits.global_not_before, now),
            result matches Err(found) ==> error::is_provider_error(
                found,
                "discord REST is globally rate limited"@,
            ),
    {
        if self.rate_limits.product_allowed(now) {
            Ok(())
        } else {
            Err(error::provider_error("discord REST is globally rate limited"))
        }
    }

    /// Takes in a failed request: a time to wait that it names is kept.
    pub fn discord_http_error(
        &mut self,
        operation: &str,
        class: RestClass,
        failure: &RestFailure,
        now: u128,
    ) -> (result: DiscordRestError)
        ensures
            error::is_provider_error(result.app_error, failure_text(operation@, *failure)),
            result.rate_limit == failure_limit(*failure),
            *final(self) == after_failure(*old(self), class, *failure, now),
    {
        let rate_limit = match failure {
            RestFailure::TooManyRequests(answer) => limit_asked_for(answer),
            _ => None,
        };
        if let Some(limit) = rate_limit {
            self.rate_limits.record(class, limit.global, limit.retry_after, now);
        }
        DiscordRestError { app_error: discord_http_error(operation, failure), rate_limit }
    }

    /// What became of a reaction that was sent.
    pub fn reaction_attempt(
        &mut self,
        answer: Result<(), RestFailure>,
        now: u128,
    ) -> (result: Result<PresentationAttempt, AppError>)
        ensures
            answer is Ok ==> *final(self) == *old(self) && result == Ok::<_, AppError>(
                PresentationAttempt::Sent,
            ),
            answer matches Err(failure) ==> {
                &&& match failure_limit(failure) {
                    Some(limit) => result == Ok::<_, AppError>(
                        PresentationAttempt::RateLimited(limit),
                    ),
                    None => result matches Err(found) && error::is_provider_error(
                        found,
                        failure_text("reaction"@, failure),
                    ),
                }
                &&& *final(self) == after_failure(
                    *old(self),
                    RestClass::Presentation,
                    failure,
                    now,
                )
            },
    {
        match answer {
            Ok(()) => Ok(PresentationAttempt::Sent),
            Err(failure) => {
                let error = self.discord_http_error(
                    "reaction",
                    RestClass::Presentation,
                    &failure,
                    now,
                );
                match error.rate_limit {
                    Some(limit) => Ok(PresentationAttempt::RateLimited(limit)),
                    None => Err(error.app_error),
                }
            },
        }
    }
}

/// What follows from an attempt at a reaction that is made once.
pub fn reaction(attempt: Result<PresentationAttempt, AppError>) -> (result: Result<(), AppError>)
    ensures
        match attempt {
            Ok(PresentationAttempt::Sent) | Ok(PresentationAttempt::Gated) => result
                == Ok::<(), AppError>(()),
            Ok(PresentationAttempt::RateLimited(_)) => result matches Err(found)
                && error::is_provider_error(found, "discord reaction returned HTTP 429"@),
            Err(failed) => result == Err::<(), _>(failed),
        },
{
    match attempt {
        Ok(PresentationAttempt::Sent) | Ok(PresentationAttempt::Gated) => Ok(()),
        Ok(PresentationAttempt::RateLimited(_)) => Err(
            error::provider_error("discord reaction returned HTTP 429"),
        ),
        Err(failed) => Err(failed),
    }
}

/// What follows from the first attempt at a reaction that ends the work.
pub fn add_terminal_reaction(attempt: Result<PresentationAttempt, AppError>) -> (result:
    TerminalReaction)
    ensures
        match attempt {
            Ok(PresentationAttempt::Sent) | Ok(PresentationAttempt::Gated) => result
                == TerminalReaction::Done,
            Ok(PresentationAttempt::RateLimited(limit)) => match reaction_wait(limit) {
                Some(wait) => result == TerminalReaction::WaitAndRetry(wait),
                None => result matches TerminalReaction::Failed(found) && error::is_provider_error(
                    found,
                    "discord terminal reaction returned HTTP 429"@,
                ),
            },
            Err(failed) => result == TerminalReaction::Failed(failed),
        },
{
    match attempt {
        Ok(PresentationAttempt::Sent) | Ok(PresentationAttempt::Gated) => TerminalReaction::Done,
        Ok(PresentationAttempt::RateLimited(limit)) => match terminal_reaction_wait(limit) {
            Some(wait) => TerminalReaction::WaitAndRetry(wait),
            None => TerminalReaction::Failed(
                error::provider_error("discord terminal reaction returned HTTP 429"),
            ),
        },
        Err(failed) => TerminalReaction::Failed(failed),
    }
}

/// What follows from the second attempt at a reaction that ends the work: there is no third.
pub fn retry_terminal_reaction(attempt: Result<PresentationAttempt, AppError>) -> (result: Result<
    (),
    AppError,
>)
    ensures
        match attempt {
            Ok(PresentationAttempt::Sent) | Ok(PresentationAttempt::Gated) => result
                == Ok::<(), AppError>(()),
            Ok(PresentationAttempt::RateLimited(_)) => result matches Err(found)
                && error::is_provider_error(found, "discord terminal reaction returned HTTP 429"@),
            Err(failed) => result == Err::<(), _>(failed),
        },
{
    match attempt {
        Ok(PresentationAttempt::Sent) | Ok(PresentationAttempt::Gated) => Ok(()),
        Ok(PresentationAttempt::RateLimited(_)) => Err(
            error::provider_error("discord terminal reaction returned HTTP 429"),
        ),
        Err(failed) => Err(failed),
    }
}

/// The number of the application that the service reports.
pub fn application_id(reported: &str) -> (result: Result<u64, AppError>)
    ensures
        match text::unsigned_number(reported@) {
            Some(id) => result == Ok::<_, AppError>(id),
            None => result matches Err(found) && error::is_provider_error(
                found,
                "discord application lookup returned an invalid id"@,
            ),
        },
{
    match text::parse_unsigned(reported) {
        Some(id) => Ok(id),
        None => Err(error::provider_error("discord application lookup returned an invalid id")),
    }
}

/// The address of the gateway that the service reports.
pub fn discovered_gateway(url: String) -> (result: Result<String, AppError>)
    ensures
        url@.len() > 0 ==> result == Ok::<_, AppError>(url),
        url@.len() == 0 ==> (result matches Err(found) && error::is_provider_error(
            found,
            "discord gateway discovery returned an empty URL"@,
        )),
{
    if text::chars_of(url.as_str()).len() == 0 {
        Err(error::provider_error("discord gateway discovery returned an empty URL"))
    } else {
        Ok(url)
    }
}

/// A command that the service offers in its channels.
#[derive(Debug, PartialEq, Eq)]
pub struct DiscordApplicationCommand {
    pub kind: u8,
    pub name: &'static str,
    pub description: &'static str,
    pub option: Option<DiscordApplicationCommandOption>,
}

/// What can be said with a command.
#[derive(Debug, PartialEq, Eq)]
pub struct DiscordApplicationCommandOption {
    pub kind: u8,
    pub name: &'static str,
    pub description: &'static str,
    pub required: bool,
    pub choices: Vec<DiscordApplicationCommandChoice>,
}

/// One of the values that can be chosen.
#[derive(Debug, PartialEq, Eq)]
pub struct DiscordApplicationCommandChoice {
    pub name: &'static str,
    pub value: &'static str,
}

/// A command as the service reports it.
#[derive(Debug, PartialEq, Eq)]
pub struct RegisteredApplicationCommand {
    pub kind: u8,
    pub name: String,
}

/// The values that can be chosen for the reasoning effort.
pub open spec fn choice_texts() -> Seq<Seq<char>> {
    seq![
        DISCORD_DEFAULT_SETTING@,
        "none"@,
        "minimal"@,
        "low"@,
        "medium"@,
        "high"@,
        "xhigh"@,
        "max"@,
    ]
}

/// The values that can be chosen for the reasoning effort: one for no choice, and one for each
/// effort.
pub fn reasoning_choices() -> (result: Vec<DiscordApplicationCommandChoice>)
    ensures
        result@.len() == choice_texts().len(),
        forall|i: int|
            0 <= i < result@.len() ==> (#[trigger] result@[i]).name@ == choice_texts()[i]
                && result@[i].value@ == choice_texts()[i],
{
    let efforts: Vec<&'static str> =
        vec![
        DISCORD_DEFAULT_SETTING,
        ReasoningEffort::Off.as_str(),
        ReasoningEffort::Minimal.as_str(),
        ReasoningEffort::Low.as_str(),
        ReasoningEffort::Medium.as_str(),
        ReasoningEffort::High.as_str(),
        ReasoningEffort::Xhigh.as_str(),
        ReasoningEffort::Max.as_str(),
    ];
    let mut choices: Vec<DiscordApplicationCommandChoice> = Vec::new();
    let mut i: usize = 0;
    while i < efforts.len()
        invariant
            i <= efforts.len(),
            choices@.len() == i,
            efforts@.len() == choice_texts().len(),
            forall|j: int| 0 <= j < efforts@.len() ==> (#[trigger] efforts@[j])@ == choice_texts()[j],
            forall|j: int|
                0 <= j < i ==> (#[trigger] choices@[j]).name@ == choice_texts()[j]
                    && choices@[j].value@ == choice_texts()[j],
        decreases efforts.len() - i,
    {
        let value = efforts[i];
        choices.push(DiscordApplicationCommandChoice { name: value, value });
        i = i + 1;
    }
    choices
}

/// The names of the commands.
pub open spec fn command_names() -> Seq<Seq<char>> {
    seq![DISCORD_STATUS_COMMAND@, DISCORD_MODEL_COMMAND@, DISCORD_REASONING_COMMAND@]
}

/// The descriptions of the commands.
pub open spec fn command_descriptions() -> Seq<Seq<char>> {
    seq![
        DISCORD_STATUS_DESCRIPTION@,
        DISCORD_MODEL_DESCRIPTION@,
        DISCORD_REASONING_DESCRIPTION@,
    ]
}

/// Whether a command can be given one optional text of this name.
pub open spec fn takes_text(
    command: DiscordApplicationCommand,
    name: Seq<char>,
    description: Seq<char>,
    choices: Seq<Seq<char>>,
) -> bool {
    command.option matches Some(option) && {
        &&& option.kind == DISCORD_STRING_OPTION
        &&& option.name@ == name
        &&& option.description@ == description
        &&& !option.required
        &&& option.choices@.len() == choices.len()
        &&& forall|i: int|
            0 <= i < choices.len() ==> (#[trigger] option.choices@[i]).name@ == choices[i]
                && option.choices@[i].value@ == choices[i]
    }
}

/// The commands that the service is to offer.
pub fn application_commands() -> (result: Vec<DiscordApplicationCommand>)
    ensures
        result@.len() == 3,
        forall|i: int|
            0 <= i < 3 ==> (#[trigger] result@[i]).kind == DISCORD_CHAT_INPUT_COMMAND
                && result@[i].name@ == command_names()[i] && result@[i].description@
                == command_descriptions()[i],
        result@[0].option is None,
        takes_text(result@[1], DISCORD_MODEL_OPTION@, "Model name or default"@, seq![]),
        takes_text(
            result@[2],
            DISCORD_REASONING_OPTION@,
            "Reasoning effort or default"@,
            choice_texts(),
        ),
{
    let status = DiscordApplicationCommand {
        kind: DISCORD_CHAT_INPUT_COMMAND,
        name: DISCORD_STATUS_COMMAND,
        description: DISCORD_STATUS_DESCRIPTION,
        option: None,
    };
    let model = DiscordApplicationCommand {
        kind: DISCORD_CHAT_INPUT_COMMAND,
        name: DISCORD_MODEL_COMMAND,
        description: DISCORD_MODEL_DESCRIPTION,
        option: Some(
            DiscordApplicationCommandOption {
                kind: DISCORD_STRING_OPTION,
                name: DISCORD_MODEL_OPTION,
                description: "Model name or default",
                required: false,
                choices: Vec::new(),
            },
        ),
    };
    let reasoning = DiscordApplicationCommand {
        kind: DISCORD_CHAT_INPUT_COMMAND,
        name: DISCORD_REASONING_COMMAND,
        description: DISCORD_REASONING_DESCRIPTION,
        option: Some(
            DiscordApplicationCommandOption {
                kind: DISCORD_STRING_OPTION,
                name: DISCORD_REASONING_OPTION,
                description: "Reasoning effort or default",
                required: false,
                choices: reasoning_choices(),
            },
        ),
    };
    vec![status, model, reasoning]
}

/// Whether a command of this name was registered.
pub open spec fn is_registered(
    registered: Seq<RegisteredApplicationCommand>,
    name: Seq<char>,
) -> bool {
    exists|i: int|
        0 <= i < registered.len() && (#[trigger] registered[i]).kind == DISCORD_CHAT_INPUT_COMMAND
            && registered[i].name@ == name
}

fn has_registered(registered: &Vec<RegisteredApplicationCommand>, name: &str) -> (result: bool)
    ensures
        result == is_registered(registered@, name@),
{
    let mut i: usize = 0;
    while i < registered.len()
        invariant
            i <= registered.len(),
            forall|j: int|
                0 <= j < i ==> !((#[trigger] registered@[j]).kind == DISCORD_CHAT_INPUT_COMMAND
                    && registered@[j].name@ == name@),
        decreases registered.len() - i,
    {
        if registered[i].kind == DISCORD_CHAT_INPUT_COMMAND && text::same(
            registered[i].name.as_str(),
            name,
        ) {
            return true;
        }
        i = i + 1;
    }
    false
}

/// Checks what the service reports after the commands were sent: these commands and no others.
pub fn replace_application_commands(registered: &Vec<RegisteredApplicationCommand>) -> (result:
    Result<(), AppError>)
    ensures
        result is Ok == (registered@.len() == 3 && forall|i: int|
            0 <= i < 3 ==> is_registered(registered@, #[trigger] command_names()[i])),
        result matches Err(found) ==> error::is_provider_error(
            found,
            "discord command synchronization returned an unexpected registry"@,
        ),
{
    let ghost names = command_names();
    assert(names[0] == DISCORD_STATUS_COMMAND@ && names[1] == DISCORD_MODEL_COMMAND@ && names[2]
        == DISCORD_REASONING_COMMAND@);
    if registered.len() == 3 && has_registered(registered, DISCORD_STATUS_COMMAND)
        && has_registered(registered, DISCORD_MODEL_COMMAND) && has_registered(
        registered,
        DISCORD_REASONING_COMMAND,
    ) {
        Ok(())
    } else {
        Err(
            error::provider_error(
                "discord command synchronization returned an unexpected registry",
            ),
        )
    }
}

/// A registry that was taken holds the three commands, each once.
pub proof fn the_registry_is_the_commands(registered: Seq<RegisteredApplicationCommand>)
    requires
        registered.len() == 3,
        forall|i: int| 0 <= i < 3 ==> is_registered(registered, #[trigger] command_names()[i]),
    ensures
        forall|j: int|
            0 <= j < 3 ==> (#[trigger] registered[j]).kind == DISCORD_CHAT_INPUT_COMMAND
                && command_names().contains(registered[j].name@),
{
    reveal_strlit("status");
    reveal_strlit("model");
    reveal_strlit("reasoning");
    let names = command_names();
    assert(names[0].len() == 6 && names[1].len() == 5 && names[2].len() == 9);
    assert(is_registered(registered, names[0]));
    assert(is_registered(registered, names[1]));
    assert(is_registered(registered, names[2]));
    let a = choose|i: int|
        0 <= i < registered.len() && (#[trigger] registered[i]).kind == DISCORD_CHAT_INPUT_COMMAND
            && registered[i].name@ == names[0];
    let b = choose|i: int|
        0 <= i < registered.len() && (#[trigger] registered[i]).kind == DISCORD_CHAT_INPUT_COMMAND
            && registered[i].name@ == names[1];
    let c = choose|i: int|
        0 <= i < registered.len() && (#[trigger] registered[i]).kind == DISCORD_CHAT_INPUT_COMMAND
            && registered[i].name@ == names[2];
    assert(a != b && b != c && a != c);
    assert forall|j: int| 0 <= j < 3 implies (#[trigger] registered[j]).kind
        == DISCORD_CHAT_INPUT_COMMAND && names.contains(registered[j].name@) by {
        assert(j == a || j == b || j == c);
        assert(names.contains(names[0]) && names.contains(names[1]) && names.contains(names[2]));
    }
}

} // verus!
