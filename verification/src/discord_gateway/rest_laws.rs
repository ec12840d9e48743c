//! What holds of the requests to the Discord service, whatever it answers.

use crate::discord_gateway::rest::{
    self, add_terminal_reaction, application_commands, discord_chunks, reasoning_choices,
    replace_application_commands, retry_terminal_reaction, terminal_reaction_wait, trim_slashes,
    DiscordApplicationCommand, DiscordApplicationCommandChoice, DiscordRateLimit,
    DiscordRateLimits, DiscordRestClient, DiscordRestError, PresentationAttempt, RateLimitAnswer,
    RegisteredApplicationCommand, RestClass, RestFailure, TerminalReaction,
};
use crate::error::AppError;
use crate::time;
use vstd::prelude::*;

verus! {

proof fn chunk_at(s: Seq<char>, i: int)
    requires
        0 <= i < rest::chunks(s).len(),
    ensures
        rest::chunks(s).len() == (s.len() + 1_999) / 2_000,
        rest::chunks(s)[i] == s.subrange(
            2_000 * i,
            if 2_000 * (i + 1) <= s.len() {
                2_000 * (i + 1)
            } else {
                s.len() as int
            },
        ),
    decreases s.len(),
{
    chunk_count(s);
    if s.len() > 2_000 && i > 0 {
        let behind = s.skip(2_000);
        chunk_at(behind, i - 1);
        assert(rest::chunks(s)[i] == rest::chunks(behind)[i - 1]);
        let to = if 2_000 * (i + 1) <= s.len() {
            2_000 * (i + 1)
        } else {
            s.len() as int
        };
        assert(behind.subrange(2_000 * (i - 1), to - 2_000) =~= s.subrange(2_000 * i, to));
    } else if s.len() > 2_000 {
        assert(rest::chunks(s)[0] =~= s.subrange(0, 2_000));
    } else {
        assert(rest::chunks(s)[0] =~= s.subrange(0, s.len() as int));
    }
}

proof fn chunk_count(s: Seq<char>)
    ensures
        rest::chunks(s).len() == (s.len() + 1_999) / 2_000,
    decreases s.len(),
{
    if s.len() > 0 {
        if s.len() > 2_000 {
            chunk_count(s.skip(2_000));
        } else {
            reveal_with_fuel(rest::chunks, 3);
        }
    }
}

/// A text is parted into as few messages as it needs: each holds two thousand characters of it, in
/// their order, and the last one what is left.
pub proof fn a_text_is_parted_evenly(message: &str, parts: Vec<String>, i: int)
    requires
        call_ensures(discord_chunks, (message,), parts),
        0 <= i < parts@.len(),
    ensures
        parts@.len() == (message@.len() + 1_999) / 2_000,
        i < parts@.len() - 1 ==> parts@[i]@ == message@.subrange(2_000 * i, 2_000 * (i + 1)),
        i == parts@.len() - 1 ==> parts@[i]@ == message@.skip(2_000 * i),
{
    let texts = rest::texts(parts@);
    assert(texts.len() == parts@.len());
    assert(texts[i] == parts@[i]@);
    chunk_at(message@, i);
    if i == parts@.len() - 1 {
        assert(message@.subrange(2_000 * i, message@.len() as int) =~= message@.skip(2_000 * i));
    }
}

/// Whether a moment is past a limit.
pub open spec fn is_past(limit: Option<u128>, now: u128) -> bool {
    limit matches Some(deadline) ==> now >= deadline
}

/// Messages are kept back by the limit for all requests alone; what only shows something is kept
/// back by its own limit too.
pub proof fn limits_are_kept(
    limits: &DiscordRateLimits,
    now: u128,
    may_show: bool,
    may_send: bool,
)
    requires
        call_ensures(DiscordRateLimits::presentation_allowed, (limits, now), may_show),
        call_ensures(DiscordRateLimits::product_allowed, (limits, now), may_send),
    ensures
        may_send <==> is_past(limits.global_not_before, now),
        may_show <==> may_send && is_past(limits.presentation_not_before, now),
{
}

/// A time to wait is kept in full: until it is over nothing of its kind may be sent, and after it
/// everything may that might before. A limit of one kind leaves the other.
pub proof fn a_limit_lasts_as_long_as_asked(
    before: DiscordRateLimits,
    after: DiscordRateLimits,
    class: RestClass,
    global: bool,
    retry_after: u128,
    now: u128,
    moment: u128,
)
    requires
        now + retry_after <= time::LAST_MOMENT,
        exists|x: &mut DiscordRateLimits|
            *x == before && *final(x) == after && #[trigger] call_ensures(
                DiscordRateLimits::record,
                (x, class, global, retry_after, now),
                (),
            ),
    ensures
        global ==> (is_past(after.global_not_before, moment) <==> is_past(
            before.global_not_before,
            moment,
        ) && moment >= now + retry_after),
        global ==> after.presentation_not_before == before.presentation_not_before,
        !global ==> after.global_not_before == before.global_not_before,
        !global && class == RestClass::Presentation ==> (is_past(
            after.presentation_not_before,
            moment,
        ) <==> is_past(before.presentation_not_before, moment) && moment >= now + retry_after),
        !global && class != RestClass::Presentation ==> after == before,
{
}

/// Whether an answer says that its limit holds for all requests.
pub open spec fn says_global(answer: RateLimitAnswer) -> bool {
    ||| answer.body_global
    ||| answer.header_global is Some && answer.header_global->0@ == "true"@
    ||| answer.header_scope is Some && answer.header_scope->0@ == "global"@
}

/// A failed request is reported by its name, and the time that the service asks for is the longer
/// of the two that it names; only an answer of too many requests asks for one.
pub proof fn a_failure_is_reported_with_its_wait(
    before: DiscordRestClient,
    after: DiscordRestClient,
    operation: &str,
    class: RestClass,
    failure: &RestFailure,
    now: u128,
    result: DiscordRestError,
)
    requires
        exists|x: &mut DiscordRestClient|
            *x == before && *final(x) == after && #[trigger] call_ensures(
                DiscordRestClient::discord_http_error,
                (x, operation, class, failure, now),
                result,
            ),
    ensures
        after.api_base == before.api_base && after.token == before.token,
        result.rate_limit is None ==> after.rate_limits == before.rate_limits,
        !(failure is TooManyRequests) ==> result.rate_limit is None,
        *failure matches RestFailure::TooManyRequests(answer) ==> {
            &&& result.rate_limit is None <==> answer.header_retry_after is None
                && answer.body_retry_after is None
            &&& result.rate_limit is Some ==> {
                &&& result.rate_limit->0.global == says_global(answer)
                &&& answer.header_retry_after matches Some(wait) ==> result.rate_limit->0.retry_after
                    >= wait
                &&& answer.body_retry_after matches Some(wait) ==> result.rate_limit->0.retry_after
                    >= wait
                &&& answer.header_retry_after == Some(result.rate_limit->0.retry_after)
                    || answer.body_retry_after == Some(result.rate_limit->0.retry_after)
            }
        },
        *failure is TooManyRequests ==> (result.app_error matches AppError::Provider(told) && told@
            == "discord "@ + operation@ + " returned HTTP 429"@),
        *failure is Transport ==> (result.app_error matches AppError::Provider(told) && told@
            == "discord "@ + operation@ + " transport failed"@),
{
}

/// A reaction that ends the work on a message is tried once more after the time that was asked for,
/// or after two seconds if that is longer, unless all requests are to wait; after that it is not
/// tried again.
pub proof fn a_last_reaction_is_tried_once_more(
    attempt: Result<PresentationAttempt, AppError>,
    first: TerminalReaction,
    second: Result<(), AppError>,
)
    requires
        call_ensures(add_terminal_reaction, (attempt,), first),
        call_ensures(retry_terminal_reaction, (attempt,), second),
    ensures
        first is WaitAndRetry <==> (attempt matches Ok(PresentationAttempt::RateLimited(limit))
            && !limit.global),
        first matches TerminalReaction::WaitAndRetry(wait) ==> wait <= 2_000_000_000 && (attempt
            matches Ok(PresentationAttempt::RateLimited(limit)) && wait <= limit.retry_after && (
        wait == limit.retry_after || wait == 2_000_000_000)),
        first is Done <==> attempt == Ok::<PresentationAttempt, AppError>(PresentationAttempt::Sent)
            || attempt == Ok::<PresentationAttempt, AppError>(PresentationAttempt::Gated),
        first is Done <==> second is Ok,
        attempt matches Err(failed) ==> first == TerminalReaction::Failed(failed) && second == Err::<
            (),
            AppError,
        >(failed),
{
}

/// The wait before the second try is as asked for up to two seconds.
pub proof fn a_short_wait_is_kept(limit: DiscordRateLimit, wait: Option<u128>)
    requires
        call_ensures(terminal_reaction_wait, (limit,), wait),
    ensures
        limit.global <==> wait is None,
        !limit.global && limit.retry_after <= 2_000_000_000 ==> wait == Some(limit.retry_after),
        !limit.global && limit.retry_after > 2_000_000_000 ==> wait == Some(2_000_000_000u128),
{
}

/// A reaction that was sent is a success; one that the service wants later is told with the limit,
/// and any other failure is an error. No failure is taken for a success.
pub proof fn only_a_sent_reaction_is_sent(
    before: DiscordRestClient,
    after: DiscordRestClient,
    answer: Result<(), RestFailure>,
    now: u128,
    result: Result<PresentationAttempt, AppError>,
)
    requires
        exists|x: &mut DiscordRestClient|
            *x == before && *final(x) == after && #[trigger] call_ensures(
                DiscordRestClient::reaction_attempt,
                (x, answer, now),
                result,
            ),
    ensures
        answer is Ok <==> result == Ok::<PresentationAttempt, AppError>(PresentationAttempt::Sent),
        result != Ok::<PresentationAttempt, AppError>(PresentationAttempt::Gated),
        answer is Ok ==> after == before,
        answer matches Err(failure) && !(failure is TooManyRequests) ==> result is Err
            && after.rate_limits == before.rate_limits,
        result matches Ok(PresentationAttempt::RateLimited(limit)) && limit.global ==> (
        after.rate_limits.presentation_not_before == before.rate_limits.presentation_not_before),
        result matches Ok(PresentationAttempt::RateLimited(limit)) && !limit.global ==> (
        after.rate_limits.global_not_before == before.rate_limits.global_not_before),
{
}

proof fn slashes_go(s: Seq<char>)
    ensures
        ({
            let kept = rest::without_slashes(s);
            &&& kept.len() <= s.len()
            &&& kept == s.take(kept.len() as int)
            &&& forall|i: int| kept.len() <= i < s.len() ==> #[trigger] s[i] == '/'
            &&& kept.len() > 0 ==> kept.last() != '/'
        }),
    decreases s.len(),
{
    if s.len() > 0 && s.last() == '/' {
        slashes_go(s.drop_last());
        let kept = rest::without_slashes(s);
        assert(s.drop_last().take(kept.len() as int) =~= s.take(kept.len() as int));
        assert forall|i: int| kept.len() <= i < s.len() implies #[trigger] s[i] == '/' by {
            if i < s.len() - 1 {
                assert(s.drop_last()[i] == s[i]);
            }
        }
    } else {
        assert(s.take(s.len() as int) =~= s);
    }
}

/// An address loses the slashes at its end and nothing else.
pub proof fn only_slashes_go(s: &str, kept: String)
    requires
        call_ensures(trim_slashes, (s,), kept),
    ensures
        kept@.len() <= s@.len(),
        kept@ == s@.take(kept@.len() as int),
        forall|i: int| kept@.len() <= i < s@.len() ==> #[trigger] s@[i] == '/',
        kept@.len() > 0 ==> kept@.last() != '/',
{
    slashes_go(s@);
}

/// Three commands are offered: one that takes nothing, one that takes any text, and one that takes
/// one of the listed efforts; none of them must be given anything.
pub proof fn three_commands_are_offered(
    commands: Vec<DiscordApplicationCommand>,
    choices: Vec<DiscordApplicationCommandChoice>,
)
    requires
        call_ensures(application_commands, (), commands),
        call_ensures(reasoning_choices, (), choices),
    ensures
        commands@.len() == 3,
        commands@[0].name@ == "status"@ && commands@[0].option is None,
        commands@[1].name@ == "model"@,
        commands@[1].option matches Some(option) && option.name@ == "name"@ && !option.required
            && option.choices@.len() == 0,
        commands@[2].name@ == "reasoning"@,
        commands@[2].option matches Some(option) && option.name@ == "effort"@ && !option.required
            && option.choices@.len() == 8,
        choices@.len() == 8,
        choices@[0].value@ == "default"@ && choices@[1].value@ == "none"@ && choices@[2].value@
            == "minimal"@ && choices@[3].value@ == "low"@ && choices@[4].value@ == "medium"@
            && choices@[5].value@ == "high"@ && choices@[6].value@ == "xhigh"@ && choices@[7].value@
            == "max"@,
        forall|i: int|
            0 <= i < 8 ==> (#[trigger] choices@[i]).name@ == choices@[i].value@
                && commands@[2].option->0.choices@[i].value@ == choices@[i].value@,
{
    let option = commands@[2].option->0;
    assert(commands@[0].name@ == rest::command_names()[0]);
    assert(commands@[1].name@ == rest::command_names()[1]);
    assert(commands@[2].name@ == rest::command_names()[2]);
    assert forall|i: int| 0 <= i < 8 implies (#[trigger] choices@[i]).name@ == choices@[i].value@
        && option.choices@[i].value@ == choices@[i].value@ by {
        assert(option.choices@[i].value@ == rest::choice_texts()[i]);
    }
}

/// The commands are registered where the service reports exactly three of them, with these names.
pub proof fn only_the_offered_commands_are_registered(
    registered: &Vec<RegisteredApplicationCommand>,
    result: Result<(), AppError>,
)
    requires
        call_ensures(replace_application_commands, (registered,), result),
    ensures
        result is Ok <==> registered@.len() == 3 && rest::is_registered(registered@, "status"@)
            && rest::is_registered(registered@, "model"@) && rest::is_registered(
            registered@,
            "reasoning"@,
        ),
{
    let names = rest::command_names();
    assert(names[0] == "status"@ && names[1] == "model"@ && names[2] == "reasoning"@);
}

} // verus!
