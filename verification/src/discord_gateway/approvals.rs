//! Telling the owner, once, that a run waits for an approval.

use crate::daemon::protocol;
use crate::json;
use crate::text;
use vstd::prelude::*;

verus! {

/// The most characters in one message.
pub const DISCORD_MESSAGE_LIMIT: usize = 2_000;

/// The most characters of a tool's name or of an effect in a notification.
pub const APPROVAL_FIELD_LIMIT: usize = 80;

/// A text of at most `limit` characters: the text itself, or its start and three dots.
pub open spec fn truncated(value: Seq<char>, limit: nat) -> Seq<char> {
    if value.len() <= limit {
        value
    } else if limit <= 3 {
        Seq::new(limit, |i: int| '.')
    } else {
        value.take(limit - 3) + "..."@
    }
}

/// Cuts a text to at most `limit` characters, and shows that with three dots.
pub fn truncate_chars(value: &str, limit: usize) -> (result: String)
    ensures
        result@ == truncated(value@, limit as nat),
{
    let chars = text::chars_of(value);
    if chars.len() <= limit {
        return value.to_owned();
    }
    if limit <= 3 {
        let mut dots = String::new();
        let mut i: usize = 0;
        while i < limit
            invariant
                i <= limit,
                dots@ == Seq::new(i as nat, |j: int| '.'),
            decreases limit - i,
        {
            dots.push('.');
            assert(dots@ =~= Seq::new((i + 1) as nat, |j: int| '.'));
            i = i + 1;
        }
        return dots;
    }
    let mut cut = text::text_of(&chars, 0, limit - 3);
    cut.append("...");
    assert(value@.subrange(0, limit - 3) =~= value@.take(limit - 3));
    cut
}

/// A text that was cut fits.
pub proof fn truncated_fits(value: Seq<char>, limit: nat)
    ensures
        truncated(value, limit).len() <= limit,
{
    reveal_strlit("...");
}

/// How a notification starts.
pub open spec fn notification_start(tool_name: Seq<char>, effect: Seq<char>) -> Seq<char> {
    "Approval required: `"@ + truncated(tool_name, APPROVAL_FIELD_LIMIT as nat) + "` ("@
        + truncated(effect, APPROVAL_FIELD_LIMIT as nat) + ")\nPreview:\n"@
}

/// How a notification ends.
pub const NOTIFICATION_END: &'static str = "\nGrant or deny it locally in `plato-tui`.";

/// What the owner is told of a tool call that waits for approval.
pub open spec fn notification(tool_name: Seq<char>, effect: Seq<char>, preview: Seq<char>) -> Seq<
    char,
> {
    let start = notification_start(tool_name, effect);
    let taken = start.len() + NOTIFICATION_END@.len();
    let left = if taken <= DISCORD_MESSAGE_LIMIT {
        (DISCORD_MESSAGE_LIMIT - taken) as nat
    } else {
        0
    };
    start + truncated(preview, left) + NOTIFICATION_END@
}

proof fn notification_frame_fits(tool_name: Seq<char>, effect: Seq<char>)
    ensures
        notification_start(tool_name, effect).len() + NOTIFICATION_END@.len()
            <= DISCORD_MESSAGE_LIMIT,
{
    truncated_fits(tool_name, APPROVAL_FIELD_LIMIT as nat);
    truncated_fits(effect, APPROVAL_FIELD_LIMIT as nat);
    reveal_strlit("Approval required: `");
    reveal_strlit("` (");
    reveal_strlit(")\nPreview:\n");
    reveal_strlit("\nGrant or deny it locally in `plato-tui`.");
}

/// A notification fits into one message, whatever it tells.
pub proof fn a_notification_fits_one_message(
    tool_name: Seq<char>,
    effect: Seq<char>,
    preview: Seq<char>,
)
    ensures
        notification(tool_name, effect, preview).len() <= DISCORD_MESSAGE_LIMIT,
{
    notification_frame_fits(tool_name, effect);
    let taken = notification_start(tool_name, effect).len() + NOTIFICATION_END@.len();
    truncated_fits(preview, (DISCORD_MESSAGE_LIMIT - taken) as nat);
}

/// What the owner is told of a tool call that waits for approval.
pub fn approval_notification(tool_name: &str, effect: &str, preview: &str) -> (result: String)
    ensures
        result@ == notification(tool_name@, effect@, preview@),
{
    let tool_name_cut = truncate_chars(tool_name, APPROVAL_FIELD_LIMIT);
    let effect_cut = truncate_chars(effect, APPROVAL_FIELD_LIMIT);
    let mut message = text::concat3("Approval required: `", tool_name_cut.as_str(), "` (");
    message.append(effect_cut.as_str());
    message.append(")\nPreview:\n");
    proof {
        notification_frame_fits(tool_name@, effect@);
    }
    let start_len: usize = text::chars_of(message.as_str()).len();
    let end_len: usize = text::chars_of(NOTIFICATION_END).len();
    let left: usize = DISCORD_MESSAGE_LIMIT - (start_len + end_len);
    let preview_cut = truncate_chars(preview, left);
    message.append(preview_cut.as_str());
    message.append(NOTIFICATION_END);
    message
}

/// What a notification needs to know of one event of a run.
#[derive(Debug, PartialEq, Eq)]
pub struct EventFacts {
    /// The kind of the event.
    pub kind: Option<String>,
    /// What was entered into the ledger.
    pub ledger_event: Option<String>,
    /// The call that was proposed.
    pub proposed_call: Option<String>,
    /// The input of that call, over several lines.
    pub proposed_input: Option<String>,
    /// The call that was decided on.
    pub decided_call: Option<String>,
    /// The call that waits for approval.
    pub tool_call_id: Option<String>,
    pub tool_name: Option<String>,
    pub effect: Option<String>,
    pub diff_preview: Option<String>,
    pub approval_preview: Option<String>,
}

/// The facts of an event, with their characters.
pub struct EventFactsView {
    pub kind: Option<Seq<char>>,
    pub ledger_event: Option<Seq<char>>,
    pub proposed_call: Option<Seq<char>>,
    pub proposed_input: Option<Seq<char>>,
    pub decided_call: Option<Seq<char>>,
    pub tool_call_id: Option<Seq<char>>,
    pub tool_name: Option<Seq<char>>,
    pub effect: Option<Seq<char>>,
    pub diff_preview: Option<Seq<char>>,
    pub approval_preview: Option<Seq<char>>,
}

impl View for EventFacts {
    type V = EventFactsView;

    open spec fn view(&self) -> EventFactsView {
        EventFactsView {
            kind: protocol::option_text(self.kind),
            ledger_event: protocol::option_text(self.ledger_event),
            proposed_call: protocol::option_text(self.proposed_call),
            proposed_input: protocol::option_text(self.proposed_input),
            decided_call: protocol::option_text(self.decided_call),
            tool_call_id: protocol::option_text(self.tool_call_id),
            tool_name: protocol::option_text(self.tool_name),
            effect: protocol::option_text(self.effect),
            diff_preview: protocol::option_text(self.diff_preview),
            approval_preview: protocol::option_text(self.approval_preview),
        }
    }
}

/// Where the event stands in an entry of the stream: under `event`, or it is the entry itself.
pub open spec fn event_place(entry: Seq<char>) -> Seq<char> {
    if json::json_at(entry, "/event"@) is Missing {
        ""@
    } else {
        "/event"@
    }
}

/// The string in the event of an entry.
pub open spec fn event_string(entry: Seq<char>, pointer: Seq<char>) -> Option<Seq<char>> {
    json::string_in(json::json_at(entry, event_place(entry) + pointer))
}

/// The facts of the event in an entry of the stream.
pub open spec fn facts_in(entry: Seq<char>) -> EventFactsView {
    EventFactsView {
        kind: event_string(entry, "/kind"@),
        ledger_event: event_string(entry, "/record/event/event"@),
        proposed_call: event_string(entry, "/record/event/call/id"@),
        proposed_input: json::json_pretty(
            entry,
            event_place(entry) + "/record/event/call/input"@,
        ),
        decided_call: event_string(entry, "/record/event/call_id"@),
        tool_call_id: event_string(entry, "/tool_call_id"@),
        tool_name: event_string(entry, "/tool_name"@),
        effect: event_string(entry, "/effect"@),
        diff_preview: event_string(entry, "/diff_preview"@),
        approval_preview: event_string(entry, "/approval_preview"@),
    }
}

fn string_of(entry: &str, place: &str, pointer: &str) -> (result: Option<String>)
    ensures
        protocol::option_text(result) == json::string_in(
            json::json_at(entry@, place@ + pointer@),
        ),
{
    json::string_at(entry, text::concat(place, pointer).as_str())
}

/// Reads the facts of the event in an entry of the stream; the entry is JSON.
pub fn event_facts(entry: &str) -> (result: EventFacts)
    ensures
        result@ == facts_in(entry@),
{
    let place = match json::part_at(entry, "/event") {
        json::JsonPart::Missing => "",
        _ => "/event",
    };
    EventFacts {
        kind: string_of(entry, place, "/kind"),
        ledger_event: string_of(entry, place, "/record/event/event"),
        proposed_call: string_of(entry, place, "/record/event/call/id"),
        proposed_input: json::pretty_at(
            entry,
            text::concat(place, "/record/event/call/input").as_str(),
        ),
        decided_call: string_of(entry, place, "/record/event/call_id"),
        tool_call_id: string_of(entry, place, "/tool_call_id"),
        tool_name: string_of(entry, place, "/tool_name"),
        effect: string_of(entry, place, "/effect"),
        diff_preview: string_of(entry, place, "/diff_preview"),
        approval_preview: string_of(entry, place, "/approval_preview"),
    }
}

/// An approval that the owner is to be told of.
#[derive(Debug, PartialEq, Eq)]
pub struct PendingApprovalNotification {
    pub call_id: String,
    pub tool_name: String,
    pub effect: String,
    pub preview: Option<String>,
    pub notified: bool,
}

/// A pending approval, with its characters.
pub struct PendingView {
    pub call_id: Seq<char>,
    pub tool_name: Seq<char>,
    pub effect: Seq<char>,
    pub preview: Option<Seq<char>>,
    pub notified: bool,
}

impl View for PendingApprovalNotification {
    type V = PendingView;

    open spec fn view(&self) -> PendingView {
        PendingView {
            call_id: self.call_id@,
            tool_name: self.tool_name@,
            effect: self.effect@,
            preview: protocol::option_text(self.preview),
            notified: self.notified,
        }
    }
}

/// What has been seen of the approvals of a run: the one that is pending, and the inputs of the
/// calls that were proposed.
#[derive(Debug)]
pub struct ApprovalNotifications {
    pub pending: Option<PendingApprovalNotification>,
    pub input_previews: Vec<(String, String)>,
}

/// What has been seen of the approvals of a run.
#[verifier::ext_equal]
pub struct NotificationsView {
    pub pending: Option<PendingView>,
    pub previews: Map<Seq<char>, Seq<char>>,
}

/// The inputs by their calls; of two inputs of one call, the later one.
pub open spec fn previews_of(entries: Seq<(String, String)>) -> Map<Seq<char>, Seq<char>>
    decreases entries.len(),
{
    if entries.len() == 0 {
        Map::empty()
    } else {
        previews_of(entries.drop_last()).insert(entries.last().0@, entries.last().1@)
    }
}

impl View for ApprovalNotifications {
    type V = NotificationsView;

    open spec fn view(&self) -> NotificationsView {
        NotificationsView {
            pending: match self.pending {
                Some(pending) => Some(pending@),
                None => None,
            },
            previews: previews_of(self.input_previews@),
        }
    }
}

/// Nothing is pending, and no input is known.
pub open spec fn nothing_seen() -> NotificationsView {
    NotificationsView { pending: None, previews: Map::empty() }
}

/// The preview of an approval that the event itself brings: the difference that the call would
/// make, or else its own preview, the empty ones not counted.
pub open spec fn own_preview(event: EventFactsView) -> Option<Seq<char>> {
    if event.diff_preview is Some && event.diff_preview->0.len() > 0 {
        event.diff_preview
    } else if event.approval_preview is Some && event.approval_preview->0.len() > 0 {
        event.approval_preview
    } else {
        None
    }
}

pub open spec fn given_or(value: Option<Seq<char>>, assumed: Seq<char>) -> Seq<char> {
    match value {
        Some(s) => s,
        None => assumed,
    }
}

/// Whether the event enters a proposed call, with its input, into the ledger.
pub open spec fn proposes(event: EventFactsView) -> bool {
    &&& event.kind == Some("ledger"@)
    &&& event.ledger_event == Some("tool_call_proposed"@)
    &&& event.proposed_call is Some
    &&& event.proposed_input is Some
}

/// Whether the event enters a decision on a call into the ledger.
pub open spec fn decides(event: EventFactsView) -> bool {
    &&& event.kind == Some("ledger"@)
    &&& event.ledger_event == Some("approval_granted"@) || event.ledger_event == Some(
        "approval_denied"@,
    )
    &&& event.decided_call is Some
}

/// What has been seen after one more event.
pub open spec fn after_event(seen: NotificationsView, event: EventFactsView) -> NotificationsView {
    if event.kind == Some("canceled"@) {
        nothing_seen()
    } else if event.kind == Some("approval_requested"@) {
        match event.tool_call_id {
            None => seen,
            Some(call_id) => NotificationsView {
                pending: Some(
                    PendingView {
                        call_id,
                        tool_name: given_or(event.tool_name, "unknown tool"@),
                        effect: given_or(event.effect, "unknown effect"@),
                        preview: own_preview(event),
                        notified: false,
                    },
                ),
                ..seen
            },
        }
    } else if proposes(event) {
        NotificationsView {
            previews: seen.previews.insert(event.proposed_call->0, event.proposed_input->0),
            ..seen
        }
    } else if decides(event) {
        let call_id = event.decided_call->0;
        NotificationsView {
            pending: if seen.pending is Some && seen.pending->0.call_id == call_id {
                None
            } else {
                seen.pending
            },
            previews: seen.previews.remove(call_id),
        }
    } else {
        seen
    }
}

/// What has been seen after some events.
pub open spec fn after_events(seen: NotificationsView, events: Seq<EventFactsView>) -> NotificationsView
    decreases events.len(),
{
    if events.len() == 0 {
        seen
    } else {
        after_event(after_events(seen, events.drop_last()), events.last())
    }
}

/// Whether an event says that the run was canceled.
pub open spec fn cancels(event: EventFactsView) -> bool {
    event.kind == Some("canceled"@)
}

/// The facts of the events in some entries.
pub open spec fn all_facts_in(entries: Seq<String>) -> Seq<EventFactsView> {
    entries.map_values(|entry: String| facts_in(entry@))
}

fn is_text(value: &Option<String>, expected: &str) -> (result: bool)
    ensures
        result == (protocol::option_text(*value) == Some(expected@)),
{
    match value {
        Some(s) => text::same(s.as_str(), expected),
        None => false,
    }
}

fn non_empty(value: Option<String>) -> (result: Option<String>)
    ensures
        result == (if value is Some && value->0@.len() > 0 {
            value
        } else {
            None
        }),
{
    match value {
        Some(s) => if text::chars_of(s.as_str()).len() > 0 {
            Some(s)
        } else {
            None
        },
        None => None,
    }
}

fn given_or_owned(value: Option<String>, assumed: &str) -> (result: String)
    ensures
        result@ == given_or(protocol::option_text(value), assumed@),
{
    match value {
        Some(s) => s,
        None => assumed.to_owned(),
    }
}

impl ApprovalNotifications {
    /// Nothing has been seen yet.
    pub fn new() -> (result: Self)
        ensures
            result@ == nothing_seen(),
    {
        ApprovalNotifications { pending: None, input_previews: Vec::new() }
    }

    /// Forgets everything.
    pub fn clear(&mut self)
        ensures
            final(self)@ == nothing_seen(),
    {
        self.pending = None;
        self.input_previews = Vec::new();
    }

    fn forget_preview(&mut self, call_id: &str)
        ensures
            final(self).pending == old(self).pending,
            final(self)@.previews == old(self)@.previews.remove(call_id@),
    {
        let mut kept: Vec<(String, String)> = Vec::new();
        let mut i: usize = 0;
        let ghost all = self.input_previews@;
        assert(all.take(0) =~= Seq::<(String, String)>::empty());
        assert(previews_of(all.take(0)).remove(call_id@) =~= Map::empty());
        while i < self.input_previews.len()
            invariant
                i <= all.len(),
                all == self.input_previews@,
                *self == *old(self),
                previews_of(kept@) =~= previews_of(all.take(i as int)).remove(call_id@),
            decreases all.len() - i,
        {
            let key = self.input_previews[i].0.clone();
            assert(all.take(i + 1).drop_last() =~= all.take(i as int));
            assert(all.take(i + 1).last() == all[i as int]);
            if !text::same(key.as_str(), call_id) {
                let ghost before = kept@;
                let preview = self.input_previews[i].1.clone();
                kept.push((key, preview));
                assert(kept@.drop_last() =~= before);
            }
            i = i + 1;
        }
        assert(all.take(i as int) =~= all);
        self.input_previews = kept;
    }

    fn keep_preview(&mut self, call_id: String, preview: String)
        ensures
            final(self).pending == old(self).pending,
            final(self)@.previews == old(self)@.previews.insert(call_id@, preview@),
    {
        self.forget_preview(call_id.as_str());
        let ghost before = self.input_previews@;
        let ghost key = call_id@;
        self.input_previews.push((call_id, preview));
        assert(self.input_previews@.drop_last() =~= before);
        assert(old(self)@.previews.remove(key).insert(key, preview@) =~= old(self)@.previews.insert(
            key,
            preview@,
        ));
    }

    fn preview_of(&self, call_id: &str) -> (result: Option<String>)
        ensures
            match result {
                Some(preview) => self@.previews.dom().contains(call_id@)
                    && self@.previews[call_id@] == preview@,
                None => !self@.previews.dom().contains(call_id@),
            },
    {
        let mut i: usize = self.input_previews.len();
        let ghost all = self.input_previews@;
        assert(all.take(i as int) =~= all);
        while i > 0
            invariant
                i <= all.len(),
                all == self.input_previews@,
                previews_of(all).dom().contains(call_id@) == previews_of(
                    all.take(i as int),
                ).dom().contains(call_id@),
                previews_of(all).dom().contains(call_id@) ==> previews_of(all)[call_id@]
                    == previews_of(all.take(i as int))[call_id@],
            decreases i,
        {
            i = i - 1;
            assert(all.take(i + 1).drop_last() =~= all.take(i as int));
            assert(all.take(i + 1).last() == all[i as int]);
            if text::same(self.input_previews[i].0.as_str(), call_id) {
                return Some(self.input_previews[i].1.clone());
            }
        }
        None
    }

    /// Takes in one event; the result says whether it cancels the run.
    pub fn observe(&mut self, event: EventFacts) -> (canceled: bool)
        ensures
            final(self)@ == after_event(old(self)@, event@),
            canceled == cancels(event@),
    {
        let ghost seen = self@;
        proof {
            reveal_strlit("canceled");
            reveal_strlit("ledger");
            reveal_strlit("approval_requested");
            reveal_strlit("tool_call_proposed");
            reveal_strlit("approval_granted");
            reveal_strlit("approval_denied");
            assert("ledger"@.len() != "approval_requested"@.len());
            assert("tool_call_proposed"@.len() != "approval_granted"@.len());
            assert("tool_call_proposed"@.len() != "approval_denied"@.len());
        }
        if is_text(&event.kind, "canceled") {
            self.clear();
            return true;
        }
        if is_text(&event.kind, "approval_requested") {
            if let Some(call_id) = event.tool_call_id {
                let tool_name = given_or_owned(event.tool_name, "unknown tool");
                let effect = given_or_owned(event.effect, "unknown effect");
                let preview = match non_empty(event.diff_preview) {
                    Some(s) => Some(s),
                    None => non_empty(event.approval_preview),
                };
                self.pending = Some(
                    PendingApprovalNotification {
                        call_id,
                        tool_name,
                        effect,
                        preview,
                        notified: false,
                    },
                );
            }
            return false;
        }
        if !is_text(&event.kind, "ledger") {
            return false;
        }
        if is_text(&event.ledger_event, "tool_call_proposed") {
            if let Some(call_id) = event.proposed_call {
                if let Some(preview) = event.proposed_input {
                    self.keep_preview(call_id, preview);
                }
            }
            return false;
        }
        if is_text(&event.ledger_event, "approval_granted") || is_text(
            &event.ledger_event,
            "approval_denied",
        ) {
            if let Some(call_id) = event.decided_call {
                self.forget_preview(call_id.as_str());
                let decided = match &self.pending {
                    Some(pending) => text::same(pending.call_id.as_str(), call_id.as_str()),
                    None => false,
                };
                if decided {
                    self.pending = None;
                }
            }
        }
        false
    }

    /// Takes in the events of some entries of the stream, each of which is JSON; the result says
    /// whether one of them cancels the run.
    pub fn fold(&mut self, entries: &Vec<String>) -> (canceled: bool)
        ensures
            final(self)@ == after_events(old(self)@, all_facts_in(entries@)),
            canceled == exists|i: int|
                0 <= i < entries.len() && cancels(#[trigger] all_facts_in(entries@)[i]),
    {
        let mut canceled = false;
        let ghost facts = all_facts_in(entries@);
        let mut i: usize = 0;
        assert(facts.take(0) =~= Seq::<EventFactsView>::empty());
        while i < entries.len()
            invariant
                i <= entries.len(),
                facts == all_facts_in(entries@),
                self@ == after_events(old(self)@, facts.take(i as int)),
                canceled == exists|j: int| 0 <= j < i && cancels(#[trigger] facts[j]),
            decreases entries.len() - i,
        {
            assert(facts.take(i + 1).drop_last() =~= facts.take(i as int));
            assert(facts.take(i + 1).last() == facts[i as int]);
            let one = self.observe(event_facts(entries[i].as_str()));
            if one {
                assert(cancels(facts[i as int]));
                canceled = true;
            }
            i = i + 1;
        }
        assert(facts.take(i as int) =~= facts);
        canceled
    }

    /// The notification that is due, if one is: of a pending approval that the owner has not been
    /// told of and of which there is something to show.
    pub fn take_notification(&mut self) -> (result: Option<String>)
        ensures
            match due(old(self)@) {
                Some(message) => result is Some && result->0@ == message && final(self)@ == told(
                    old(self)@,
                ),
                None => result is None && final(self)@ == old(self)@,
            },
    {
        let message = match &self.pending {
            None => {
                return None;
            },
            Some(pending) => {
                if pending.notified {
                    return None;
                }
                let preview = match &pending.preview {
                    Some(preview) => preview.clone(),
                    None => match self.preview_of(pending.call_id.as_str()) {
                        Some(preview) => preview,
                        None => {
                            return None;
                        },
                    },
                };
                approval_notification(
                    pending.tool_name.as_str(),
                    pending.effect.as_str(),
                    preview.as_str(),
                )
            },
        };
        let mut taken: Option<PendingApprovalNotification> = None;
        std::mem::swap(&mut taken, &mut self.pending);
        if let Some(pending) = taken {
            self.pending = Some(PendingApprovalNotification { notified: true, ..pending });
        }
        Some(message)
    }
}

/// What is shown of a pending approval: its own preview, or else the input of its call.
pub open spec fn shown(seen: NotificationsView) -> Option<Seq<char>> {
    let pending = seen.pending->0;
    if pending.preview is Some {
        pending.preview
    } else if seen.previews.dom().contains(pending.call_id) {
        Some(seen.previews[pending.call_id])
    } else {
        None
    }
}

/// The notification that is due.
pub open spec fn due(seen: NotificationsView) -> Option<Seq<char>> {
    match seen.pending {
        Some(pending) => if pending.notified {
            None
        } else {
            match shown(seen) {
                Some(preview) => Some(notification(pending.tool_name, pending.effect, preview)),
                None => None,
            }
        },
        None => None,
    }
}

/// What has been seen, once the owner has been told of the pending approval.
pub open spec fn told(seen: NotificationsView) -> NotificationsView {
    NotificationsView {
        pending: match seen.pending {
            Some(pending) => Some(PendingView { notified: true, ..pending }),
            None => None,
        },
        ..seen
    }
}

/// The owner is told of a pending approval once: as long as only calls are proposed or decided on,
/// nothing more is due.
pub proof fn the_owner_is_told_once(seen: NotificationsView, event: EventFactsView)
    requires
        event.kind != Some("approval_requested"@),
    ensures
        due(told(seen)) is None,
        due(after_event(told(seen), event)) is None,
{
}

/// A decision on a call that waits for approval leaves nothing pending and nothing to show of it; a
/// decision on another call leaves the pending one.
pub proof fn a_decision_ends_only_its_own_request(seen: NotificationsView, event: EventFactsView)
    requires
        decides(event),
    ensures
        ({
            let after = after_event(seen, event);
            let call_id = event.decided_call->0;
            &&& !after.previews.dom().contains(call_id)
            &&& seen.pending is Some && seen.pending->0.call_id == call_id ==> after.pending is None
                && due(after) is None
            &&& seen.pending is Some && seen.pending->0.call_id != call_id ==> after.pending
                == seen.pending
            &&& forall|other: Seq<char>|
                other != call_id ==> (#[trigger] after.previews.dom().contains(other)
                    == seen.previews.dom().contains(other)) && after.previews[other]
                    == seen.previews[other]
        }),
{
    reveal_strlit("ledger");
    reveal_strlit("canceled");
    reveal_strlit("approval_requested");
    reveal_strlit("tool_call_proposed");
    reveal_strlit("approval_granted");
    reveal_strlit("approval_denied");
    assert("ledger"@.len() == 6 && "canceled"@.len() == 8 && "approval_requested"@.len() == 18);
    assert("tool_call_proposed"@.len() == 18 && "approval_granted"@.len() == 16
        && "approval_denied"@.len() == 15);
}

/// Of events that end with a cancellation nothing is left: no approval is pending or due.
pub proof fn a_cancellation_leaves_nothing_due(
    seen: NotificationsView,
    events: Seq<EventFactsView>,
)
    requires
        events.len() > 0,
        cancels(events.last()),
    ensures
        after_events(seen, events) == nothing_seen(),
        due(after_events(seen, events)) is None,
{
}

} // verus!
