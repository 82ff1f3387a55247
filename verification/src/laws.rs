//! Laws that relate the operations of the store and the handlers.

use vstd::prelude::*;
use crate::bot::delete_requests;
use crate::bot::spec_promote;
use crate::bot::spec_admin;
use crate::bot::spec_message;
use crate::bot::spec_observe;
use crate::bot::spec_onboard_personal_message;
use crate::bot::spec_text;
use crate::bot::spec_touch;
use crate::bot::spec_update;
use crate::model::ActionView;
use crate::model::MessageRef;
use crate::model::ReasonView;
use crate::model::Update;
use crate::model::UpdateKind;
use crate::model::UserQueueState;
use crate::model::UserView;
use crate::queue::QueueView;
use crate::queue::lemma_get_or_create_wf;
use crate::queue::lemma_remove_no_duplicates;
use crate::queue::lemma_with_session_wf;
use crate::text::AdminCommand;
use crate::text::command_token;
use crate::text::spec_classify_reason;
use crate::text::spec_parse_command;
use crate::text::spec_reason_label;

verus! {

/// The store after one lookup of `user_id` at each of `times`, in turn.
pub open spec fn get_or_create_many(q: QueueView, user_id: i64, times: Seq<u64>) -> QueueView
    decreases times.len(),
{
    if times.len() == 0 {
        q
    } else {
        get_or_create_many(q.get_or_create(user_id, times[0]), user_id, times.drop_first())
    }
}

/// Looking the same participant up a second time changes nothing, whatever
/// the time of the second lookup.
pub proof fn lemma_get_or_create_idempotent(q: QueueView, user_id: i64, now: u64, later: u64)
    ensures
        q.get_or_create(user_id, now).get_or_create(user_id, later) == q.get_or_create(
            user_id,
            now,
        ),
{
}

/// Any number of lookups of one participant, at least one, give the store
/// that the first of them gives: the participant has one session and stands
/// in the order exactly once.
pub proof fn lemma_get_or_create_many(q: QueueView, user_id: i64, times: Seq<u64>)
    requires
        q.wf(),
        times.len() > 0,
    ensures
        get_or_create_many(q, user_id, times) == q.get_or_create(user_id, times[0]),
        get_or_create_many(q, user_id, times).wf(),
        get_or_create_many(q, user_id, times).sessions.contains_key(user_id),
        get_or_create_many(q, user_id, times).order.contains(user_id),
        forall|i: int, j: int|
            #![trigger get_or_create_many(q, user_id, times).order[i], get_or_create_many(q, user_id, times).order[j]]
            {
                let order = get_or_create_many(q, user_id, times).order;
                0 <= i < order.len() && 0 <= j < order.len() && order[i] == user_id && order[j]
                    == user_id ==> i == j
            },
    decreases times.len(),
{
    let q1 = q.get_or_create(user_id, times[0]);
    let rest = times.drop_first();
    lemma_get_or_create_wf(q, user_id, times[0]);
    if rest.len() == 0 {
        assert(get_or_create_many(q1, user_id, rest) == q1);
    } else {
        lemma_get_or_create_many(q1, user_id, rest);
        lemma_get_or_create_idempotent(q, user_id, times[0], rest[0]);
    }
}

/// A change made to a session is what a later lookup of that participant
/// finds.
pub proof fn lemma_lookup_observes_mutation(q: QueueView, user_id: i64, session: UserView, now: u64)
    ensures
        q.with_session(user_id, session).get_or_create(user_id, now) == q.with_session(
            user_id,
            session,
        ),
        q.with_session(user_id, session).get_or_create(user_id, now).sessions[user_id] == session,
{
}

/// Taking a participant out keeps as much of the store's invariant as held
/// before, and the participant is then neither in the order nor among the
/// sessions.
pub proof fn lemma_remove_wf(q: QueueView, user_id: i64)
    requires
        q.structural(),
    ensures
        q.remove(user_id).structural(),
        q.wf() ==> q.remove(user_id).wf(),
        !q.remove(user_id).order.contains(user_id),
        !q.remove(user_id).sessions.contains_key(user_id),
        q.wf() ==> q.remove(user_id).current != Some(user_id),
{
    if q.sessions.contains_key(user_id) {
        assert(q.order.contains(user_id));
        let p = q.order.index_of(user_id);
        lemma_remove_no_duplicates(q.order, p);
    }
}

/// Ordinary text moves the sender exactly one step forward in the dialogue
/// (a queued sender stays queued) and touches nobody else.
pub proof fn lemma_text_advances_one_step(q: QueueView, from: i64, text: Seq<char>)
    requires
        q.wf(),
        q.sessions.contains_key(from),
    ensures
        ({
            let r = spec_text(q, from, text).queue;
            &&& r.order == q.order
            &&& r.current == q.current
            &&& r.sessions.dom() == q.sessions.dom()
            &&& r.sessions[from].state == q.sessions[from].state.successor()
            &&& forall|id: i64| id != from ==> r.sessions[id] == q.sessions[id]
        }),
{
    let r = spec_text(q, from, text).queue;
    assert(r.sessions.dom() =~= q.sessions.dom());
}

/// No update moves a session backwards or over a step: a session that was
/// there before is in the same state or in the next one, and a session that
/// is new is at the first step or the second.
pub proof fn lemma_update_never_reverses(q: QueueView, update: Update, now: u64, id: i64)
    requires
        q.wf(),
        spec_update(q, update, now).queue.sessions.contains_key(id),
    ensures
        ({
            let after = spec_update(q, update, now).queue.sessions[id].state;
            if q.sessions.contains_key(id) {
                let before = q.sessions[id].state;
                &&& after == before || after == before.successor()
                &&& before.rank() <= after.rank() <= before.rank() + 1
            } else {
                after == UserQueueState::OnboardInitial || after
                    == UserQueueState::OnboardInquiryReason
            }
        }),
{
}

/// On entering the queue the transcript is empty, and the requests begin
/// with one delete request for each message that was recorded, in order.
pub proof fn lemma_entering_queue_purges(q: QueueView, from: i64, text: Seq<char>)
    requires
        q.sessions.contains_key(from),
        q.sessions[from].state == UserQueueState::OnboardPersonalMessage,
    ensures
        ({
            let out = spec_onboard_personal_message(q, from, text);
            let transcript = q.sessions[from].messages;
            &&& out.queue.sessions[from].state == UserQueueState::InQueue
            &&& out.queue.sessions[from].inquiry.personal_message == Some(text)
            &&& out.queue.sessions[from].messages.len() == 0
            &&& out.actions.len() == transcript.len() + 2
            &&& out.actions.take(transcript.len() as int) == delete_requests(transcript)
            &&& forall|k: int|
                0 <= k < transcript.len() ==> out.actions[k] == (ActionView::DeleteMessage {
                    message: transcript[k],
                })
            &&& forall|k: int|
                transcript.len() <= k < out.actions.len() ==> !(out.actions[k]
                    is DeleteMessage)
        }),
{
    let out = spec_onboard_personal_message(q, from, text);
    let transcript = q.sessions[from].messages;
    assert(out.actions.take(transcript.len() as int) =~= delete_requests(transcript));
}

/// Noting a contact keeps the store's invariant and leaves the sender with
/// a session; a sender who is new has the initial session.
pub proof fn lemma_touch_wf(q: QueueView, from: i64, now: u64)
    requires
        q.wf(),
    ensures
        spec_touch(q, from, now).wf(),
        spec_touch(q, from, now).sessions.contains_key(from),
        spec_touch(q, from, now).order == q.get_or_create(from, now).order,
        !q.sessions.contains_key(from) ==> spec_touch(q, from, now).sessions[from]
            == UserView::initial(from, now),
{
    lemma_get_or_create_wf(q, from, now);
    let q1 = q.get_or_create(from, now);
    let r = spec_touch(q, from, now);
    lemma_with_session_wf(q1, from, r.sessions[from]);
    assert(r.sessions =~= q1.sessions.insert(from, r.sessions[from]));
}

/// Observing a message keeps the store's invariant and leaves the sender
/// with a session.
pub proof fn lemma_observe_wf(q: QueueView, from: i64, reference: MessageRef, now: u64)
    requires
        q.wf(),
    ensures
        spec_observe(q, from, reference, now).wf(),
        spec_observe(q, from, reference, now).sessions.contains_key(from),
        spec_observe(q, from, reference, now).order == q.get_or_create(from, now).order,
{
    lemma_touch_wf(q, from, now);
    let q1 = spec_touch(q, from, now);
    let r = spec_observe(q, from, reference, now);
    if q1.sessions[from].state != UserQueueState::InQueue {
        lemma_with_session_wf(q1, from, r.sessions[from]);
        assert(r.sessions =~= q1.sessions.insert(from, r.sessions[from]));
    }
}

/// Ordinary text keeps the store's invariant.
pub proof fn lemma_text_wf(q: QueueView, from: i64, text: Seq<char>)
    requires
        q.wf(),
    ensures
        spec_text(q, from, text).queue.wf(),
{
    let r = spec_text(q, from, text).queue;
    if q.sessions.contains_key(from) && q.sessions[from].state != UserQueueState::InQueue {
        lemma_with_session_wf(q, from, r.sessions[from]);
        assert(r.sessions =~= q.sessions.insert(from, r.sessions[from]));
    }
}

/// Promoting the first waiting participant keeps the store's invariant.
pub proof fn lemma_promote_wf(q: QueueView)
    requires
        q.wf(),
    ensures
        q.advance_current().wf(),
        match q.next_waiting() {
            Some(next) => q.is_waiting(next) && q.advance_current().current == Some(next),
            None => q.advance_current() == q,
        },
{
    if q.waiting().len() > 0 {
        q.order.lemma_filter_pred(q.waiting_pred(), 0);
    }
}

/// Every staff command keeps the store's invariant.
pub proof fn lemma_admin_wf(q: QueueView, requester: i64, command: AdminCommand)
    requires
        q.wf(),
    ensures
        spec_admin(q, requester, command).queue.wf(),
{
    match q.current {
        Some(c) => {
            lemma_remove_wf(q, c);
            lemma_promote_wf(q.remove(c));
        },
        None => {},
    }
    lemma_promote_wf(q);
}

/// Every update keeps the store's invariant; in particular a queued session
/// never holds a transcript.
pub proof fn lemma_update_keeps_invariant(q: QueueView, update: Update, now: u64)
    requires
        q.wf(),
    ensures
        spec_update(q, update, now).queue.wf(),
        forall|id: i64| #[trigger]
            spec_update(q, update, now).queue.sessions.contains_key(id) && spec_update(
                q,
                update,
                now,
            ).queue.sessions[id].state == UserQueueState::InQueue ==> spec_update(
                q,
                update,
                now,
            ).queue.sessions[id].messages.len() == 0,
{
    match update.kind {
        UpdateKind::Message(m) => {
            lemma_touch_wf(q, m.from, now);
            lemma_observe_wf(q, m.from, m.reference(), now);
            match m.text() {
                Some(t) => match spec_parse_command(t) {
                    Some(command) => lemma_admin_wf(spec_touch(q, m.from, now), m.from, command),
                    None => lemma_text_wf(spec_observe(q, m.from, m.reference(), now), m.from, t),
                },
                None => {},
            }
        },
        UpdateKind::Other => {},
    }
}

/// Reveals the characters of the five command tokens.
pub proof fn lemma_command_tokens()
    ensures
        command_token(AdminCommand::Accept) == seq!['+', 'a', 'c', 'c', 'e', 'p', 't'],
        command_token(AdminCommand::Reject) == seq!['+', 'r', 'e', 'j', 'e', 'c', 't'],
        command_token(AdminCommand::Done) == seq!['+', 'd', 'o', 'n', 'e'],
        command_token(AdminCommand::Next) == seq!['+', 'n', 'e', 'x', 't'],
        command_token(AdminCommand::Queue) == seq!['+', 'q', 'u', 'e', 'u', 'e'],
{
    reveal_strlit("+accept");
    reveal_strlit("+reject");
    reveal_strlit("+done");
    reveal_strlit("+next");
    reveal_strlit("+queue");
    assert(command_token(AdminCommand::Accept) =~= seq!['+', 'a', 'c', 'c', 'e', 'p', 't']);
    assert(command_token(AdminCommand::Reject) =~= seq!['+', 'r', 'e', 'j', 'e', 'c', 't']);
    assert(command_token(AdminCommand::Done) =~= seq!['+', 'd', 'o', 'n', 'e']);
    assert(command_token(AdminCommand::Next) =~= seq!['+', 'n', 'e', 'x', 't']);
    assert(command_token(AdminCommand::Queue) =~= seq!['+', 'q', 'u', 'e', 'u', 'e']);
}

/// A message body is a command exactly if the whole of it is that command's
/// token; the five tokens stand for five different commands.
pub proof fn lemma_parse_command_exact(text: Seq<char>, command: AdminCommand)
    ensures
        spec_parse_command(text) == Some(command) <==> text == command_token(command),
        spec_parse_command(command_token(command)) == Some(command),
{
    lemma_command_tokens();
    let t = command_token(command);
    assert(t[1] == t[1]);
    assert(command_token(AdminCommand::Accept)[1] == 'a');
    assert(command_token(AdminCommand::Reject)[1] == 'r');
    assert(command_token(AdminCommand::Done)[1] == 'd');
    assert(command_token(AdminCommand::Next)[1] == 'n');
    assert(command_token(AdminCommand::Queue)[1] == 'q');
}

/// A text that holds a token with anything before or after it is no
/// command: a token as a prefix, a suffix or a part does not count.
pub proof fn lemma_longer_text_is_no_command(
    before: Seq<char>,
    command: AdminCommand,
    after: Seq<char>,
)
    requires
        before.len() + after.len() > 0,
    ensures
        spec_parse_command(before + command_token(command) + after).is_none(),
{
    lemma_command_tokens();
    let t = command_token(command);
    let text = before + t + after;
    let n = before.len() as int;
    assert(text.len() == before.len() + t.len() + after.len());
    assert(text[n] == t[0]);
    assert(text[n + 1] == t[1]);
    if spec_parse_command(text).is_some() {
        let c = spec_parse_command(text).unwrap();
        let u = command_token(c);
        assert(text == u);
        assert(u[0] == '+');
        assert(forall|i: int| 1 <= i < u.len() ==> u[i] != '+');
        assert(n == 0);
        assert(u[1] == t[1]);
        assert(c == command);
        assert(false);
    }
}

/// Reveals the characters that tell the six category labels apart.
proof fn lemma_labels_differ()
    ensures
        "technical"@.len() == 9 && "technical"@[0] == 't',
        "emergency"@.len() == 9 && "emergency"@[0] == 'e',
        "content & substances"@.len() == 20 && "content & substances"@[2] == 'n',
        "community & outreach"@.len() == 20 && "community & outreach"@[2] == 'm',
        "events & invitations"@.len() == 20 && "events & invitations"@[2] == 'e',
        "press & journalists"@.len() == 19,
{
    reveal_strlit("technical");
    reveal_strlit("emergency");
    reveal_strlit("content & substances");
    reveal_strlit("community & outreach");
    reveal_strlit("events & invitations");
    reveal_strlit("press & journalists");
}

/// Classification is exact: a text is filed under a canonical category
/// exactly if the whole of it is that category's label, each label is filed
/// under its own category, and every other text is kept unchanged as a
/// custom reason.
pub proof fn lemma_classify_exact(text: Seq<char>, reason: ReasonView)
    ensures
        spec_reason_label(reason).is_some() ==> spec_classify_reason(
            spec_reason_label(reason).unwrap(),
        ) == reason,
        spec_reason_label(reason).is_some() ==> (spec_classify_reason(text) == reason <==> Some(text)
            == spec_reason_label(reason)),
        spec_reason_label(spec_classify_reason(text)).is_some() ==> spec_reason_label(
            spec_classify_reason(text),
        ) == Some(text),
        spec_reason_label(spec_classify_reason(text)).is_none() ==> spec_classify_reason(text)
            == ReasonView::Custom(text),
        !(spec_classify_reason(text) is Unknown),
{
    lemma_labels_differ();
}

/// A message whose whole body is a command token goes to the staff
/// commands, whatever the sender's place in the dialogue. The command leaves
/// the sender's session as it was but for the time of last contact: nothing
/// is added to the transcript, and a sender who is new has the initial
/// session afterwards. Every other text is recorded and goes to the
/// sender's dialogue.
pub proof fn lemma_command_routing(
    q: QueueView,
    from: i64,
    reference: MessageRef,
    text: Seq<char>,
    now: u64,
)
    requires
        q.wf(),
    ensures
        ({
            let out = spec_message(q, from, reference, Some(text), now);
            let known = q.get_or_create(from, now).sessions[from];
            &&& forall|command: AdminCommand|
                text == command_token(command) ==> {
                    &&& out == spec_admin(spec_touch(q, from, now), from, command)
                    &&& out.queue.sessions.contains_key(from) ==> out.queue.sessions[from]
                        == (UserView { last_contact: now, ..known })
                    &&& !q.sessions.contains_key(from) ==> out.queue.sessions.contains_key(from)
                        && out.queue.sessions[from] == UserView::initial(from, now)
                }
            &&& (forall|command: AdminCommand| text != command_token(command)) ==> out
                == spec_text(spec_observe(q, from, reference, now), from, text)
        }),
{
    let out = spec_message(q, from, reference, Some(text), now);
    let known = q.get_or_create(from, now).sessions[from];
    lemma_touch_wf(q, from, now);
    assert forall|command: AdminCommand| text == command_token(command) implies {
        &&& out == spec_admin(spec_touch(q, from, now), from, command)
        &&& out.queue.sessions.contains_key(from) ==> out.queue.sessions[from] == (UserView {
            last_contact: now,
            ..known
        })
        &&& !q.sessions.contains_key(from) ==> out.queue.sessions.contains_key(from)
            && out.queue.sessions[from] == UserView::initial(from, now)
    } by {
        lemma_parse_command_exact(text, command);
    }
    if forall|command: AdminCommand| text != command_token(command) {
        assert(text != command_token(AdminCommand::Accept));
        assert(text != command_token(AdminCommand::Reject));
        assert(text != command_token(AdminCommand::Done));
        assert(text != command_token(AdminCommand::Next));
        assert(text != command_token(AdminCommand::Queue));
    }
}

/// A message without text leaves every transcript as it was.
pub proof fn lemma_message_without_text(q: QueueView, from: i64, reference: MessageRef, now: u64)
    requires
        q.wf(),
    ensures
        ({
            let out = spec_message(q, from, reference, None, now);
            let known = q.get_or_create(from, now).sessions[from];
            &&& out.actions.len() == 0
            &&& out.queue.order == q.get_or_create(from, now).order
            &&& out.queue.sessions[from] == (UserView { last_contact: now, ..known })
            &&& forall|id: i64|
                id != from ==> (out.queue.sessions.contains_key(id) <==> q.sessions.contains_key(id))
                    && out.queue.sessions[id] == q.sessions[id]
        }),
{
}

/// The first item that a filter keeps is the first item of the sequence
/// that meets the predicate.
pub proof fn lemma_filter_first(s: Seq<i64>, pred: spec_fn(i64) -> bool) -> (i: int)
    requires
        s.filter(pred).len() > 0,
    ensures
        0 <= i < s.len(),
        s[i] == s.filter(pred)[0],
        pred(s[i]),
        forall|j: int| 0 <= j < i ==> !pred(#[trigger] s[j]),
    decreases s.len(),
{
    reveal(Seq::filter);
    let t = s.drop_last();
    assert(s =~= t.push(s.last()));
    t.lemma_filter_push(s.last(), pred);
    if t.filter(pred).len() > 0 {
        lemma_filter_first(t, pred)
    } else {
        assert forall|j: int| 0 <= j < t.len() implies !pred(#[trigger] t[j]) by {
            if pred(t[j]) {
                t.lemma_filter_contains(pred, j);
            }
        }
        t.len() as int
    }
}

/// Service is first come, first served: the participant promoted next is
/// waiting, and nobody who stands before them in the order is.
pub proof fn lemma_next_waiting_is_first(q: QueueView, next: i64)
    requires
        q.wf(),
        q.next_waiting() == Some(next),
    ensures
        q.is_waiting(next),
        q.order.contains(next),
        forall|j: int| 0 <= j < q.order.index_of(next) ==> !q.is_waiting(#[trigger] q.order[j]),
{
    let i = lemma_filter_first(q.order, q.waiting_pred());
    assert(q.order[i] == next);
    let p = q.order.index_of(next);
    assert(0 <= p < q.order.len() && q.order[p] == next);
    assert(p == i);
    assert forall|j: int| 0 <= j < p implies !q.is_waiting(#[trigger] q.order[j]) by {
        assert(!q.waiting_pred()(q.order[j]));
    }
}

/// Nobody is promoted exactly if nobody waits.
pub proof fn lemma_nobody_waits(q: QueueView)
    ensures
        q.next_waiting().is_none() <==> forall|j: int|
            0 <= j < q.order.len() ==> !q.is_waiting(#[trigger] q.order[j]),
{
    if q.next_waiting().is_none() {
        assert forall|j: int| 0 <= j < q.order.len() implies !q.is_waiting(
            #[trigger] q.order[j],
        ) by {
            if q.is_waiting(q.order[j]) {
                q.order.lemma_filter_contains(q.waiting_pred(), j);
            }
        }
    } else {
        let i = lemma_filter_first(q.order, q.waiting_pred());
        assert(q.is_waiting(q.order[i]));
    }
}

} // verus!
