//! The dispatcher, the onboarding dialogue and the staff commands.
//!
//! Each handler takes one inbound event, updates the queue store and returns
//! the requests that the caller is to hand to the transport, in order.

use vstd::prelude::*;
use crate::model::Action;
use crate::model::ActionView;
use crate::model::InquiryView;
use crate::model::Message;
use crate::model::MessageKind;
use crate::model::MessageRef;
use crate::model::Notice;
use crate::model::Update;
use crate::model::UpdateKind;
use crate::model::UserQueueState;
use crate::model::UserView;
use crate::model::actions_view;
use crate::queue::Queue;
use crate::queue::QueueView;
use crate::queue::lemma_with_session_wf;
use crate::text::AdminCommand;
use crate::text::classify_reason;
use crate::text::parse_command;
use crate::text::spec_classify_reason;
use crate::text::spec_parse_command;

verus! {

/// The seconds to wait between the purge of a transcript and the
/// confirmation that follows it.
pub const PURGE_PAUSE_SECONDS: u64 = 2;

/// What one event leads to: the store afterwards and the requests to perform.
pub struct Outcome {
    pub queue: QueueView,
    pub actions: Seq<ActionView>,
}

/// The outcome of an event that changes nothing.
pub open spec fn unchanged(q: QueueView) -> Outcome {
    Outcome { queue: q, actions: Seq::empty() }
}

/// A notice sent to `to`.
pub open spec fn send(to: i64, notice: Notice, track: bool) -> ActionView {
    ActionView::SendMessage { to, notice, track }
}

/// One delete request for each message of a transcript, in its order.
pub open spec fn delete_requests(messages: Seq<MessageRef>) -> Seq<ActionView> {
    Seq::new(messages.len(), |i: int| ActionView::DeleteMessage { message: messages[i] })
}

/// The store after a message from `from` was seen at `now`: the sender has
/// a session and its last contact is `now`. Nothing else changes.
pub open spec fn spec_touch(q: QueueView, from: i64, now: u64) -> QueueView {
    let q1 = q.get_or_create(from, now);
    let u = q1.sessions[from];
    q1.with_session(from, UserView { last_contact: now, ..u })
}

/// The store after a message from `from` that goes to the dialogue was
/// seen at `now`: as after [`spec_touch`], and while the sender is still
/// onboarding the message is added to the transcript.
pub open spec fn spec_observe(q: QueueView, from: i64, reference: MessageRef, now: u64) -> QueueView {
    let q1 = spec_touch(q, from, now);
    let u = q1.sessions[from];
    if u.state == UserQueueState::InQueue {
        q1
    } else {
        q1.with_session(from, UserView { messages: u.messages.push(reference), ..u })
    }
}

/// The store after the transport reported a sent message: the message is
/// added to the transcript of `to` while `to` is still onboarding.
pub open spec fn spec_record_sent(q: QueueView, to: i64, sent: MessageRef) -> QueueView {
    if q.sessions.contains_key(to) && q.sessions[to].state != UserQueueState::InQueue {
        let u = q.sessions[to];
        q.with_session(to, UserView { messages: u.messages.push(sent), ..u })
    } else {
        q
    }
}

/// First step of the dialogue: ask for the category.
pub open spec fn spec_onboard_initial(q: QueueView, from: i64) -> Outcome {
    if q.sessions.contains_key(from) && q.sessions[from].state == UserQueueState::OnboardInitial {
        let u = q.sessions[from];
        Outcome {
            queue: q.with_session(
                from,
                UserView { state: UserQueueState::OnboardInquiryReason, ..u },
            ),
            actions: seq![send(from, Notice::CategoryPrompt, true)],
        }
    } else {
        unchanged(q)
    }
}

/// Second step: file the reason and ask for a summary.
pub open spec fn spec_onboard_inquiry_reason(q: QueueView, from: i64, text: Seq<char>) -> Outcome {
    if q.sessions.contains_key(from) && q.sessions[from].state
        == UserQueueState::OnboardInquiryReason {
        let u = q.sessions[from];
        Outcome {
            queue: q.with_session(
                from,
                UserView {
                    inquiry: InquiryView { reason: spec_classify_reason(text), ..u.inquiry },
                    state: UserQueueState::OnboardPersonalMessage,
                    ..u
                },
            ),
            actions: seq![send(from, Notice::SummaryPrompt, true)],
        }
    } else {
        unchanged(q)
    }
}

/// Third step: file the summary, purge the transcript and enter the queue.
pub open spec fn spec_onboard_personal_message(q: QueueView, from: i64, text: Seq<char>) -> Outcome {
    if q.sessions.contains_key(from) && q.sessions[from].state
        == UserQueueState::OnboardPersonalMessage {
        let u = q.sessions[from];
        Outcome {
            queue: q.with_session(
                from,
                UserView {
                    inquiry: InquiryView { personal_message: Some(text), ..u.inquiry },
                    state: UserQueueState::InQueue,
                    messages: Seq::empty(),
                    ..u
                },
            ),
            actions: delete_requests(u.messages).push(
                ActionView::Pause { seconds: PURGE_PAUSE_SECONDS },
            ).push(send(from, Notice::Queued, false)),
        }
    } else {
        unchanged(q)
    }
}

/// What ordinary text from `from` leads to. A participant who is unknown or
/// already queued is left alone.
pub open spec fn spec_text(q: QueueView, from: i64, text: Seq<char>) -> Outcome {
    if !q.sessions.contains_key(from) {
        unchanged(q)
    } else {
        match q.sessions[from].state {
            UserQueueState::OnboardInitial => spec_onboard_initial(q, from),
            UserQueueState::OnboardInquiryReason => spec_onboard_inquiry_reason(q, from, text),
            UserQueueState::OnboardPersonalMessage => spec_onboard_personal_message(
                q,
                from,
                text,
            ),
            UserQueueState::InQueue => unchanged(q),
        }
    }
}

/// The first waiting participant becomes the current ticket and is told so.
pub open spec fn spec_promote(q: QueueView) -> Outcome {
    match q.next_waiting() {
        Some(next) => Outcome {
            queue: q.advance_current(),
            actions: seq![send(next, Notice::Accepted, false)],
        },
        None => unchanged(q),
    }
}

/// What a staff command leads to.
///
/// `Accept` promotes the first waiting participant if no ticket is current,
/// and does nothing otherwise. `Next` closes the current ticket, if any, and
/// promotes. `Reject` takes the current ticket out of the store and tells the
/// participant; `Done` takes it out silently. `Queue` sends the requester
/// the listing of those waiting.
pub open spec fn spec_admin(q: QueueView, requester: i64, command: AdminCommand) -> Outcome {
    match command {
        AdminCommand::Accept => match q.current {
            Some(_) => unchanged(q),
            None => spec_promote(q),
        },
        AdminCommand::Next => match q.current {
            Some(c) => spec_promote(q.remove(c)),
            None => spec_promote(q),
        },
        AdminCommand::Reject => match q.current {
            Some(c) => Outcome {
                queue: q.remove(c),
                actions: seq![send(c, Notice::Rejected, false)],
            },
            None => unchanged(q),
        },
        AdminCommand::Done => match q.current {
            Some(c) => unchanged(q.remove(c)),
            None => unchanged(q),
        },
        AdminCommand::Queue => Outcome {
            queue: q,
            actions: seq![ActionView::SendListing { to: requester, entries: q.listing() }],
        },
    }
}

/// What a message body that may be a staff command leads to; a body that
/// is no command leads to nothing.
pub open spec fn spec_admin_text(q: QueueView, requester: i64, text: Seq<char>) -> Outcome {
    match spec_parse_command(text) {
        Some(command) => spec_admin(q, requester, command),
        None => unchanged(q),
    }
}

/// What one inbound message leads to. The sender gets a session if new,
/// and its last contact is `now`. A text whose whole body is a command
/// token goes to the staff commands and leaves the sender's transcript as
/// it was; any other text is recorded and goes to the sender's dialogue; a
/// message without text leads to nothing more.
pub open spec fn spec_message(
    q: QueueView,
    from: i64,
    reference: MessageRef,
    text: Option<Seq<char>>,
    now: u64,
) -> Outcome {
    match text {
        Some(t) => match spec_parse_command(t) {
            Some(command) => spec_admin(spec_touch(q, from, now), from, command),
            None => spec_text(spec_observe(q, from, reference, now), from, t),
        },
        None => unchanged(spec_touch(q, from, now)),
    }
}

/// What one update leads to.
pub open spec fn spec_update(q: QueueView, update: Update, now: u64) -> Outcome {
    match update.kind {
        UpdateKind::Message(m) => spec_message(q, m.from, m.reference(), m.text(), now),
        UpdateKind::Other => unchanged(q),
    }
}

/// The bot: the staff chat it reports to and the queue store.
pub struct Artemis {
    arena_chat: i64,
    queue: Queue,
}

impl View for Artemis {
    type V = QueueView;

    closed spec fn view(&self) -> QueueView {
        self.queue@
    }
}

impl Artemis {
    /// Whether the store's invariant holds.
    pub open spec fn wf(&self) -> bool {
        self@.wf()
    }

    /// The staff chat, as a spec value.
    pub closed spec fn spec_arena_chat(&self) -> i64 {
        self.arena_chat
    }

    /// A bot with an empty store.
    pub fn new(arena_chat_id: i64) -> (r: Artemis)
        ensures
            r.wf(),
            r@ == QueueView::empty(),
            r.spec_arena_chat() == arena_chat_id,
    {
        Artemis { arena_chat: arena_chat_id, queue: Queue::new() }
    }

    /// The identifier of the staff chat.
    pub fn arena_chat(&self) -> (r: i64)
        ensures
            r == self.spec_arena_chat(),
    {
        self.arena_chat
    }

    /// The queue store.
    pub fn queue(&self) -> (r: &Queue)
        ensures
            r@ == self@,
    {
        &self.queue
    }

    /// Handles one update of the inbound stream, seen at time `now`.
    pub fn handle_update(&mut self, update: Update, now: u64) -> (actions: Vec<Action>)
        requires
            old(self).wf(),
        ensures
            final(self).wf(),
            final(self).spec_arena_chat() == old(self).spec_arena_chat(),
            final(self)@ == spec_update(old(self)@, update, now).queue,
            actions_view(actions@) == spec_update(old(self)@, update, now).actions,
    {
        match update.kind {
            UpdateKind::Message(message) => self.handle_update_message(message, now),
            UpdateKind::Other => {
                let actions: Vec<Action> = Vec::new();
                assert(actions_view(actions@) =~= Seq::empty());
                actions
            },
        }
    }

    /// Handles one inbound message: notes the contact, then routes its text.
    pub fn handle_update_message(&mut self, message: Message, now: u64) -> (actions: Vec<Action>)
        requires
            old(self).wf(),
        ensures
            final(self).wf(),
            final(self).spec_arena_chat() == old(self).spec_arena_chat(),
            final(self)@ == spec_message(
                old(self)@,
                message.from,
                message.reference(),
                message.text(),
                now,
            ).queue,
            actions_view(actions@) == spec_message(
                old(self)@,
                message.from,
                message.reference(),
                message.text(),
                now,
            ).actions,
    {
        match &message.kind {
            MessageKind::Text { data } => {
                match parse_command(data.as_str()) {
                    Some(_) => {
                        self.touch(message.from, now);
                        self.handle_admin_ticket_command(data.clone(), &message)
                    },
                    None => {
                        self.observe(
                            message.from,
                            MessageRef { chat_id: message.chat, message_id: message.id },
                            now,
                        );
                        self.handle_update_message_text(data.clone(), &message)
                    },
                }
            },
            _ => {
                self.touch(message.from, now);
                let actions: Vec<Action> = Vec::new();
                assert(actions_view(actions@) =~= Seq::empty());
                actions
            },
        }
    }

    /// Notes that `from` was heard from at `now`.
    pub fn touch(&mut self, from: i64, now: u64)
        requires
            old(self).wf(),
        ensures
            final(self).wf(),
            final(self).spec_arena_chat() == old(self).spec_arena_chat(),
            final(self)@ == spec_touch(old(self)@, from, now),
    {
        let user = self.queue.user(from, now);
        user.last_contact = now;
    }

    /// Notes that `from` was heard from at `now` with a message that goes
    /// to the dialogue, and records the message while `from` is onboarding.
    pub fn observe(&mut self, from: i64, reference: MessageRef, now: u64)
        requires
            old(self).wf(),
        ensures
            final(self).wf(),
            final(self).spec_arena_chat() == old(self).spec_arena_chat(),
            final(self)@ == spec_observe(old(self)@, from, reference, now),
    {
        let user = self.queue.user(from, now);
        user.last_contact = now;
        match user.state {
            UserQueueState::InQueue => {},
            _ => {
                user.messages.push(reference);
            },
        }
    }

    /// Records a message that the transport reports as sent to `to`.
    pub fn record_sent(&mut self, to: i64, sent: MessageRef)
        requires
            old(self).wf(),
        ensures
            final(self).wf(),
            final(self).spec_arena_chat() == old(self).spec_arena_chat(),
            final(self)@ == spec_record_sent(old(self)@, to, sent),
    {
        let onboarding = match self.queue.session(to) {
            Some(u) => match u.state {
                UserQueueState::InQueue => false,
                _ => true,
            },
            None => false,
        };
        if onboarding {
            let ghost q0 = self.queue@;
            match self.queue.take_session(to) {
                Some(mut user) => {
                    user.messages.push(sent);
                    let ghost v = user@;
                    self.queue.put_session(user);
                    proof {
                        assert(self.queue@.sessions =~= q0.sessions.insert(to, v));
                        lemma_with_session_wf(q0, to, v);
                    }
                },
                None => {
                    assert(false);
                },
            }
        }
    }

    /// Carries out the staff command that `data` stands for, on behalf of
    /// the sender of `message`.
    pub fn handle_admin_ticket_command(
        &mut self,
        data: String,
        message: &Message,
    ) -> (actions: Vec<Action>)
        requires
            old(self).wf(),
        ensures
            final(self).wf(),
            final(self).spec_arena_chat() == old(self).spec_arena_chat(),
            final(self)@ == spec_admin_text(old(self)@, message.from, data@).queue,
            actions_view(actions@) == spec_admin_text(old(self)@, message.from, data@).actions,
    {
        let mut actions: Vec<Action> = Vec::new();
        assert(actions_view(actions@) =~= Seq::empty());
        match parse_command(data.as_str()) {
            Some(AdminCommand::Accept) => {
                match self.queue.current() {
                    Some(_) => {},
                    None => {
                        self.promote(&mut actions);
                    },
                }
            },
            Some(AdminCommand::Next) => {
                match self.queue.current() {
                    Some(c) => {
                        self.queue.remove(c);
                    },
                    None => {},
                }
                self.promote(&mut actions);
            },
            Some(AdminCommand::Reject) => {
                match self.queue.current() {
                    Some(c) => {
                        self.queue.remove(c);
                        actions.push(
                            Action::SendMessage { to: c, notice: Notice::Rejected, track: false },
                        );
                        assert(actions_view(actions@) =~= seq![
                            send(c, Notice::Rejected, false),
                        ]);
                    },
                    None => {},
                }
            },
            Some(AdminCommand::Done) => {
                match self.queue.current() {
                    Some(c) => {
                        self.queue.remove(c);
                    },
                    None => {},
                }
            },
            Some(AdminCommand::Queue) => {
                let entries = self.queue.listing();
                actions.push(Action::SendListing { to: message.from, entries });
                assert(actions_view(actions@) =~= seq![
                    ActionView::SendListing { to: message.from, entries: self@.listing() },
                ]);
            },
            None => {},
        }
        actions
    }

    /// Makes the first waiting participant the current ticket and adds the
    /// notice for them to `actions`.
    fn promote(&mut self, actions: &mut Vec<Action>)
        requires
            old(self).wf(),
            old(actions)@.len() == 0,
        ensures
            final(self).wf(),
            final(self).spec_arena_chat() == old(self).spec_arena_chat(),
            final(self)@ == spec_promote(old(self)@).queue,
            actions_view(final(actions)@) == spec_promote(old(self)@).actions,
    {
        match self.queue.advance_current() {
            Some(next) => {
                actions.push(Action::SendMessage { to: next, notice: Notice::Accepted, track: false });
                assert(actions_view(actions@) =~= seq![send(next, Notice::Accepted, false)]);
            },
            None => {
                assert(actions_view(actions@) =~= Seq::empty());
            },
        }
    }

    /// Advances the dialogue of the sender of `message` by the text `data`.
    pub fn handle_update_message_text(
        &mut self,
        data: String,
        message: &Message,
    ) -> (actions: Vec<Action>)
        requires
            old(self).wf(),
        ensures
            final(self).wf(),
            final(self).spec_arena_chat() == old(self).spec_arena_chat(),
            final(self)@ == spec_text(old(self)@, message.from, data@).queue,
            actions_view(actions@) == spec_text(old(self)@, message.from, data@).actions,
    {
        let state = match self.queue.session(message.from) {
            Some(u) => Some(u.state),
            None => None,
        };
        match state {
            Some(UserQueueState::OnboardInitial) => self.handle_user_state_onboard_initial(
                message,
            ),
            Some(UserQueueState::OnboardInquiryReason) => {
                self.handle_user_state_onboard_inquiry_reason(message, data)
            },
            Some(UserQueueState::OnboardPersonalMessage) => {
                self.handle_user_state_onboard_personal_message(message, data)
            },
            _ => {
                let actions: Vec<Action> = Vec::new();
                assert(actions_view(actions@) =~= Seq::empty());
                actions
            },
        }
    }

    /// First step of the dialogue. Does nothing unless the sender is at it.
    pub fn handle_user_state_onboard_initial(&mut self, message: &Message) -> (actions: Vec<Action>)
        requires
            old(self).wf(),
        ensures
            final(self).wf(),
            final(self).spec_arena_chat() == old(self).spec_arena_chat(),
            final(self)@ == spec_onboard_initial(old(self)@, message.from).queue,
            actions_view(actions@) == spec_onboard_initial(old(self)@, message.from).actions,
    {
        let from = message.from;
        let mut actions: Vec<Action> = Vec::new();
        assert(actions_view(actions@) =~= Seq::empty());
        let at_step = match self.queue.session(from) {
            Some(u) => match u.state {
                UserQueueState::OnboardInitial => true,
                _ => false,
            },
            None => false,
        };
        if at_step {
            let ghost q0 = self.queue@;
            match self.queue.take_session(from) {
                Some(mut user) => {
                    user.state = UserQueueState::OnboardInquiryReason;
                    let ghost v = user@;
                    self.queue.put_session(user);
                    proof {
                        assert(self.queue@.sessions =~= q0.sessions.insert(from, v));
                        lemma_with_session_wf(q0, from, v);
                    }
                    actions.push(
                        Action::SendMessage { to: from, notice: Notice::CategoryPrompt, track: true },
                    );
                    assert(actions_view(actions@) =~= seq![
                        send(from, Notice::CategoryPrompt, true),
                    ]);
                },
                None => {
                    assert(false);
                },
            }
        }
        actions
    }

    /// Second step of the dialogue. Does nothing unless the sender is at it.
    pub fn handle_user_state_onboard_inquiry_reason(
        &mut self,
        message: &Message,
        data: String,
    ) -> (actions: Vec<Action>)
        requires
            old(self).wf(),
        ensures
            final(self).wf(),
            final(self).spec_arena_chat() == old(self).spec_arena_chat(),
            final(self)@ == spec_onboard_inquiry_reason(old(self)@, message.from, data@).queue,
            actions_view(actions@) == spec_onboard_inquiry_reason(
                old(self)@,
                message.from,
                data@,
            ).actions,
    {
        let from = message.from;
        let mut actions: Vec<Action> = Vec::new();
        assert(actions_view(actions@) =~= Seq::empty());
        let at_step = match self.queue.session(from) {
            Some(u) => match u.state {
                UserQueueState::OnboardInquiryReason => true,
                _ => false,
            },
            None => false,
        };
        if at_step {
            let ghost q0 = self.queue@;
            match self.queue.take_session(from) {
                Some(mut user) => {
                    user.inquiry.reason = classify_reason(data);
                    user.state = UserQueueState::OnboardPersonalMessage;
                    let ghost v = user@;
                    self.queue.put_session(user);
                    proof {
                        assert(self.queue@.sessions =~= q0.sessions.insert(from, v));
                        lemma_with_session_wf(q0, from, v);
                    }
                    actions.push(
                        Action::SendMessage { to: from, notice: Notice::SummaryPrompt, track: true },
                    );
                    assert(actions_view(actions@) =~= seq![
                        send(from, Notice::SummaryPrompt, true),
                    ]);
                },
                None => {
                    assert(false);
                },
            }
        }
        actions
    }

    /// Third step of the dialogue. Does nothing unless the sender is at it.
    pub fn handle_user_state_onboard_personal_message(
        &mut self,
        message: &Message,
        data: String,
    ) -> (actions: Vec<Action>)
        requires
            old(self).wf(),
        ensures
            final(self).wf(),
            final(self).spec_arena_chat() == old(self).spec_arena_chat(),
            final(self)@ == spec_onboard_personal_message(old(self)@, message.from, data@).queue,
            actions_view(actions@) == spec_onboard_personal_message(
                old(self)@,
                message.from,
                data@,
            ).actions,
    {
        let from = message.from;
        let mut actions: Vec<Action> = Vec::new();
        assert(actions_view(actions@) =~= Seq::empty());
        let at_step = match self.queue.session(from) {
            Some(u) => match u.state {
                UserQueueState::OnboardPersonalMessage => true,
                _ => false,
            },
            None => false,
        };
        if at_step {
            let ghost q0 = self.queue@;
            match self.queue.take_session(from) {
                Some(mut user) => {
                    user.inquiry.personal_message = Some(data);
                    user.state = UserQueueState::InQueue;
                    let ghost transcript = user.messages@;
                    let mut i: usize = 0;
                    while i < user.messages.len()
                        invariant
                            i <= user.messages.len(),
                            user.messages@ == transcript,
                            actions@.len() == i,
                            forall|k: int|
                                0 <= k < i ==> (#[trigger] actions@[k])@ == (
                                    ActionView::DeleteMessage { message: transcript[k] }),
                        decreases user.messages.len() - i,
                    {
                        actions.push(Action::DeleteMessage { message: user.messages[i] });
                        i += 1;
                    }
                    actions.push(Action::Pause { seconds: PURGE_PAUSE_SECONDS });
                    actions.push(
                        Action::SendMessage { to: from, notice: Notice::Queued, track: false },
                    );
                    user.messages = Vec::new();
                    let ghost v = user@;
                    self.queue.put_session(user);
                    proof {
                        assert(self.queue@.sessions =~= q0.sessions.insert(from, v));
                        lemma_with_session_wf(q0, from, v);
                        assert(actions_view(actions@) =~= delete_requests(transcript).push(
                            ActionView::Pause { seconds: PURGE_PAUSE_SECONDS },
                        ).push(send(from, Notice::Queued, false)));
                    }
                },
                None => {
                    assert(false);
                },
            }
        }
        actions
    }
}

} // verus!
