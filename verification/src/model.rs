//! Plain data: participants' sessions, inbound events and outbound requests.

use vstd::prelude::*;

verus! {

/// What is needed to address a delete request at one message.
#[derive(Clone, Copy, Debug, PartialEq, Eq, Structural)]
pub struct MessageRef {
    pub chat_id: i64,
    pub message_id: i64,
}

/// Where a participant stands in the onboarding dialogue.
#[derive(Clone, Copy, Debug, PartialEq, Eq, Structural)]
pub enum UserQueueState {
    OnboardInitial,
    OnboardInquiryReason,
    OnboardPersonalMessage,
    InQueue,
}

impl UserQueueState {
    /// The number of dialogue steps that lie behind this state.
    pub open spec fn rank(self) -> nat {
        match self {
            UserQueueState::OnboardInitial => 0,
            UserQueueState::OnboardInquiryReason => 1,
            UserQueueState::OnboardPersonalMessage => 2,
            UserQueueState::InQueue => 3,
        }
    }

    /// The state that one message of ordinary text leads to.
    pub open spec fn successor(self) -> UserQueueState {
        match self {
            UserQueueState::OnboardInitial => UserQueueState::OnboardInquiryReason,
            UserQueueState::OnboardInquiryReason => UserQueueState::OnboardPersonalMessage,
            UserQueueState::OnboardPersonalMessage => UserQueueState::InQueue,
            UserQueueState::InQueue => UserQueueState::InQueue,
        }
    }
}

/// The category of a support request.
#[derive(Clone, Debug, PartialEq, Eq)]
pub enum UserInquiryReason {
    Unknown,
    Technical,
    Content,
    Press,
    Community,
    Events,
    Emergency,
    Custom(String),
}

/// The mathematical value of a [`UserInquiryReason`].
pub enum ReasonView {
    Unknown,
    Technical,
    Content,
    Press,
    Community,
    Events,
    Emergency,
    Custom(Seq<char>),
}

impl View for UserInquiryReason {
    type V = ReasonView;

    open spec fn view(&self) -> ReasonView {
        match self {
            UserInquiryReason::Unknown => ReasonView::Unknown,
            UserInquiryReason::Technical => ReasonView::Technical,
            UserInquiryReason::Content => ReasonView::Content,
            UserInquiryReason::Press => ReasonView::Press,
            UserInquiryReason::Community => ReasonView::Community,
            UserInquiryReason::Events => ReasonView::Events,
            UserInquiryReason::Emergency => ReasonView::Emergency,
            UserInquiryReason::Custom(s) => ReasonView::Custom(s@),
        }
    }
}

impl UserInquiryReason {
    /// A second value with the same contents.
    pub fn duplicate(&self) -> (r: UserInquiryReason)
        ensures
            r@ == self@,
    {
        match self {
            UserInquiryReason::Unknown => UserInquiryReason::Unknown,
            UserInquiryReason::Technical => UserInquiryReason::Technical,
            UserInquiryReason::Content => UserInquiryReason::Content,
            UserInquiryReason::Press => UserInquiryReason::Press,
            UserInquiryReason::Community => UserInquiryReason::Community,
            UserInquiryReason::Events => UserInquiryReason::Events,
            UserInquiryReason::Emergency => UserInquiryReason::Emergency,
            UserInquiryReason::Custom(s) => UserInquiryReason::Custom(s.clone()),
        }
    }
}

/// What a participant told us during onboarding.
#[derive(Clone, Debug, PartialEq, Eq)]
pub struct UserInquiry {
    pub reason: UserInquiryReason,
    pub personal_message: Option<String>,
}

/// The mathematical value of a [`UserInquiry`].
pub struct InquiryView {
    pub reason: ReasonView,
    pub personal_message: Option<Seq<char>>,
}

impl View for UserInquiry {
    type V = InquiryView;

    open spec fn view(&self) -> InquiryView {
        InquiryView {
            reason: self.reason@,
            personal_message: match self.personal_message {
                Some(s) => Some(s@),
                None => None,
            },
        }
    }
}

/// One participant's session: the inquiry collected so far, the dialogue
/// state, and the messages exchanged during onboarding.
#[derive(Clone, Debug, PartialEq, Eq)]
pub struct User {
    pub user_id: i64,
    pub inquiry: UserInquiry,
    pub last_contact: u64,
    pub state: UserQueueState,
    pub messages: Vec<MessageRef>,
}

/// The mathematical value of a [`User`].
pub struct UserView {
    pub user_id: i64,
    pub inquiry: InquiryView,
    pub last_contact: u64,
    pub state: UserQueueState,
    pub messages: Seq<MessageRef>,
}

impl UserView {
    /// The session of a participant who has just been seen for the first time.
    pub open spec fn initial(user_id: i64, now: u64) -> UserView {
        UserView {
            user_id,
            inquiry: InquiryView { reason: ReasonView::Unknown, personal_message: None },
            last_contact: now,
            state: UserQueueState::OnboardInitial,
            messages: Seq::empty(),
        }
    }
}

impl View for User {
    type V = UserView;

    open spec fn view(&self) -> UserView {
        UserView {
            user_id: self.user_id,
            inquiry: self.inquiry@,
            last_contact: self.last_contact,
            state: self.state,
            messages: self.messages@,
        }
    }
}

impl User {
    /// A fresh session for `user_id`, first seen at `now`.
    pub fn initial(user_id: i64, now: u64) -> (r: User)
        ensures
            r@ == UserView::initial(user_id, now),
    {
        User {
            user_id,
            inquiry: UserInquiry { reason: UserInquiryReason::Unknown, personal_message: None },
            last_contact: now,
            state: UserQueueState::OnboardInitial,
            messages: Vec::new(),
        }
    }
}

/// The fixed texts that the bot sends.
#[derive(Clone, Copy, Debug, PartialEq, Eq, Structural)]
pub enum Notice {
    /// Asks for the category of the inquiry; comes with the category buttons.
    CategoryPrompt,
    /// Asks for a short summary in free text.
    SummaryPrompt,
    /// Tells the participant that they now wait in the queue.
    Queued,
    /// Tells the participant that a staff member has taken their request.
    Accepted,
    /// Tells the participant that their request was turned down.
    Rejected,
}

/// One line of the listing of waiting participants.
#[derive(Clone, Debug, PartialEq, Eq)]
pub struct QueueEntry {
    pub user_id: i64,
    pub reason: UserInquiryReason,
}

impl View for QueueEntry {
    type V = (i64, ReasonView);

    open spec fn view(&self) -> (i64, ReasonView) {
        (self.user_id, self.reason@)
    }
}

/// The mathematical value of a listing.
pub open spec fn entries_view(entries: Seq<QueueEntry>) -> Seq<(i64, ReasonView)> {
    Seq::new(entries.len(), |i: int| entries[i]@)
}

/// An outbound request that the caller is to perform, in the order given.
#[derive(Clone, Debug, PartialEq, Eq)]
pub enum Action {
    /// Send `notice` to `to`. Where `track` is set and the transport reports
    /// the sent message, the caller reports it back to be recorded.
    SendMessage { to: i64, notice: Notice, track: bool },
    /// Send the listing of waiting participants to `to`.
    SendListing { to: i64, entries: Vec<QueueEntry> },
    /// Ask the transport to delete a message; a failure is of no concern.
    DeleteMessage { message: MessageRef },
    /// Suspend for this many seconds before the next request.
    Pause { seconds: u64 },
}

/// The mathematical value of an [`Action`].
pub enum ActionView {
    SendMessage { to: i64, notice: Notice, track: bool },
    SendListing { to: i64, entries: Seq<(i64, ReasonView)> },
    DeleteMessage { message: MessageRef },
    Pause { seconds: u64 },
}

impl View for Action {
    type V = ActionView;

    open spec fn view(&self) -> ActionView {
        match self {
            Action::SendMessage { to, notice, track } => ActionView::SendMessage {
                to: *to,
                notice: *notice,
                track: *track,
            },
            Action::SendListing { to, entries } => ActionView::SendListing {
                to: *to,
                entries: entries_view(entries@),
            },
            Action::DeleteMessage { message } => ActionView::DeleteMessage { message: *message },
            Action::Pause { seconds } => ActionView::Pause { seconds: *seconds },
        }
    }
}

/// The mathematical value of a list of actions.
pub open spec fn actions_view(actions: Seq<Action>) -> Seq<ActionView> {
    Seq::new(actions.len(), |i: int| actions[i]@)
}

/// What an inbound message carries.
#[derive(Clone, Debug, PartialEq, Eq)]
pub enum MessageKind {
    /// A text message.
    Text { data: String },
    /// Participants joined or left the chat.
    Membership { participants: Vec<i64> },
    /// Anything else.
    Other,
}

/// One inbound message.
#[derive(Clone, Debug, PartialEq, Eq)]
pub struct Message {
    pub id: i64,
    pub chat: i64,
    pub from: i64,
    pub kind: MessageKind,
}

impl Message {
    /// The reference by which this message can be deleted later.
    pub open spec fn reference(&self) -> MessageRef {
        MessageRef { chat_id: self.chat, message_id: self.id }
    }

    /// The text of this message, if it is a text message.
    pub open spec fn text(&self) -> Option<Seq<char>> {
        match self.kind {
            MessageKind::Text { data } => Some(data@),
            _ => None,
        }
    }
}

/// What an update from the transport is about.
#[derive(Clone, Debug, PartialEq, Eq)]
pub enum UpdateKind {
    Message(Message),
    Other,
}

/// One event of the inbound stream.
#[derive(Clone, Debug, PartialEq, Eq)]
pub struct Update {
    pub id: i64,
    pub kind: UpdateKind,
}

} // verus!
