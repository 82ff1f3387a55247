use artemis::bot::Artemis;
use artemis::bot::PURGE_PAUSE_SECONDS;
use artemis::model::Action;
use artemis::model::Message;
use artemis::model::MessageKind;
use artemis::model::MessageRef;
use artemis::model::Notice;
use artemis::model::QueueEntry;
use artemis::model::Update;
use artemis::model::UpdateKind;
use artemis::model::User;
use artemis::model::UserInquiryReason;
use artemis::model::UserQueueState;

fn text(id: i64, from: i64, body: &str) -> Update {
    Update {
        id,
        kind: UpdateKind::Message(Message {
            id,
            chat: from,
            from,
            kind: MessageKind::Text { data: body.to_string() },
        }),
    }
}

fn plain(id: i64, from: i64, body: &str) -> Message {
    Message { id, chat: from, from, kind: MessageKind::Text { data: body.to_string() } }
}

fn send(to: i64, notice: Notice, track: bool) -> Action {
    Action::SendMessage { to, notice, track }
}

fn state(bot: &Artemis, id: i64) -> UserQueueState {
    bot.queue().session(id).unwrap().state
}

fn onboard(bot: &mut Artemis, from: i64, first_id: i64, reason: &str, summary: &str) {
    bot.handle_update(text(first_id, from, "hello"), 10);
    bot.handle_update(text(first_id + 1, from, reason), 11);
    bot.handle_update(text(first_id + 2, from, summary), 12);
}

#[test]
fn a_new_bot_knows_its_staff_chat() {
    let bot = Artemis::new(-1001234);
    assert_eq!(bot.arena_chat(), -1001234);
    assert!(bot.queue().order().is_empty());
    assert_eq!(bot.queue().current(), None);
}

#[test]
fn dialogue_runs_from_first_message_to_queue() {
    let mut bot = Artemis::new(1);
    let a1 = bot.handle_update(text(100, 7, "hi"), 50);
    assert_eq!(a1, vec![send(7, Notice::CategoryPrompt, true)]);
    assert_eq!(state(&bot, 7), UserQueueState::OnboardInquiryReason);
    bot.record_sent(7, MessageRef { chat_id: 7, message_id: 101 });

    let a2 = bot.handle_update(text(102, 7, "technical"), 51);
    assert_eq!(a2, vec![send(7, Notice::SummaryPrompt, true)]);
    assert_eq!(state(&bot, 7), UserQueueState::OnboardPersonalMessage);
    assert_eq!(bot.queue().session(7).unwrap().inquiry.reason, UserInquiryReason::Technical);
    bot.record_sent(7, MessageRef { chat_id: 7, message_id: 103 });

    let a3 = bot.handle_update(text(104, 7, "site is down"), 52);
    let session = bot.queue().session(7).unwrap();
    assert_eq!(session.state, UserQueueState::InQueue);
    assert_eq!(session.inquiry.personal_message, Some("site is down".to_string()));
    assert_eq!(session.inquiry.reason, UserInquiryReason::Technical);
    assert!(session.messages.is_empty());
    assert_eq!(session.last_contact, 52);
    let confirmations =
        a3.iter().filter(|a| **a == send(7, Notice::Queued, false)).count();
    assert_eq!(confirmations, 1);
    assert_eq!(a3.last(), Some(&send(7, Notice::Queued, false)));
}

#[test]
fn entering_the_queue_purges_the_transcript() {
    let mut bot = Artemis::new(1);
    bot.handle_update(text(100, 7, "hi"), 50);
    bot.record_sent(7, MessageRef { chat_id: 7, message_id: 101 });
    bot.handle_update(text(102, 7, "press & journalists"), 51);
    bot.record_sent(7, MessageRef { chat_id: 7, message_id: 103 });
    assert_eq!(
        bot.queue().session(7).unwrap().messages,
        vec![
            MessageRef { chat_id: 7, message_id: 100 },
            MessageRef { chat_id: 7, message_id: 101 },
            MessageRef { chat_id: 7, message_id: 102 },
            MessageRef { chat_id: 7, message_id: 103 },
        ]
    );
    let actions = bot.handle_update(text(104, 7, "interview request"), 52);
    assert_eq!(
        actions,
        vec![
            Action::DeleteMessage { message: MessageRef { chat_id: 7, message_id: 100 } },
            Action::DeleteMessage { message: MessageRef { chat_id: 7, message_id: 101 } },
            Action::DeleteMessage { message: MessageRef { chat_id: 7, message_id: 102 } },
            Action::DeleteMessage { message: MessageRef { chat_id: 7, message_id: 103 } },
            Action::DeleteMessage { message: MessageRef { chat_id: 7, message_id: 104 } },
            Action::Pause { seconds: 2 },
            send(7, Notice::Queued, false),
        ]
    );
    assert_eq!(PURGE_PAUSE_SECONDS, 2);
    assert!(bot.queue().session(7).unwrap().messages.is_empty());
}

#[test]
fn a_failed_send_leaves_the_transcript_without_it() {
    let mut bot = Artemis::new(1);
    bot.handle_update(text(100, 7, "hi"), 50);
    bot.handle_update(text(102, 7, "whatever"), 51);
    let actions = bot.handle_update(text(104, 7, "help"), 52);
    assert_eq!(actions.len(), 5);
    assert_eq!(
        bot.queue().session(7).unwrap().inquiry.reason,
        UserInquiryReason::Custom("whatever".to_string())
    );
}

#[test]
fn a_command_as_first_message_leaves_the_sender_at_the_start() {
    let mut bot = Artemis::new(1);
    let actions = bot.handle_update(text(1, 9, "+accept"), 5);
    assert!(actions.is_empty());
    assert_eq!(state(&bot, 9), UserQueueState::OnboardInitial);
    assert_eq!(bot.queue().order(), &vec![9]);
    assert_eq!(bot.queue().current(), None);
    assert_eq!(bot.queue().session(9).unwrap().inquiry.reason, UserInquiryReason::Unknown);
    assert!(bot.queue().session(9).unwrap().messages.is_empty());
    assert_eq!(bot.queue().session(9), Some(&User::initial(9, 5)));
}

#[test]
fn a_command_serves_those_who_wait_not_its_sender() {
    let mut bot = Artemis::new(1);
    onboard(&mut bot, 5, 10, "emergency", "now");
    let actions = bot.handle_update(text(1, 9, "+accept"), 20);
    assert_eq!(actions, vec![send(5, Notice::Accepted, false)]);
    assert_eq!(bot.queue().current(), Some(5));
    assert_eq!(state(&bot, 9), UserQueueState::OnboardInitial);
}

#[test]
fn accept_done_accept_serves_in_order_of_arrival() {
    let mut bot = Artemis::new(1);
    onboard(&mut bot, 1, 10, "technical", "a");
    onboard(&mut bot, 2, 20, "content & substances", "b");
    assert_eq!(state(&bot, 1), UserQueueState::InQueue);
    assert_eq!(state(&bot, 2), UserQueueState::InQueue);

    let a = bot.handle_update(text(30, 99, "+accept"), 30);
    assert_eq!(a, vec![send(1, Notice::Accepted, false)]);
    assert_eq!(bot.queue().current(), Some(1));
    assert_eq!(bot.queue().order(), &vec![1, 2, 99]);

    let d = bot.handle_update(text(31, 99, "+done"), 31);
    assert!(d.is_empty());
    assert_eq!(bot.queue().current(), None);
    assert_eq!(bot.queue().order(), &vec![2, 99]);
    assert!(bot.queue().session(1).is_none());

    let b = bot.handle_update(text(32, 99, "+accept"), 32);
    assert_eq!(b, vec![send(2, Notice::Accepted, false)]);
    assert_eq!(bot.queue().current(), Some(2));
}

#[test]
fn queue_lists_those_who_wait_in_order() {
    let mut bot = Artemis::new(1);
    onboard(&mut bot, 1, 10, "technical", "a");
    onboard(&mut bot, 2, 20, "my own reason", "b");
    bot.handle_update(text(25, 3, "still onboarding"), 25);
    let actions = bot.handle_update(text(30, 99, "+queue"), 30);
    assert_eq!(
        actions,
        vec![Action::SendListing {
            to: 99,
            entries: vec![
                QueueEntry { user_id: 1, reason: UserInquiryReason::Technical },
                QueueEntry {
                    user_id: 2,
                    reason: UserInquiryReason::Custom("my own reason".to_string())
                },
            ],
        }]
    );
    assert_eq!(bot.queue().order(), &vec![1, 2, 3, 99]);
    assert_eq!(bot.queue().current(), None);
    assert_eq!(bot.queue().waiting(), vec![1, 2]);
}

#[test]
fn the_current_ticket_is_not_listed_as_waiting() {
    let mut bot = Artemis::new(1);
    onboard(&mut bot, 1, 10, "technical", "a");
    onboard(&mut bot, 2, 20, "events & invitations", "b");
    bot.handle_update(text(30, 99, "+accept"), 30);
    assert_eq!(bot.queue().waiting(), vec![2]);
    assert_eq!(
        bot.queue().listing(),
        vec![QueueEntry { user_id: 2, reason: UserInquiryReason::Events }]
    );
}

#[test]
fn accept_changes_nothing_while_a_ticket_is_current() {
    let mut bot = Artemis::new(1);
    onboard(&mut bot, 1, 10, "technical", "a");
    onboard(&mut bot, 2, 20, "technical", "b");
    bot.handle_update(text(30, 99, "+accept"), 30);
    let again = bot.handle_update(text(31, 99, "+accept"), 31);
    assert!(again.is_empty());
    assert_eq!(bot.queue().current(), Some(1));
    assert_eq!(bot.queue().order(), &vec![1, 2, 99]);
}

#[test]
fn next_closes_the_current_ticket_and_promotes() {
    let mut bot = Artemis::new(1);
    onboard(&mut bot, 1, 10, "technical", "a");
    onboard(&mut bot, 2, 20, "technical", "b");
    let first = bot.handle_update(text(30, 99, "+next"), 30);
    assert_eq!(first, vec![send(1, Notice::Accepted, false)]);
    assert_eq!(bot.queue().current(), Some(1));
    let second = bot.handle_update(text(31, 99, "+next"), 31);
    assert_eq!(second, vec![send(2, Notice::Accepted, false)]);
    assert_eq!(bot.queue().current(), Some(2));
    assert_eq!(bot.queue().order(), &vec![2, 99]);
    let third = bot.handle_update(text(32, 99, "+next"), 32);
    assert!(third.is_empty());
    assert_eq!(bot.queue().current(), None);
    assert_eq!(bot.queue().order(), &vec![99]);
}

#[test]
fn reject_removes_the_current_ticket_and_tells_the_participant() {
    let mut bot = Artemis::new(1);
    onboard(&mut bot, 1, 10, "technical", "a");
    bot.handle_update(text(30, 99, "+accept"), 30);
    let actions = bot.handle_update(text(31, 99, "+reject"), 31);
    assert_eq!(actions, vec![send(1, Notice::Rejected, false)]);
    assert_eq!(bot.queue().current(), None);
    assert!(bot.queue().session(1).is_none());
    assert_eq!(bot.queue().order(), &vec![99]);
}

#[test]
fn reject_and_done_without_a_current_ticket_change_nothing() {
    let mut bot = Artemis::new(1);
    onboard(&mut bot, 1, 10, "technical", "a");
    assert!(bot.handle_update(text(30, 99, "+reject"), 30).is_empty());
    assert!(bot.handle_update(text(31, 99, "+done"), 31).is_empty());
    assert_eq!(bot.queue().order(), &vec![1, 99]);
    assert_eq!(state(&bot, 1), UserQueueState::InQueue);
}

#[test]
fn text_from_a_queued_participant_is_left_alone() {
    let mut bot = Artemis::new(1);
    onboard(&mut bot, 1, 10, "technical", "a");
    let actions = bot.handle_update(text(40, 1, "any news?"), 40);
    assert!(actions.is_empty());
    let session = bot.queue().session(1).unwrap();
    assert_eq!(session.state, UserQueueState::InQueue);
    assert!(session.messages.is_empty());
    assert_eq!(session.inquiry.personal_message, Some("a".to_string()));
    assert_eq!(session.last_contact, 40);
}

#[test]
fn a_command_from_an_onboarding_participant_does_not_advance_them() {
    let mut bot = Artemis::new(1);
    bot.handle_update(text(1, 4, "hi"), 1);
    bot.handle_update(text(2, 4, "+queue"), 2);
    assert_eq!(state(&bot, 4), UserQueueState::OnboardInquiryReason);
    assert_eq!(
        bot.queue().session(4).unwrap().messages,
        vec![MessageRef { chat_id: 4, message_id: 1 }]
    );
    assert_eq!(bot.queue().session(4).unwrap().last_contact, 2);
    bot.handle_update(text(3, 4, "+queue "), 3);
    assert_eq!(state(&bot, 4), UserQueueState::OnboardPersonalMessage);
    assert_eq!(
        bot.queue().session(4).unwrap().messages,
        vec![
            MessageRef { chat_id: 4, message_id: 1 },
            MessageRef { chat_id: 4, message_id: 3 }
        ]
    );
    assert_eq!(
        bot.queue().session(4).unwrap().inquiry.reason,
        UserInquiryReason::Custom("+queue ".to_string())
    );
}

#[test]
fn messages_without_text_only_note_the_contact() {
    let mut bot = Artemis::new(1);
    let joined = Update {
        id: 1,
        kind: UpdateKind::Message(Message {
            id: 1,
            chat: 50,
            from: 6,
            kind: MessageKind::Membership { participants: vec![6, 8] },
        }),
    };
    assert!(bot.handle_update(joined, 9).is_empty());
    assert_eq!(bot.queue().session(6), Some(&User::initial(6, 9)));
    let other = Message { id: 2, chat: 50, from: 6, kind: MessageKind::Other };
    assert!(bot.handle_update_message(other, 10).is_empty());
    let session = bot.queue().session(6).unwrap();
    assert_eq!(session.state, UserQueueState::OnboardInitial);
    assert_eq!(session.last_contact, 10);
    assert!(session.messages.is_empty());
    assert_eq!(bot.queue().order(), &vec![6]);
    assert!(bot.queue().session(8).is_none());
}

#[test]
fn touch_notes_the_contact_and_observe_records_the_message() {
    let mut bot = Artemis::new(1);
    bot.touch(3, 4);
    assert_eq!(bot.queue().session(3), Some(&User::initial(3, 4)));
    bot.touch(3, 6);
    assert_eq!(bot.queue().session(3).unwrap().last_contact, 6);
    assert!(bot.queue().session(3).unwrap().messages.is_empty());
    bot.observe(3, MessageRef { chat_id: 3, message_id: 11 }, 8);
    let session = bot.queue().session(3).unwrap();
    assert_eq!(session.last_contact, 8);
    assert_eq!(session.messages, vec![MessageRef { chat_id: 3, message_id: 11 }]);
    assert_eq!(bot.queue().order(), &vec![3]);
}

#[test]
fn a_command_leaves_the_transcript_of_a_queued_or_onboarding_sender() {
    let mut bot = Artemis::new(1);
    bot.handle_update(text(1, 4, "hi"), 1);
    for (i, token) in ["+accept", "+reject", "+done", "+next", "+queue"].iter().enumerate() {
        bot.handle_update(text(10 + i as i64, 4, token), 2);
        assert_eq!(
            bot.queue().session(4).unwrap().messages,
            vec![MessageRef { chat_id: 4, message_id: 1 }]
        );
        assert_eq!(state(&bot, 4), UserQueueState::OnboardInquiryReason);
    }
}

#[test]
fn other_updates_change_nothing() {
    let mut bot = Artemis::new(1);
    assert!(bot.handle_update(Update { id: 1, kind: UpdateKind::Other }, 1).is_empty());
    assert!(bot.queue().order().is_empty());
}

#[test]
fn a_step_handler_does_nothing_for_a_sender_at_another_step() {
    let mut bot = Artemis::new(1);
    bot.observe(3, MessageRef { chat_id: 3, message_id: 1 }, 1);
    let m = plain(1, 3, "x");
    assert!(bot.handle_user_state_onboard_inquiry_reason(&m, "x".to_string()).is_empty());
    assert!(bot.handle_user_state_onboard_personal_message(&m, "x".to_string()).is_empty());
    assert_eq!(state(&bot, 3), UserQueueState::OnboardInitial);
    assert_eq!(
        bot.handle_user_state_onboard_initial(&m),
        vec![send(3, Notice::CategoryPrompt, true)]
    );
    assert!(bot.handle_user_state_onboard_initial(&m).is_empty());
    assert_eq!(state(&bot, 3), UserQueueState::OnboardInquiryReason);
    let unknown = plain(2, 77, "x");
    assert!(bot.handle_user_state_onboard_initial(&unknown).is_empty());
    assert!(bot.handle_update_message_text("x".to_string(), &unknown).is_empty());
    assert!(bot.queue().session(77).is_none());
}

#[test]
fn the_command_handler_ignores_other_text() {
    let mut bot = Artemis::new(1);
    onboard(&mut bot, 1, 10, "technical", "a");
    let m = plain(50, 99, "+accept now");
    assert!(bot.handle_admin_ticket_command("+accept now".to_string(), &m).is_empty());
    assert_eq!(bot.queue().current(), None);
    let ok = bot.handle_admin_ticket_command("+accept".to_string(), &m);
    assert_eq!(ok, vec![send(1, Notice::Accepted, false)]);
    assert_eq!(bot.queue().current(), Some(1));
}

#[test]
fn sent_messages_are_recorded_only_while_onboarding() {
    let mut bot = Artemis::new(1);
    bot.record_sent(1, MessageRef { chat_id: 1, message_id: 5 });
    assert!(bot.queue().session(1).is_none());
    onboard(&mut bot, 1, 10, "technical", "a");
    bot.record_sent(1, MessageRef { chat_id: 1, message_id: 13 });
    assert!(bot.queue().session(1).unwrap().messages.is_empty());
}

#[test]
fn states_only_move_forward_one_step_per_text() {
    let mut bot = Artemis::new(1);
    let expected = [
        UserQueueState::OnboardInquiryReason,
        UserQueueState::OnboardPersonalMessage,
        UserQueueState::InQueue,
        UserQueueState::InQueue,
        UserQueueState::InQueue,
    ];
    for (i, want) in expected.iter().enumerate() {
        bot.handle_update(text(i as i64, 8, "technical"), i as u64);
        assert_eq!(state(&bot, 8), *want);
    }
}
