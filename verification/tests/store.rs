use artemis::model::MessageRef;
use artemis::model::User;
use artemis::model::UserInquiryReason;
use artemis::model::UserQueueState;
use artemis::queue::Queue;

#[test]
fn a_new_store_is_empty() {
    let q = Queue::new();
    assert!(q.order().is_empty());
    assert_eq!(q.current(), None);
    assert!(q.session(1).is_none());
    assert_eq!(q.user_pos(1), None);
    assert!(q.waiting().is_empty());
    assert!(q.listing().is_empty());
}

#[test]
fn an_initial_session_is_blank() {
    let u = User::initial(42, 1000);
    assert_eq!(u.user_id, 42);
    assert_eq!(u.inquiry.reason, UserInquiryReason::Unknown);
    assert_eq!(u.inquiry.personal_message, None);
    assert_eq!(u.last_contact, 1000);
    assert_eq!(u.state, UserQueueState::OnboardInitial);
    assert!(u.messages.is_empty());
}

#[test]
fn lookup_creates_at_the_tail() {
    let mut q = Queue::new();
    assert_eq!(*q.user(10, 1), User::initial(10, 1));
    assert_eq!(*q.user(20, 2), User::initial(20, 2));
    assert_eq!(*q.user(-5, 3), User::initial(-5, 3));
    assert_eq!(q.order(), &vec![10, 20, -5]);
    assert_eq!(q.user_pos(10), Some(0));
    assert_eq!(q.user_pos(20), Some(1));
    assert_eq!(q.user_pos(-5), Some(2));
    assert_eq!(q.user_pos(30), None);
    assert_eq!(q.session(20), Some(&User::initial(20, 2)));
}

#[test]
fn repeated_lookups_create_one_entry() {
    let mut q = Queue::new();
    q.user(7, 1);
    q.user(8, 2);
    for now in 3..50 {
        assert_eq!(q.user(7, now).user_id, 7);
    }
    assert_eq!(q.order(), &vec![7, 8]);
    assert_eq!(q.order().iter().filter(|id| **id == 7).count(), 1);
    assert_eq!(q.session(7).unwrap().last_contact, 1);
}

#[test]
fn a_later_lookup_sees_what_an_earlier_one_changed() {
    let mut q = Queue::new();
    q.user(7, 1).last_contact = 99;
    q.user(7, 2).inquiry.reason = UserInquiryReason::Press;
    let again = q.user(7, 3);
    assert_eq!(again.last_contact, 99);
    assert_eq!(again.inquiry.reason, UserInquiryReason::Press);
    assert_eq!(again.state, UserQueueState::OnboardInitial);
    assert_eq!(q.order(), &vec![7]);
    assert_eq!(q.session(7).unwrap().last_contact, 99);
}

#[test]
fn remove_takes_the_session_out_of_order_and_map() {
    let mut q = Queue::new();
    q.user(1, 1);
    q.user(2, 1);
    q.user(3, 1);
    let removed = q.remove(2);
    assert_eq!(removed, Some(User::initial(2, 1)));
    assert_eq!(q.order(), &vec![1, 3]);
    assert!(q.session(2).is_none());
    assert_eq!(q.user_pos(3), Some(1));
    assert_eq!(q.remove(2), None);
    assert_eq!(q.order(), &vec![1, 3]);
}

#[test]
fn remove_of_an_unknown_participant_changes_nothing() {
    let mut q = Queue::new();
    q.user(1, 1);
    assert_eq!(q.remove(9), None);
    assert_eq!(q.order(), &vec![1]);
    assert!(q.session(1).is_some());
}

#[test]
fn nobody_is_promoted_while_nobody_waits() {
    let mut q = Queue::new();
    assert_eq!(q.advance_current(), None);
    q.user(1, 1);
    q.user(2, 1);
    assert_eq!(q.advance_current(), None);
    assert_eq!(q.current(), None);
    assert!(q.waiting().is_empty());
}

#[test]
fn a_session_changed_at_will_can_be_looked_up_again() {
    let mut q = Queue::new();
    let session = q.user(7, 1);
    session.messages.push(MessageRef { chat_id: 7, message_id: 3 });
    session.state = UserQueueState::InQueue;
    let again = q.user(7, 2);
    assert_eq!(again.state, UserQueueState::InQueue);
    assert_eq!(again.messages, vec![MessageRef { chat_id: 7, message_id: 3 }]);
    assert_eq!(again.last_contact, 1);
    assert_eq!(q.order(), &vec![7]);
    assert_eq!(q.advance_current(), Some(7));
    assert_eq!(q.current(), Some(7));
    assert!(q.remove(7).is_some());
    assert_eq!(q.current(), None);
    assert!(q.order().is_empty());
}
