use hello::limit_tracker::{quota_message, LimitTracker, Messenger};
use std::cell::RefCell;

struct MockMessenger {
    sent_messages: RefCell<Vec<String>>,
}

impl MockMessenger {
    fn new() -> MockMessenger {
        MockMessenger {
            sent_messages: RefCell::new(vec![]),
        }
    }
}

impl Messenger for MockMessenger {
    fn send(&self, message: &str) {
        self.sent_messages.borrow_mut().push(String::from(message));
    }
}

#[test]
fn it_sends_an_over_75_percent_warning_message() {
    let mock_messenger = MockMessenger::new();
    let mut limit_tracker = LimitTracker::new(&mock_messenger, 100);

    limit_tracker.set_value(80);

    assert_eq!(mock_messenger.sent_messages.borrow().len(), 1);
}

#[test]
fn each_level_has_its_message() {
    let mock_messenger = MockMessenger::new();
    let mut limit_tracker = LimitTracker::new(&mock_messenger, 100);

    limit_tracker.set_value(74);
    assert_eq!(mock_messenger.sent_messages.borrow().len(), 0);
    limit_tracker.set_value(75);
    limit_tracker.set_value(90);
    limit_tracker.set_value(100);

    assert_eq!(
        *mock_messenger.sent_messages.borrow(),
        vec![
            "Warning: You've used up over 75% of your quota!",
            "Urgent warning: You've used up over 90% of your quota!",
            "Error: You are over your quota!",
        ]
    );
}

#[test]
fn thresholds_are_exact() {
    assert_eq!(quota_message(0, 100), None);
    assert_eq!(quota_message(74, 100), None);
    assert_eq!(
        quota_message(75, 100),
        Some("Warning: You've used up over 75% of your quota!")
    );
    assert_eq!(
        quota_message(89, 100),
        Some("Warning: You've used up over 75% of your quota!")
    );
    assert_eq!(
        quota_message(90, 100),
        Some("Urgent warning: You've used up over 90% of your quota!")
    );
    assert_eq!(
        quota_message(99, 100),
        Some("Urgent warning: You've used up over 90% of your quota!")
    );
    assert_eq!(quota_message(100, 100), Some("Error: You are over your quota!"));
    assert_eq!(quota_message(usize::MAX, 1), Some("Error: You are over your quota!"));
    assert_eq!(
        quota_message(usize::MAX - 1, usize::MAX),
        Some("Urgent warning: You've used up over 90% of your quota!")
    );
}

#[test]
fn a_maximum_of_nothing() {
    assert_eq!(quota_message(0, 0), None);
    assert_eq!(quota_message(1, 0), Some("Error: You are over your quota!"));
}
