use kata::limit_tracker::{LimitTracker, Messenger, Usage};
use std::cell::RefCell;

struct MockMessenger {
    sent_messages: RefCell<Vec<String>>,
}

impl MockMessenger {
    fn new() -> MockMessenger {
        MockMessenger {
            sent_messages: RefCell::new(vec![]),
        }
    }
}

impl Messenger for MockMessenger {
    fn send(&self, msg: &str) {
        self.sent_messages.borrow_mut().push(String::from(msg)); // we are borrow a mutable reference, and then push the value
    }
}

#[test]
fn it_sends_an_over_75_percent_warning_message() {
    let mock_messenger = MockMessenger::new();
    let mut limit_tracker = LimitTracker::new(&mock_messenger, 100);

    limit_tracker.set_value(80);

    assert_eq!(mock_messenger.sent_messages.borrow().len(), 1);
}

fn messages_for(max: usize, values: &[usize]) -> Vec<String> {
    let messenger = MockMessenger::new();
    let mut tracker = LimitTracker::new(&messenger, max);
    for value in values {
        tracker.set_value(*value);
    }
    let sent = messenger.sent_messages.borrow().clone();
    sent
}

#[test]
fn each_level_has_its_message() {
    assert_eq!(messages_for(100, &[0, 1, 74]), Vec::<String>::new());
    assert_eq!(
        messages_for(100, &[75, 89]),
        vec![
            "Warning: You've used up over 75% of your quota!",
            "Warning: You've used up over 75% of your quota!"
        ]
    );
    assert_eq!(
        messages_for(100, &[90, 99]),
        vec![
            "Urgent warning: You've used up over 90% of your quota!",
            "Urgent warning: You've used up over 90% of your quota!"
        ]
    );
    assert_eq!(
        messages_for(100, &[100, 101, usize::MAX]),
        vec![
            "Error: You are over your quota!",
            "Error: You are over your quota!",
            "Error: You are over your quota!"
        ]
    );
}

#[test]
fn new_tracker_sends_nothing() {
    let messenger = MockMessenger::new();
    let tracker = LimitTracker::new(&messenger, 10);
    assert_eq!(tracker.usage(), Usage::Fine);
    assert!(messenger.sent_messages.borrow().is_empty());
}

#[test]
fn usage_thresholds_are_exact() {
    assert_eq!(Usage::of(2, 4), Usage::Fine);
    assert_eq!(Usage::of(3, 4), Usage::Warning);
    assert_eq!(Usage::of(8, 10), Usage::Warning);
    assert_eq!(Usage::of(9, 10), Usage::Urgent);
    assert_eq!(Usage::of(10, 10), Usage::Over);
    assert_eq!(Usage::of(2, 3), Usage::Fine);
    assert_eq!(Usage::of(0, 0), Usage::Fine);
    assert_eq!(Usage::of(1, 0), Usage::Over);
    assert_eq!(Usage::of(usize::MAX - 1, usize::MAX), Usage::Urgent);
    assert_eq!(Usage::of(usize::MAX, usize::MAX), Usage::Over);
}

#[test]
fn usage_agrees_with_the_ratio_in_floating_point() {
    for max in 1usize..=200 {
        for value in 0usize..=220 {
            let ratio = value as f64 / max as f64;
            let expected = if ratio >= 1.0 {
                Usage::Over
            } else if ratio >= 0.9 {
                Usage::Urgent
            } else if ratio >= 0.75 {
                Usage::Warning
            } else {
                Usage::Fine
            };
            assert_eq!(Usage::of(value, max), expected, "{} of {}", value, max);
        }
    }
}

#[test]
fn usage_messages() {
    assert_eq!(Usage::Fine.message(), None);
    assert_eq!(
        Usage::Warning.message(),
        Some("Warning: You've used up over 75% of your quota!")
    );
    assert_eq!(
        Usage::Urgent.message(),
        Some("Urgent warning: You've used up over 90% of your quota!")
    );
    assert_eq!(Usage::Over.message(), Some("Error: You are over your quota!"));
}
