use minichain::host::ContractError;
use minichain::poll::{
    Poll, PollApplicationCall, PollMessage, PollOperation, PollOption, PollResponse,
    PollSessionCall,
};

#[test]
fn test_poll_creation() {
    let mut poll = Poll::default();
    poll.question = "Test question".to_string();
    poll.options.push(PollOption { name: "Option 1".to_string(), votes: 0 });
    poll.options.push(PollOption { name: "Option 2".to_string(), votes: 0 });
    poll.is_active = true;

    assert_eq!(poll.question, "Test question");
    assert_eq!(poll.options.len(), 2);
    assert!(poll.is_active);
}

#[test]
fn test_poll_voting() {
    let mut poll = Poll::default();
    poll.options.push(PollOption { name: "Option A".to_string(), votes: 0 });
    poll.options.push(PollOption { name: "Option B".to_string(), votes: 0 });
    poll.is_active = true;

    poll.vote(&"Option A".to_string());

    assert_eq!(poll.options[0].votes, 1);
    assert_eq!(poll.total_votes, 1);
}

#[test]
fn test_poll_closing() {
    let mut poll = Poll::default();
    poll.is_active = true;

    poll.is_active = false;

    assert!(!poll.is_active);
}

#[test]
fn poll_initialize_installs_default_poll() {
    let mut poll = Poll::default();
    poll.initialize();
    assert_eq!(poll.question, "What is your favorite option?");
    assert_eq!(poll.options.len(), 3);
    assert_eq!(poll.options[0].name, "Option A");
    assert_eq!(poll.options[1].name, "Option B");
    assert_eq!(poll.options[2].name, "Option C");
    assert!(poll.is_active);
    assert_eq!(poll.total_votes, 0);
}

#[test]
fn poll_create_deduplicates_options() {
    let mut poll = Poll::default();
    let op = PollOperation::CreatePoll {
        question: "Pick one".to_string(),
        options: vec!["Red".to_string(), "Blue".to_string(), "Red".to_string()],
    };
    poll.execute_operation(op);
    assert_eq!(poll.question, "Pick one");
    assert_eq!(poll.options.len(), 2);
    assert_eq!(poll.options[0].name, "Red");
    assert_eq!(poll.options[1].name, "Blue");
    assert!(poll.is_active);
}

#[test]
fn poll_vote_ignored_when_closed_or_unknown() {
    let mut poll = Poll::default();
    poll.create_poll("Q".to_string(), vec!["Yes".to_string(), "No".to_string()]);

    poll.execute_message(PollMessage::Vote { option: "Maybe".to_string() });
    assert_eq!(poll.total_votes, 0);

    poll.execute_message(PollMessage::ClosePoll);
    assert!(!poll.is_active);
    poll.execute_operation(PollOperation::Vote { option: "Yes".to_string() });
    assert_eq!(poll.total_votes, 0);
    assert_eq!(poll.options[0].votes, 0);

    poll.execute_operation(PollOperation::ReopenPoll);
    poll.execute_operation(PollOperation::Vote { option: "Yes".to_string() });
    assert_eq!(poll.total_votes, 1);
    assert_eq!(poll.options[0].votes, 1);
}

#[test]
fn poll_application_call_queries() {
    let mut poll = Poll::default();
    poll.create_poll("Q".to_string(), vec!["A".to_string()]);
    poll.vote(&"A".to_string());

    let r = poll.handle_application_call(PollApplicationCall::GetResults);
    match r.value {
        Some(PollResponse::Results(options)) => {
            assert_eq!(options.len(), 1);
            assert_eq!(options[0].name, "A");
            assert_eq!(options[0].votes, 1);
        },
        _ => panic!("expected results"),
    }

    let r = poll.handle_application_call(PollApplicationCall::GetQuestion);
    assert!(matches!(r.value, Some(PollResponse::Question(q)) if q == "Q"));

    let r = poll.handle_application_call(PollApplicationCall::IsActive);
    assert!(matches!(r.value, Some(PollResponse::Active(true))));

    poll.handle_application_call(PollApplicationCall::ClosePoll);
    assert!(!poll.is_active);
}

#[test]
fn poll_session_calls_rejected() {
    let poll = Poll::default();
    let r = poll.handle_session_call(PollSessionCall::GetResults);
    assert!(matches!(r, Err(ContractError::UnsupportedCall)));
}

#[test]
fn poll_snapshot_copies_state() {
    let mut poll = Poll::default();
    poll.create_poll("Q".to_string(), vec!["A".to_string()]);
    let view = poll.snapshot();
    assert_eq!(view.question, "Q");
    assert_eq!(view.options.len(), 1);
    assert_eq!(view.total_votes, 0);
    assert!(view.is_active);
}
