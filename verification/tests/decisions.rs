use git_commit::review::{
    decide, review_step, OperatorDecision, ReviewEvent, ReviewState,
};

#[test]
fn commit_inputs_are_case_insensitive_and_terminator_insensitive() {
    assert_eq!(decide("c\n"), OperatorDecision::Commit);
    assert_eq!(decide("C\n"), OperatorDecision::Commit);
    assert_eq!(decide("c\r\n"), OperatorDecision::Commit);
    assert_eq!(decide("c"), OperatorDecision::Commit);
    assert_eq!(decide("C\r\n"), OperatorDecision::Commit);
}

#[test]
fn edit_and_discard_inputs_resolve() {
    assert_eq!(decide("e\n"), OperatorDecision::Edit);
    assert_eq!(decide("E\r\n"), OperatorDecision::Edit);
    assert_eq!(decide("e"), OperatorDecision::Edit);
    assert_eq!(decide("d\n"), OperatorDecision::Discard);
    assert_eq!(decide("D"), OperatorDecision::Discard);
    assert_eq!(decide("d\r\n"), OperatorDecision::Discard);
}

#[test]
fn unrecognized_inputs_are_invalid() {
    assert_eq!(decide("x\n"), OperatorDecision::Invalid);
    assert_eq!(decide(""), OperatorDecision::Invalid);
    assert_eq!(decide("\n"), OperatorDecision::Invalid);
    assert_eq!(decide("\r\n"), OperatorDecision::Invalid);
    assert_eq!(decide("cc\n"), OperatorDecision::Invalid);
    assert_eq!(decide("c \n"), OperatorDecision::Invalid);
    assert_eq!(decide("commit\n"), OperatorDecision::Invalid);
    assert_eq!(decide("ce\n"), OperatorDecision::Invalid);
}

#[test]
fn only_one_terminator_is_stripped() {
    assert_eq!(decide("c\n\n"), OperatorDecision::Invalid);
    assert_eq!(decide("c\r\n\n"), OperatorDecision::Invalid);
}

#[test]
fn commit_decision_keeps_the_message_unmodified() {
    let s = ReviewState::AwaitingDecision { message: String::from("Fix bug") };
    let next = review_step(s, ReviewEvent::OperatorLine { line: String::from("c\n") });
    assert_eq!(next, ReviewState::ResolvedCommit { message: String::from("Fix bug") });
}

#[test]
fn presenting_then_deciding() {
    let s = ReviewState::Presenting { message: String::from("Fix bug") };
    let s = review_step(s, ReviewEvent::MessagePresented);
    assert_eq!(s, ReviewState::AwaitingDecision { message: String::from("Fix bug") });
    let s = review_step(s, ReviewEvent::OperatorLine { line: String::from("d\n") });
    assert_eq!(s, ReviewState::ResolvedDiscard);
}

#[test]
fn invalid_input_fails_the_review() {
    let s = ReviewState::AwaitingDecision { message: String::from("Fix bug") };
    let next = review_step(s, ReviewEvent::OperatorLine { line: String::from("x\n") });
    assert_eq!(next, ReviewState::FailedInvalidChoice);
}

#[test]
fn a_single_edit_pass_is_final() {
    let s = ReviewState::AwaitingDecision { message: String::from("Fix bug") };
    let s = review_step(s, ReviewEvent::OperatorLine { line: String::from("e\n") });
    assert_eq!(s, ReviewState::Editing { message: String::from("Fix bug") });
    let s = review_step(
        s,
        ReviewEvent::EditCompleted { text: String::from("Fix the null pointer bug") },
    );
    assert_eq!(s, ReviewState::ResolvedCommit { message: String::from("Fix the null pointer bug") });
}

#[test]
fn edit_failure_is_distinct_from_invalid_choice() {
    let s = ReviewState::Editing { message: String::from("Fix bug") };
    let next = review_step(s, ReviewEvent::EditFailed);
    assert_eq!(next, ReviewState::FailedEdit);
    assert_ne!(next, ReviewState::FailedInvalidChoice);
}

#[test]
fn terminal_review_states_absorb_events() {
    let s = ReviewState::ResolvedDiscard;
    let next = review_step(s, ReviewEvent::OperatorLine { line: String::from("c\n") });
    assert_eq!(next, ReviewState::ResolvedDiscard);
}
