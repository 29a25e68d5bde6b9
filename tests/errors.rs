use appliance::{Enqueued, Error, ReplyEvent};
use appliance::outcome::{enqueue_result, reply_result};

#[test]
fn error_descriptions() {
    assert_eq!(Error::FullBuffer.description(), "appliance buffer is full");
    assert_eq!(Error::Timeout.description(), "send timeout is exceeded");
    assert_eq!(Error::UnexpectedFailure.description(), "unexpected failure");
}

#[test]
fn only_a_stopped_appliance_is_fatal() {
    assert!(Error::FullBuffer.is_transient());
    assert!(Error::Timeout.is_transient());
    assert!(!Error::UnexpectedFailure.is_transient());
}

#[test]
fn enqueue_outcomes_map_to_send_results() {
    assert_eq!(enqueue_result(Enqueued::Accepted), Ok(()));
    assert_eq!(enqueue_result(Enqueued::Full), Err(Error::FullBuffer));
    assert_eq!(enqueue_result(Enqueued::Closed), Err(Error::UnexpectedFailure));
}

#[test]
fn reply_events_map_to_wait_results() {
    assert_eq!(reply_result(ReplyEvent::Replied(17u32)), Ok(17));
    assert_eq!(reply_result(ReplyEvent::<u32>::TimedOut), Err(Error::Timeout));
    assert_eq!(reply_result(ReplyEvent::<u32>::Closed), Err(Error::UnexpectedFailure));
}
