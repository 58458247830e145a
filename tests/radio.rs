use rfm95_lora::error::Error;
use rfm95_lora::radio::{receive_outcome, RadioRecieveError, Time};

#[test]
fn receive_outcome_classifies_polls() {
    assert_eq!(receive_outcome(Ok(Some(12))), Ok(Ok(12)));
    assert_eq!(receive_outcome(Ok(None)), Ok(Err(RadioRecieveError::StillRecieving)));
    assert_eq!(receive_outcome(Err(Error::RxTimeout)), Ok(Err(RadioRecieveError::RxTimeout)));
    assert_eq!(receive_outcome(Err(Error::RxCrcError)), Err(Error::RxCrcError));
    assert_eq!(receive_outcome(Err(Error::CommunicationFailure)), Err(Error::CommunicationFailure));
}

#[test]
fn time_increment_carries() {
    let mut t = Time::default();
    assert_eq!((t.hours(), t.minutes(), t.seconds()), (0, 0, 0));
    t.increment();
    assert_eq!((t.hours(), t.minutes(), t.seconds()), (0, 0, 1));
    for _ in 0..59 {
        t.increment();
    }
    assert_eq!((t.hours(), t.minutes(), t.seconds()), (0, 1, 0));
    for _ in 0..(59 * 60 - 1) {
        t.increment();
    }
    assert_eq!((t.hours(), t.minutes(), t.seconds()), (0, 59, 59));
    t.increment();
    assert_eq!((t.hours(), t.minutes(), t.seconds()), (1, 0, 0));
}
