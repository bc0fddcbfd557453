use body_decoder::wait::{Deadline, Polled, WaitStep, Waited};

#[test]
fn deadline_is_fixed_at_start() {
    assert_eq!(Deadline::new(100, Some(50)).at, Some(150));
    assert_eq!(Deadline::new(100, None).at, None);
}

#[test]
fn no_deadline_never_expires() {
    let d = Deadline::new(0, None);
    assert!(!d.expired(u64::MAX));
}

#[test]
fn no_deadline_returns_value_and_failure() {
    let d = Deadline::new(0, None);
    assert!(matches!(d.step::<u32, String>(5, Polled::Ready(Ok(7))), WaitStep::Finish(Ok(7))));
    match d.step::<u32, String>(5, Polled::Ready(Err("bad".to_string()))) {
        WaitStep::Finish(Err(Waited::Failed(e))) => assert_eq!(e, "bad"),
        _ => panic!("expected the failure"),
    }
    assert!(matches!(d.step::<u32, String>(5, Polled::Pending), WaitStep::Park(None)));
}

#[test]
fn deadline_reached_times_out() {
    let d = Deadline::new(10, Some(20));
    assert!(!d.expired(29));
    assert!(d.expired(30));
    assert!(d.expired(31));
}

#[test]
fn pending_parks_until_deadline() {
    let d = Deadline::new(10, Some(20));
    assert!(matches!(d.step::<u32, ()>(12, Polled::Pending), WaitStep::Park(Some(18))));
    assert!(matches!(d.step::<u32, ()>(29, Polled::Ready(Ok(1))), WaitStep::Finish(Ok(1))));
}

#[test]
fn stream_steps() {
    let d = Deadline::new(0, Some(100));
    assert!(matches!(d.step_stream::<u8, ()>(1, Polled::Ready(Ok(Some(4)))), WaitStep::Finish(Some(Ok(4)))));
    assert!(matches!(d.step_stream::<u8, ()>(1, Polled::Ready(Ok(None))), WaitStep::Finish(None)));
    assert!(matches!(d.step_stream::<u8, u8>(1, Polled::Ready(Err(3))), WaitStep::Finish(Some(Err(Waited::Failed(3))))));
    assert!(matches!(d.step_stream::<u8, ()>(40, Polled::Pending), WaitStep::Park(Some(60))));
}

#[test]
fn waited_from_error() {
    let w: Waited<&str> = Waited::from("oops");
    assert!(matches!(w, Waited::Failed("oops")));
}
