use riptun::{after_attempt, after_wait, classify, Attempt, Error, Step};

#[test]
fn classify_sorts_outcomes() {
    assert!(matches!(classify(Ok(42)), Attempt::Transferred(42)));
    assert!(matches!(
        classify(Err(Error::Unix { source: nix::errno::Errno::EAGAIN })),
        Attempt::WouldBlock
    ));
    assert!(matches!(
        classify(Err(Error::Unix { source: nix::errno::Errno::EIO })),
        Attempt::Failed(Error::Unix { source: nix::errno::Errno::EIO })
    ));
    assert!(matches!(classify(Err(Error::QueueClosed)), Attempt::Failed(Error::QueueClosed)));
}

#[test]
fn failed_wait_ends_the_race() {
    assert!(matches!(after_wait::<&str>(2, Err("reactor gone")), Step::Fail("reactor gone")));
    assert!(matches!(after_wait::<&str>(2, Ok(())), Step::Attempt(2)));
}

#[test]
fn only_would_block_restarts() {
    assert!(matches!(after_attempt::<&str>(3, Attempt::WouldBlock), Step::Wait));
    assert!(matches!(
        after_attempt::<&str>(3, Attempt::Transferred(60)),
        Step::Done { queue: 3, bytes: 60 }
    ));
    assert!(matches!(after_attempt::<&str>(3, Attempt::Failed("eio")), Step::Fail("eio")));
}

#[test]
fn a_race_needs_a_queue() {
    assert!(riptun::race_start(3).is_ok());
    assert!(matches!(riptun::race_start(0), Err(Error::InvalidQueue(0))));
}
