use dsh_desktop::process::{wait_step, ChildPoll, WaitStep, WAIT_POLL_MS};

#[test]
fn exited_child_ends_the_wait_with_its_outcome() {
    assert_eq!(wait_step(ChildPoll::Exited(true), 0, 100), WaitStep::Done(true));
    assert_eq!(wait_step(ChildPoll::Exited(false), 0, 100), WaitStep::Done(false));
    assert_eq!(wait_step(ChildPoll::Exited(true), 500, 100), WaitStep::Done(true));
}

#[test]
fn running_child_is_killed_once_the_time_is_up() {
    assert_eq!(wait_step(ChildPoll::Running, 0, 100), WaitStep::Sleep);
    assert_eq!(wait_step(ChildPoll::Running, 99, 100), WaitStep::Sleep);
    assert_eq!(wait_step(ChildPoll::Running, 100, 100), WaitStep::KillAndFail);
    assert_eq!(wait_step(ChildPoll::Running, 0, 0), WaitStep::KillAndFail);
    assert_eq!(WAIT_POLL_MS, 50);
}

#[test]
fn unreadable_child_is_killed() {
    assert_eq!(wait_step(ChildPoll::Failed, 0, 100), WaitStep::KillAndFail);
}
