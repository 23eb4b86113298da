use rpi_hub::dial::{DialAction, Dialler, WaitPlan};

#[test]
fn with_no_pinned_host_we_never_knock() {
    assert_eq!(WaitPlan::for_hosts(0), WaitPlan::Accept);
    assert_eq!(WaitPlan::for_hosts(1), WaitPlan::AcceptOrDial);
    assert_eq!(WaitPlan::for_hosts(3), WaitPlan::AcceptOrDial);
}

#[test]
fn every_host_is_dialled_once_per_round() {
    let mut dialler = Dialler::new(3);
    for _ in 0..4 {
        for host in 0..3 {
            assert_eq!(dialler.next(), DialAction::Dial(host));
        }
        assert!(matches!(dialler.next(), DialAction::Sleep(_)));
    }
}

#[test]
fn the_delay_doubles_up_to_thirty_seconds() {
    let mut dialler = Dialler::new(1);
    for delay in [2, 4, 8, 16, 30, 30, 30] {
        assert_eq!(dialler.next(), DialAction::Dial(0));
        assert_eq!(dialler.next(), DialAction::Sleep(delay));
    }
}

#[test]
fn with_nobody_to_dial_there_is_only_sleep() {
    let mut dialler = Dialler::new(0);
    assert_eq!(dialler.next(), DialAction::Sleep(2));
    assert_eq!(dialler.next(), DialAction::Sleep(4));
}
