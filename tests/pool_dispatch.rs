use alerting_email::pool::{Admission, Completion, Dispatcher, Slot};

#[test]
fn new_pool_is_idle() {
    let d = Dispatcher::new(3);
    assert_eq!(d.worker_count(), 3);
    assert_eq!(d.in_flight(), 0);
    assert_eq!(d.waiting(), 0);
    assert_eq!(d.slot(2), Slot::Idle);
}

#[test]
fn requests_beyond_workers_wait() {
    let mut d = Dispatcher::new(2);
    let mut admissions = Vec::new();
    for _ in 0..5 {
        admissions.push(d.submit());
        assert!(d.in_flight() <= 2);
    }
    assert_eq!(admissions[0], Admission::Started { ticket: 0, worker: 0 });
    assert_eq!(admissions[1], Admission::Started { ticket: 1, worker: 1 });
    assert_eq!(admissions[2], Admission::Waiting { ticket: 2 });
    assert_eq!(admissions[3], Admission::Waiting { ticket: 3 });
    assert_eq!(admissions[4], Admission::Waiting { ticket: 4 });
    assert_eq!(d.in_flight(), 2);
    assert_eq!(d.waiting(), 3);
}

#[test]
fn five_requests_on_two_workers_take_three_rounds() {
    let mut d = Dispatcher::new(2);
    for _ in 0..5 {
        d.submit();
    }
    let mut answered: Vec<u64> = Vec::new();
    let mut rounds = 0;
    while d.in_flight() > 0 {
        rounds += 1;
        for w in 0..d.worker_count() {
            if let Slot::Busy(_) = d.slot(w) {
                let c = d.finish(w);
                assert!(!answered.contains(&c.done));
                answered.push(c.done);
            }
        }
        assert!(d.in_flight() <= 2);
    }
    assert_eq!(rounds, 3);
    answered.sort();
    assert_eq!(answered, vec![0, 1, 2, 3, 4]);
}

#[test]
fn finishing_takes_the_oldest_waiting_request() {
    let mut d = Dispatcher::new(1);
    d.submit();
    d.submit();
    d.submit();
    assert_eq!(d.finish(0), Completion { done: 0, next: Some(1) });
    assert_eq!(d.finish(0), Completion { done: 1, next: Some(2) });
    assert_eq!(d.finish(0), Completion { done: 2, next: None });
    assert_eq!(d.slot(0), Slot::Idle);
}

#[test]
fn lowest_idle_worker_wins() {
    let mut d = Dispatcher::new(3);
    d.submit();
    d.submit();
    d.submit();
    d.finish(1);
    assert_eq!(d.submit(), Admission::Started { ticket: 3, worker: 1 });
}

#[test]
fn losing_the_last_worker_fails_its_queue() {
    let mut d = Dispatcher::new(2);
    d.submit();
    d.submit();
    d.submit();
    let first = d.lose(0);
    assert_eq!(first.failed, Some(0));
    assert!(first.rejected.is_empty());
    let second = d.lose(1);
    assert_eq!(second.failed, Some(1));
    assert_eq!(second.rejected, vec![2]);
    assert_eq!(d.waiting(), 0);
    assert_eq!(d.submit(), Admission::Unavailable { ticket: 3 });
}

#[test]
fn losing_an_idle_worker_fails_nothing() {
    let mut d = Dispatcher::new(2);
    let l = d.lose(1);
    assert_eq!(l.failed, None);
    assert!(l.rejected.is_empty());
    assert_eq!(d.submit(), Admission::Started { ticket: 0, worker: 0 });
}

#[test]
fn empty_pool_is_unavailable() {
    let mut d = Dispatcher::new(0);
    assert_eq!(d.submit(), Admission::Unavailable { ticket: 0 });
}

#[test]
fn same_state_same_dispatch() {
    let mut a = Dispatcher::new(2);
    let mut b = Dispatcher::new(2);
    for _ in 0..4 {
        assert_eq!(a.submit(), b.submit());
    }
    assert_eq!(a.finish(1), b.finish(1));
    assert_eq!(a.submit(), b.submit());
}

#[test]
fn tickets_can_be_handed_out() {
    let d = Dispatcher::new(1);
    assert!(d.can_submit());
}
