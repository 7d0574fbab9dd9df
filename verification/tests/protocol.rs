use duplex_split::cell::Cell;
use duplex_split::lock::Lock;
use duplex_split::outcome::Outcome;
use duplex_split::protocol::Admission;
use duplex_split::protocol::Op;
use duplex_split::protocol::OpKind;
use duplex_split::protocol::Phase;
use duplex_split::protocol::Side;
use duplex_split::shared::Shared;

#[test]
fn sides_are_each_other_s_opposite() {
    assert_eq!(Side::Read.other(), Side::Write);
    assert_eq!(Side::Write.other(), Side::Read);
}

#[test]
fn every_kind_belongs_to_one_side() {
    assert_eq!(OpKind::Read.side(), Side::Read);
    assert_eq!(OpKind::Write.side(), Side::Write);
    assert_eq!(OpKind::Flush.side(), Side::Write);
    assert_eq!(OpKind::Close.side(), Side::Write);
}

#[test]
fn new_lock_is_free() {
    let lock = Lock::new();
    assert_eq!(lock.holder(), None);
    assert!(!lock.parked());
}

#[test]
fn free_lock_is_granted_and_held_lock_is_refused() {
    let mut lock = Lock::new();
    let grant = lock.try_acquire(Side::Read).expect("granted");
    assert_eq!(grant.side(), Side::Read);
    assert_eq!(lock.holder(), Some(Side::Read));
    assert!(!lock.parked());

    assert!(lock.try_acquire(Side::Write).is_none());
    assert_eq!(lock.holder(), Some(Side::Read));
    assert!(lock.parked());

    assert!(lock.release(grant));
    assert_eq!(lock.holder(), None);
    assert!(!lock.parked());
}

#[test]
fn holder_asking_again_gets_no_second_grant_and_is_not_parked() {
    let mut lock = Lock::new();
    let grant = lock.try_acquire(Side::Write).expect("granted");
    assert!(lock.try_acquire(Side::Write).is_none());
    assert!(!lock.parked());
    assert!(!lock.release(grant));
    assert_eq!(lock.holder(), None);
}

#[test]
fn release_by_a_stranger_changes_nothing() {
    let mut one = Lock::new();
    let mut two = Lock::new();
    let read = one.try_acquire(Side::Read).expect("granted");
    let write = two.try_acquire(Side::Write).expect("granted");
    assert!(!one.release(write));
    assert_eq!(one.holder(), Some(Side::Read));
    assert!(!two.release(read));
    assert_eq!(two.holder(), Some(Side::Write));
}

#[test]
fn withdraw_unparks_only_the_waiting_side() {
    let mut lock = Lock::new();
    let _grant = lock.try_acquire(Side::Read).expect("granted");
    assert!(lock.try_acquire(Side::Write).is_none());
    assert!(lock.parked());
    lock.withdraw(Side::Read);
    assert!(lock.parked());
    lock.withdraw(Side::Write);
    assert!(!lock.parked());
    assert_eq!(lock.holder(), Some(Side::Read));
}

#[test]
fn cell_goes_from_idle_to_in_flight_and_back() {
    let mut lock = Lock::new();
    let mut cell = Cell::new();
    let op = Op { kind: OpKind::Read, len: 16 };
    assert_eq!(cell.phase(), Phase::Idle);

    assert_eq!(cell.begin(&mut lock, op), Admission::Started);
    assert_eq!(cell.phase(), Phase::OperationInFlight(op));
    assert_eq!(lock.holder(), Some(Side::Read));

    assert!(!cell.settle(&mut lock, false));
    assert_eq!(cell.phase(), Phase::OperationInFlight(op));
    assert_eq!(lock.holder(), Some(Side::Read));

    assert_eq!(cell.begin(&mut lock, op), Admission::Resumed);
    assert_eq!(cell.phase(), Phase::OperationInFlight(op));

    assert!(!cell.settle(&mut lock, true));
    assert_eq!(cell.phase(), Phase::Idle);
    assert_eq!(lock.holder(), None);
}

#[test]
fn refused_cell_waits_and_holds_no_operation() {
    let mut lock = Lock::new();
    let mut reader = Cell::new();
    let mut writer = Cell::new();
    let read = Op { kind: OpKind::Read, len: 4 };
    let write = Op { kind: OpKind::Write, len: 2 };

    assert_eq!(writer.begin(&mut lock, write), Admission::Started);
    assert_eq!(reader.begin(&mut lock, read), Admission::Suspended);
    assert_eq!(reader.phase(), Phase::AcquiringLock);
    assert!(lock.parked());
    assert_eq!(lock.holder(), Some(Side::Write));

    assert!(writer.settle(&mut lock, true));
    assert_eq!(lock.holder(), None);
    assert_eq!(reader.begin(&mut lock, read), Admission::Started);
    assert_eq!(reader.phase(), Phase::OperationInFlight(read));
    assert_eq!(lock.holder(), Some(Side::Read));
}

#[test]
fn settle_without_operation_changes_nothing() {
    let mut lock = Lock::new();
    let mut cell = Cell::new();
    assert!(!cell.settle(&mut lock, true));
    assert_eq!(cell.phase(), Phase::Idle);
    cell.stall();
    assert_eq!(cell.phase(), Phase::AcquiringLock);
    assert!(!cell.settle(&mut lock, true));
    assert_eq!(cell.phase(), Phase::AcquiringLock);
    assert_eq!(lock.holder(), None);
}

#[test]
fn stall_leaves_an_operation_in_flight() {
    let mut lock = Lock::new();
    let mut cell = Cell::new();
    let op = Op { kind: OpKind::Close, len: 0 };
    assert_eq!(cell.begin(&mut lock, op), Admission::Started);
    cell.stall();
    assert_eq!(cell.phase(), Phase::OperationInFlight(op));
}

#[test]
fn abandon_releases_and_reports_the_waiter() {
    let mut lock = Lock::new();
    let mut reader = Cell::new();
    let mut writer = Cell::new();
    let read = Op { kind: OpKind::Read, len: 4 };
    let write = Op { kind: OpKind::Write, len: 2 };
    assert_eq!(reader.begin(&mut lock, read), Admission::Started);
    assert_eq!(writer.begin(&mut lock, write), Admission::Suspended);
    assert!(reader.abandon(&mut lock, Side::Read));
    assert_eq!(reader.phase(), Phase::Idle);
    assert_eq!(lock.holder(), None);
    assert!(!writer.abandon(&mut lock, Side::Write));
    assert_eq!(writer.phase(), Phase::Idle);
    assert!(!reader.abandon(&mut lock, Side::Read));
}

#[test]
fn abandon_of_a_waiting_cell_unparks_it() {
    let mut lock = Lock::new();
    let mut reader = Cell::new();
    let mut writer = Cell::new();
    assert_eq!(
        reader.begin(&mut lock, Op { kind: OpKind::Read, len: 1 }),
        Admission::Started
    );
    assert_eq!(
        writer.begin(&mut lock, Op { kind: OpKind::Flush, len: 0 }),
        Admission::Suspended
    );
    assert!(lock.parked());
    assert!(!writer.abandon(&mut lock, Side::Write));
    assert!(!lock.parked());
    assert!(!reader.settle(&mut lock, true));
}

#[test]
fn outcome_is_completed_unless_pending() {
    assert!(!Outcome::<usize>::Pending.completed());
    assert!(Outcome::Done(0usize).completed());
    assert!(Outcome::<usize>::Failed(std::io::Error::new(std::io::ErrorKind::Other, "x")).completed());
}

#[test]
fn conclude_returns_the_answer_unchanged() {
    let mut shared = Shared::new(());
    let mut cell = Cell::new();
    assert!(matches!(shared.conclude(&mut cell, Outcome::Done(0usize)), Outcome::Done(0)));
    assert!(matches!(shared.conclude(&mut cell, Outcome::Done(17usize)), Outcome::Done(17)));
    assert!(matches!(shared.conclude(&mut cell, Outcome::<usize>::Pending), Outcome::Pending));
    match shared.conclude(
        &mut cell,
        Outcome::<()>::Failed(std::io::Error::new(std::io::ErrorKind::BrokenPipe, "x")),
    ) {
        Outcome::Failed(e) => assert_eq!(e.kind(), std::io::ErrorKind::BrokenPipe),
        other => panic!("{:?}", other),
    }
}

#[test]
fn cell_admits_anything_unless_an_operation_is_in_flight() {
    let mut lock = Lock::new();
    let mut cell = Cell::new();
    let op = Op { kind: OpKind::Write, len: 3 };
    assert!(cell.admits(op));
    cell.stall();
    assert!(cell.admits(op));
    assert_eq!(cell.begin(&mut lock, op), Admission::Started);
    assert!(cell.admits(op));
    assert!(!cell.admits(Op { kind: OpKind::Write, len: 4 }));
    assert!(!cell.admits(Op { kind: OpKind::Close, len: 3 }));
    assert!(!cell.settle(&mut lock, true));
    assert!(cell.admits(Op { kind: OpKind::Close, len: 0 }));
}
