use std::time::Duration;

use appliance::{reply_slot, Appliance, ApplianceHandle, Error, Handler, Message};
use async_executor::Executor;

const WAIT: Duration = Duration::from_secs(2);

type Counter<'s> = Appliance<'s, u64>;

struct Increment;

impl Message for Increment {
    type Result = u64;
}

impl<'s> Handler<Increment> for Counter<'s> {
    fn handle(&mut self, _msg: Increment) -> u64 {
        *self.state() += 1;
        *self.state()
    }
}

struct Triple(i64);

impl Message for Triple {
    type Result = i64;
}

impl<'s> Handler<Triple> for Counter<'s> {
    fn handle(&mut self, msg: Triple) -> i64 {
        3 * msg.0 + 1
    }
}

struct CanMintHandle;

impl Message for CanMintHandle {
    type Result = bool;
}

impl<'s> Handler<CanMintHandle> for Counter<'s> {
    fn handle(&mut self, _msg: CanMintHandle) -> bool {
        Appliance::handle(self).is_some()
    }
}

struct IncrementTwice;

impl Message for IncrementTwice {
    type Result = ();
}

impl<'s> Handler<IncrementTwice> for Counter<'s> {
    fn handle(&mut self, _msg: IncrementTwice) {
        *self.state() += 1;
        let me: ApplianceHandle<'s, Counter<'s>> = Appliance::handle(self).unwrap();
        me.send_sync(Increment).unwrap();
    }
}

/// An executor of its own for each test, driven by hand from the test's thread.
fn executor() -> &'static Executor<'static> {
    Box::leak(Box::new(Executor::new()))
}

fn drain(ex: &Executor<'_>) {
    while ex.try_tick() {}
}

fn ask(ex: &Executor<'_>, h: &ApplianceHandle<'_, Counter<'_>>) -> u64 {
    let pending = h.send_for_reply(Increment).unwrap();
    drain(ex);
    pending.wait(Some(WAIT)).unwrap()
}

#[test]
fn sequential_increments_reply_one_two_three() {
    let ex = executor();
    let h = Appliance::new_unbounded(ex, 0u64);
    for expected in 1..=3u64 {
        let pending = h.send_for_reply(Increment).unwrap();
        drain(ex);
        assert_eq!(pending.wait(Some(WAIT)), Ok(expected));
    }
}

#[test]
fn stalled_capacity_one_mailbox_is_full_on_second_send() {
    let ex = executor();
    let h = Appliance::new_bounded(ex, 0u64, 1);
    assert_eq!(h.send_sync(Increment), Ok(()));
    assert_eq!(h.send_sync(Increment), Err(Error::FullBuffer));
}

#[test]
fn capacity_k_takes_k_sends_and_refuses_the_next() {
    let ex = executor();
    let h = Appliance::new_bounded(ex, 0u64, 3);
    for _ in 0..3 {
        assert_eq!(h.send_sync(Increment), Ok(()));
    }
    assert_eq!(h.send_sync(Increment), Err(Error::FullBuffer));
    drain(ex);
    assert_eq!(h.send_sync(Increment), Ok(()));
    drain(ex);
    assert_eq!(ask(ex, &h), 5);
}

#[test]
fn send_for_reply_on_full_mailbox_reports_full_buffer() {
    let ex = executor();
    let h = Appliance::new_bounded(ex, 0u64, 1);
    assert_eq!(h.send_sync(Increment), Ok(()));
    assert_eq!(h.send_for_reply(Increment).err(), Some(Error::FullBuffer));
    assert_eq!(h.send_and_wait_sync(Increment, None), Err(Error::FullBuffer));
}

#[test]
fn fire_and_forget_messages_are_applied_in_order() {
    let ex = executor();
    let h = Appliance::new_unbounded(ex, Vec::<u32>::new());
    for i in 0..20u32 {
        assert_eq!(h.send_sync(Push(i)), Ok(()));
    }
    let pending = h.send_for_reply(Snapshot).unwrap();
    drain(ex);
    let expected: Vec<u32> = (0..20).collect();
    assert_eq!(pending.wait(Some(WAIT)), Ok(expected));
}

struct Push(u32);

impl Message for Push {
    type Result = ();
}

impl<'s> Handler<Push> for Appliance<'s, Vec<u32>> {
    fn handle(&mut self, msg: Push) {
        self.state().push(msg.0);
    }
}

struct Snapshot;

impl Message for Snapshot {
    type Result = Vec<u32>;
}

impl<'s> Handler<Snapshot> for Appliance<'s, Vec<u32>> {
    fn handle(&mut self, _msg: Snapshot) -> Vec<u32> {
        self.state().clone()
    }
}

struct Busy {
    in_flight: u32,
    most: u32,
}

struct Work;

impl Message for Work {
    type Result = ();
}

impl<'s> Handler<Work> for Appliance<'s, Busy> {
    fn handle(&mut self, _msg: Work) {
        self.state().in_flight += 1;
        let now = self.state().in_flight;
        if now > self.state().most {
            self.state().most = now;
        }
        self.state().in_flight -= 1;
    }
}

struct MostInFlight;

impl Message for MostInFlight {
    type Result = u32;
}

impl<'s> Handler<MostInFlight> for Appliance<'s, Busy> {
    fn handle(&mut self, _msg: MostInFlight) -> u32 {
        self.state().most
    }
}

#[test]
fn handlers_of_one_appliance_never_overlap() {
    let ex = executor();
    let h = Appliance::new_unbounded(ex, Busy { in_flight: 0, most: 0 });
    let handles: Vec<_> = (0..4).map(|_| h.clone()).collect();
    for round in 0..10 {
        for other in &handles {
            assert_eq!(other.send_sync(Work), Ok(()));
        }
        if round % 3 == 0 {
            drain(ex);
        }
    }
    let pending = h.send_for_reply(MostInFlight).unwrap();
    drain(ex);
    assert_eq!(pending.wait(Some(WAIT)), Ok(1));
}

#[test]
fn reply_is_the_handler_result() {
    let ex = executor();
    let h = Appliance::new_unbounded(ex, 0u64);
    for x in [-7i64, -1, 0, 1, 2, 1000] {
        let pending = h.send_for_reply(Triple(x)).unwrap();
        drain(ex);
        assert_eq!(pending.wait(Some(WAIT)), Ok(3 * x + 1));
    }
}

struct Witness {
    _alive: flume::Sender<()>,
}

#[test]
fn appliance_stops_only_after_last_of_six_handles_is_dropped() {
    let ex = executor();
    let (alive, watch) = flume::unbounded::<()>();
    let first = Appliance::new_unbounded(ex, Witness { _alive: alive });
    let clones: Vec<_> = (0..5).map(|_| first.clone()).collect();
    drain(ex);
    assert_eq!(watch.try_recv(), Err(flume::TryRecvError::Empty));
    drop(clones);
    drain(ex);
    assert_eq!(watch.try_recv(), Err(flume::TryRecvError::Empty));
    drop(first);
    drain(ex);
    assert_eq!(watch.try_recv(), Err(flume::TryRecvError::Disconnected));
}

#[test]
fn wait_times_out_when_the_reply_is_late_and_succeeds_when_it_is_in_time() {
    let ex = executor();
    let h = Appliance::new_unbounded(ex, 0u64);
    let slow = h.send_for_reply(Increment).unwrap();
    assert_eq!(slow.wait(Some(Duration::from_millis(10))), Err(Error::Timeout));
    drain(ex);
    assert_eq!(slow.wait(Some(Duration::from_millis(10))), Ok(1));
    let quick = h.send_for_reply(Increment).unwrap();
    drain(ex);
    assert_eq!(quick.wait(Some(Duration::from_millis(10))), Ok(2));
}

#[test]
fn blocking_send_and_wait_times_out_against_a_stalled_appliance() {
    let ex = executor();
    let h = Appliance::new_unbounded(ex, 0u64);
    let r = h.send_and_wait_sync(Increment, Some(Duration::from_millis(10)));
    assert_eq!(r, Err(Error::Timeout));
    drain(ex);
    assert_eq!(ask(ex, &h), 2);
}

#[test]
fn unfulfilled_reply_slot_reports_unexpected_failure() {
    let (slot, pending) = reply_slot::<u8>();
    drop(slot);
    assert_eq!(pending.wait(None), Err(Error::UnexpectedFailure));
    let (slot, pending) = reply_slot::<u8>();
    drop(slot);
    assert_eq!(pending.wait(Some(WAIT)), Err(Error::UnexpectedFailure));
}

#[test]
fn filled_reply_slot_is_read_without_deadline() {
    let (slot, pending) = reply_slot::<u8>();
    slot.send(42).unwrap();
    assert_eq!(pending.wait(None), Ok(42));
}

#[test]
fn handler_can_mint_a_handle_to_its_own_appliance() {
    let ex = executor();
    let h = Appliance::new_unbounded(ex, 0u64);
    let pending = h.send_for_reply(CanMintHandle).unwrap();
    drain(ex);
    assert_eq!(pending.wait(Some(WAIT)), Ok(true));
    assert_eq!(h.send_sync(IncrementTwice), Ok(()));
    drain(ex);
    assert_eq!(ask(ex, &h), 3);
}

#[test]
fn unbounded_mailbox_never_reports_full_buffer() {
    let ex = executor();
    let h = Appliance::new_unbounded(ex, 0u64);
    for _ in 0..1000 {
        assert_eq!(h.send_sync(Increment), Ok(()));
    }
    let pending = h.send_for_reply(Increment).unwrap();
    drain(ex);
    assert_eq!(pending.wait(Some(WAIT)), Ok(1001));
}

#[test]
fn clone_of_a_handle_sends_to_the_same_appliance() {
    let ex = executor();
    let h = Appliance::new_bounded(ex, 0u64, 8);
    let other = h.clone();
    assert_eq!(other.send_sync(Increment), Ok(()));
    assert_eq!(h.send_sync(Increment), Ok(()));
    drain(ex);
    assert_eq!(ask(ex, &other), 3);
}

#[test]
fn handle_minted_inside_an_unbounded_appliance_sends_there() {
    let ex = executor();
    let h = Appliance::new_unbounded(ex, 0u64);
    assert_eq!(h.send_sync(IncrementTwice), Ok(()));
    drain(ex);
    assert_eq!(ask(ex, &h), 3);
}

#[test]
fn reply_to_a_slot_that_is_already_full_is_dropped() {
    let ex = executor();
    let h = Appliance::new_unbounded(ex, 0u64);
    let (slot, pending) = reply_slot::<u64>();
    slot.send(99).unwrap();
    let envelope = appliance::Envelope::new(Increment, Some(slot));
    assert!(futures_lite::future::block_on(h.put_suspending(envelope)).is_ok());
    drain(ex);
    assert_eq!(pending.wait(Some(WAIT)), Ok(99));
    assert_eq!(ask(ex, &h), 2);
}

#[test]
fn suspending_put_waits_for_room_in_a_bounded_mailbox() {
    let ex = executor();
    let h = Appliance::new_bounded(ex, 0u64, 1);
    assert_eq!(h.send_sync(Increment), Ok(()));
    let mut put = Box::pin(h.put_suspending(appliance::Envelope::new(Increment, None)));
    assert!(futures_lite::future::block_on(futures_lite::future::poll_once(&mut put)).is_none());
    drain(ex);
    assert!(futures_lite::future::block_on(put).is_ok());
    drain(ex);
    assert_eq!(ask(ex, &h), 3);
}
