//! The session event loop, as decisions: what each event from the server
//! and each tick of the pacing timer does to the session, and what the
//! caller is to do next.
//!
//! The caller owns the waiting. It awaits the next event or tick, asks here,
//! carries out the action, and goes on until the action is `Stop`.

use crate::channel::{Consumer, IntensityChannel, Polled};
use crate::intensity::Intensity;
use crate::rounding::rounded_quotient;
use crate::session::{Action, Device, Session};
use vstd::prelude::*;

verus! {

/// What the server's event stream can bring.
#[derive(Clone, Copy, Debug, PartialEq, Eq)]
pub enum ServerEvent {
    /// The server says goodbye.
    ServerDisconnect,
    /// A device has appeared.
    DeviceAdded(Device),
    /// A device has gone.
    DeviceRemoved(Device),
    /// Anything else.
    Other,
}

/// What can wake the loop.
#[derive(Clone, Copy, Debug, PartialEq, Eq)]
pub enum LoopEvent {
    /// The event stream brought an event.
    Server(ServerEvent),
    /// The event stream ended without a goodbye.
    StreamEnded,
    /// The pacing timer ticked, and this came of the one look into the
    /// intensity channel.
    Tick(Polled),
    /// A vibration command was not delivered.
    CommandFailed,
}

/// How often commands go out and how long the queue before them is.
#[derive(Clone, Copy, Debug, PartialEq, Eq)]
pub struct Pacing {
    /// The number of slots of the intensity channel.
    pub queue_slots: usize,
    /// The time between two ticks, in milliseconds.
    pub tick_millis: u64,
}

/// Why a send rate cannot be paced.
#[derive(Clone, Copy, Debug, PartialEq, Eq)]
pub enum PacingError {
    /// The rate is zero: no tick would ever come.
    RateZero,
    /// The rate is above a hundred a second: the queue would have no slot.
    RateTooHigh,
}

/// The highest send rate that can be paced, in thousandths of a command a
/// second.
pub const HIGHEST_MILLIHERTZ: u32 = 100_000;

/// The number of queue slots for a send rate, in commands a second: a
/// hundred divided by the rate, rounded down.
pub open spec fn queue_slots_for(send_rate: u32) -> nat
    recommends
        send_rate > 0,
{
    (100int / send_rate as int) as nat
}

/// The milliseconds between two ticks for a send rate, in commands a
/// second: a thousand divided by the rate, rounded.
pub open spec fn tick_millis_for(send_rate: u32) -> nat
    recommends
        send_rate > 0,
{
    rounded_quotient(1000, send_rate as nat)
}

/// The number of queue slots for a send rate, in thousandths of a command
/// a second: a hundred divided by the rate, rounded down.
pub open spec fn queue_slots_for_millihertz(send_rate: u32) -> nat
    recommends
        send_rate > 0,
{
    (100_000int / send_rate as int) as nat
}

/// The milliseconds between two ticks for a send rate, in thousandths of a
/// command a second: a thousand divided by the rate, rounded.
pub open spec fn tick_millis_for_millihertz(send_rate: u32) -> nat
    recommends
        send_rate > 0,
{
    rounded_quotient(1_000_000, send_rate as nat)
}

impl Session {
    /// After a tick of the pacing timer, and what is to be done. A value
    /// from the channel is driven, an empty channel is passed over, and a
    /// closed one ends the session.
    pub open spec fn ticked(self, polled: Polled) -> (Session, Action) {
        if self is Terminated {
            (Session::Terminated, Action::Stop)
        } else {
            match polled {
                Polled::Value(level) => (self, self.driven(level)),
                Polled::Empty => (self, Action::Idle),
                Polled::Closed => (Session::Terminated, Action::Stop),
            }
        }
    }

    /// After an event of the loop, and what is to be done.
    pub open spec fn stepped(self, event: LoopEvent) -> (Session, Action) {
        if self is Terminated {
            (Session::Terminated, Action::Stop)
        } else {
            match event {
                LoopEvent::Server(ServerEvent::ServerDisconnect) => (
                    Session::Terminated,
                    Action::Stop,
                ),
                LoopEvent::Server(ServerEvent::DeviceAdded(device)) => (
                    self.device_added(device),
                    Action::Idle,
                ),
                LoopEvent::Server(ServerEvent::DeviceRemoved(device)) => (
                    self.device_removed(device),
                    Action::Idle,
                ),
                LoopEvent::Server(ServerEvent::Other) => (self, Action::Idle),
                LoopEvent::StreamEnded => (Session::Terminated, Action::Stop),
                LoopEvent::Tick(polled) => self.ticked(polled),
                LoopEvent::CommandFailed => (self, Action::Idle),
            }
        }
    }

    /// After each of `events` in turn.
    pub open spec fn ran(self, events: Seq<LoopEvent>) -> Session
        decreases events.len(),
    {
        if events.len() == 0 {
            self
        } else {
            self.ran(events.drop_last()).stepped(events.last()).0
        }
    }

    /// Takes a tick of the pacing timer with what the one look into the
    /// intensity channel gave.
    pub fn on_tick(&mut self, polled: Polled) -> (action: Action)
        ensures
            (*final(self), action) == old(self).ticked(polled),
    {
        if self.is_terminated() {
            return Action::Stop;
        }
        match polled {
            Polled::Value(level) => self.drive(level),
            Polled::Empty => Action::Idle,
            Polled::Closed => {
                *self = Session::Terminated;
                Action::Stop
            },
        }
    }

    /// Takes one event of the loop and says what is to be done.
    pub fn step(&mut self, event: LoopEvent) -> (action: Action)
        ensures
            (*final(self), action) == old(self).stepped(event),
            action is Stop <==> *final(self) is Terminated,
            old(self).wf() ==> final(self).wf(),
    {
        if self.is_terminated() {
            return Action::Stop;
        }
        match event {
            LoopEvent::Server(ServerEvent::ServerDisconnect) => {
                self.on_server_disconnect();
                Action::Stop
            },
            LoopEvent::Server(ServerEvent::DeviceAdded(device)) => {
                self.on_device_added(device);
                Action::Idle
            },
            LoopEvent::Server(ServerEvent::DeviceRemoved(device)) => {
                self.on_device_removed(device);
                Action::Idle
            },
            LoopEvent::Server(ServerEvent::Other) => Action::Idle,
            LoopEvent::StreamEnded => {
                self.on_server_disconnect();
                Action::Stop
            },
            LoopEvent::Tick(polled) => self.on_tick(polled),
            LoopEvent::CommandFailed => Action::Idle,
        }
    }

    /// Takes a tick of the pacing timer: looks into the intensity channel
    /// once, without waiting, and decides on what is found there. While the
    /// consumer can count on a value, the oldest of them is taken out and
    /// driven.
    pub fn on_timer(&mut self, consumer: &mut Consumer) -> (action: Action)
        ensures
            old(consumer).backlog().len() > 0 ==> (*final(self), action) == old(self).ticked(
                Polled::Value(old(consumer).backlog()[0]),
            ) && final(consumer).backlog() == old(consumer).backlog().drop_first(),
            old(consumer).backlog().len() == 0 ==> final(consumer).backlog() == old(
                consumer,
            ).backlog(),
            exists|polled: Polled| (*final(self), action) == #[trigger] old(self).ticked(polled),
            action is Stop <==> *final(self) is Terminated,
            action matches Action::Vibrate { device, .. } ==> old(self).bound() == Some(device),
            !(*final(self) is Terminated) ==> *final(self) == *old(self),
    {
        let polled = consumer.try_receive();
        self.on_tick(polled)
    }
}

/// The queue length and the tick interval for a send rate, in commands a
/// second.
pub fn pacing(send_rate: u32) -> (r: Result<Pacing, PacingError>)
    ensures
        r is Ok <==> 0 < send_rate <= 100,
        r matches Ok(p) ==> p.queue_slots == queue_slots_for(send_rate) && p.tick_millis
            == tick_millis_for(send_rate) && p.queue_slots >= 1 && p.tick_millis >= 10,
        r == Err::<Pacing, PacingError>(PacingError::RateZero) <==> send_rate == 0,
        r == Err::<Pacing, PacingError>(PacingError::RateTooHigh) <==> send_rate > 100,
{
    if send_rate == 0 {
        return Err(PacingError::RateZero);
    }
    if send_rate > 100 {
        return Err(PacingError::RateTooHigh);
    }
    let queue_slots: usize = (100 / send_rate) as usize;
    let tick_millis: u64 = (2000 + send_rate as u64) / (2 * send_rate as u64);
    proof {
        assert(100int / send_rate as int >= 1) by (nonlinear_arith)
            requires
                0 < send_rate <= 100,
        ;
        assert((2000 + send_rate) / (2 * send_rate) >= 10) by (nonlinear_arith)
            requires
                0 < send_rate <= 100,
        ;
    }
    Ok(Pacing { queue_slots, tick_millis })
}

/// The intensity channel for a send rate, in commands a second.
pub fn open_channel(send_rate: u32) -> (r: Result<IntensityChannel, PacingError>)
    ensures
        r is Ok <==> 0 < send_rate <= 100,
        r matches Ok(ch) ==> ch@ == Seq::<Intensity>::empty() && ch.capacity() == queue_slots_for(
            send_rate,
        ) && ch.room() == queue_slots_for(send_rate),
        r == Err::<IntensityChannel, PacingError>(PacingError::RateZero) <==> send_rate == 0,
        r == Err::<IntensityChannel, PacingError>(PacingError::RateTooHigh) <==> send_rate > 100,
{
    match pacing(send_rate) {
        Ok(p) => {
            proof {
                assert(100int / send_rate as int <= 100) by (nonlinear_arith)
                    requires
                        0 < send_rate <= 100,
                ;
            }
            match IntensityChannel::bounded(p.queue_slots) {
                Some(ch) => Ok(ch),
                None => Err(PacingError::RateTooHigh),
            }
        },
        Err(e) => Err(e),
    }
}

/// The queue length and the tick interval for a send rate, in thousandths
/// of a command a second.
pub fn pacing_millihertz(send_rate: u32) -> (r: Result<Pacing, PacingError>)
    ensures
        r is Ok <==> 0 < send_rate <= HIGHEST_MILLIHERTZ,
        r matches Ok(p) ==> p.queue_slots == queue_slots_for_millihertz(send_rate) && p.tick_millis
            == tick_millis_for_millihertz(send_rate) && 1 <= p.queue_slots <= 100_000
            && p.tick_millis >= 10,
        r == Err::<Pacing, PacingError>(PacingError::RateZero) <==> send_rate == 0,
        r == Err::<Pacing, PacingError>(PacingError::RateTooHigh) <==> send_rate
            > HIGHEST_MILLIHERTZ,
{
    if send_rate == 0 {
        return Err(PacingError::RateZero);
    }
    if send_rate > HIGHEST_MILLIHERTZ {
        return Err(PacingError::RateTooHigh);
    }
    let queue_slots: usize = (100_000 / send_rate) as usize;
    let tick_millis: u64 = (2_000_000 + send_rate as u64) / (2 * send_rate as u64);
    proof {
        assert(1 <= 100_000int / send_rate as int <= 100_000) by (nonlinear_arith)
            requires
                0 < send_rate <= 100_000,
        ;
        assert((2_000_000 + send_rate) / (2 * send_rate) >= 10) by (nonlinear_arith)
            requires
                0 < send_rate <= 100_000,
        ;
    }
    Ok(Pacing { queue_slots, tick_millis })
}

/// The intensity channel for a send rate, in thousandths of a command a
/// second.
pub fn open_channel_millihertz(send_rate: u32) -> (r: Result<IntensityChannel, PacingError>)
    ensures
        r is Ok <==> 0 < send_rate <= HIGHEST_MILLIHERTZ,
        r matches Ok(ch) ==> ch@ == Seq::<Intensity>::empty() && ch.capacity()
            == queue_slots_for_millihertz(send_rate) && ch.room() == queue_slots_for_millihertz(
            send_rate,
        ),
        r == Err::<IntensityChannel, PacingError>(PacingError::RateZero) <==> send_rate == 0,
        r == Err::<IntensityChannel, PacingError>(PacingError::RateTooHigh) <==> send_rate
            > HIGHEST_MILLIHERTZ,
{
    match pacing_millihertz(send_rate) {
        Ok(p) => match IntensityChannel::bounded(p.queue_slots) {
            Some(ch) => Ok(ch),
            None => Err(PacingError::RateTooHigh),
        },
        Err(e) => Err(e),
    }
}

/// A whole number of commands a second is paced alike in both units.
pub proof fn lemma_millihertz_agrees_with_hertz(send_rate: u32)
    requires
        0 < send_rate,
        1000 * send_rate <= u32::MAX,
    ensures
        queue_slots_for_millihertz((1000 * send_rate) as u32) == queue_slots_for(send_rate),
        tick_millis_for_millihertz((1000 * send_rate) as u32) == tick_millis_for(send_rate),
{
    let r = send_rate as int;
    vstd::arithmetic::div_mod::lemma_div_multiples_vanish_quotient(1000, 100, r);
    vstd::arithmetic::div_mod::lemma_div_multiples_vanish_quotient(1000, 2000 + r, 2 * r);
    assert(1000 * 100 == 100_000);
    assert(1000 * (2000 + r) == 2 * 1_000_000 + 1000 * r);
    assert(1000 * (2 * r) == 2 * (1000 * r));
}

/// A session that is over stays over, whatever comes.
pub proof fn lemma_terminated_is_final(events: Seq<LoopEvent>)
    ensures
        Session::Terminated.ran(events) == Session::Terminated,
    decreases events.len(),
{
    if events.len() > 0 {
        lemma_terminated_is_final(events.drop_last());
    }
}

/// No event of the loop binds a device that does not vibrate.
pub proof fn lemma_ran_keeps_wf(session: Session, events: Seq<LoopEvent>)
    requires
        session.wf(),
    ensures
        session.ran(events).wf(),
    decreases events.len(),
{
    if events.len() > 0 {
        lemma_ran_keeps_wf(session, events.drop_last());
    }
}

/// Whether an event announces a vibrating device other than `device`.
pub open spec fn announces_another(event: LoopEvent, device: Device) -> bool {
    event matches LoopEvent::Server(ServerEvent::DeviceAdded(other)) && other.vibrates && other.id
        != device.id
}

/// Whether an event announces a vibrating device.
pub open spec fn announces_any(event: LoopEvent) -> bool {
    event matches LoopEvent::Server(ServerEvent::DeviceAdded(other)) && other.vibrates
}

/// A session holds no device but, at most, `device`.
pub open spec fn holds_at_most(session: Session, device: Device) -> bool {
    session.bound() matches Some(held) ==> held.id == device.id
}

/// Events that announce no other vibrating device leave a session that
/// holds at most `device` holding at most `device`.
proof fn lemma_ran_holds_at_most(session: Session, device: Device, events: Seq<LoopEvent>)
    requires
        holds_at_most(session, device),
        forall|i: int| 0 <= i < events.len() ==> !announces_another(#[trigger] events[i], device),
    ensures
        holds_at_most(session.ran(events), device),
    decreases events.len(),
{
    if events.len() > 0 {
        let head = events.drop_last();
        assert forall|i: int| 0 <= i < head.len() implies !announces_another(
            #[trigger] head[i],
            device,
        ) by {
            assert(head[i] == events[i]);
        }
        lemma_ran_holds_at_most(session, device, head);
        assert(!announces_another(events[events.len() - 1], device));
    }
}

/// Events that announce no vibrating device leave a session without a
/// device without one.
proof fn lemma_ran_stays_unbound(session: Session, events: Seq<LoopEvent>)
    requires
        session.bound() is None,
        forall|i: int| 0 <= i < events.len() ==> !announces_any(#[trigger] events[i]),
    ensures
        session.ran(events).bound() is None,
    decreases events.len(),
{
    if events.len() > 0 {
        let head = events.drop_last();
        assert forall|i: int| 0 <= i < head.len() implies !announces_any(#[trigger] head[i]) by {
            assert(head[i] == events[i]);
        }
        lemma_ran_stays_unbound(session, head);
        assert(!announces_any(events[events.len() - 1]));
    }
}

/// Running one sequence of events after another is running both in a row.
proof fn lemma_ran_concat(session: Session, first: Seq<LoopEvent>, second: Seq<LoopEvent>)
    ensures
        session.ran(first + second) == session.ran(first).ran(second),
    decreases second.len(),
{
    if second.len() == 0 {
        assert(first + second =~= first);
    } else {
        lemma_ran_concat(session, first, second.drop_last());
        assert((first + second).drop_last() =~= first + second.drop_last());
        assert((first + second).last() == second.last());
    }
}

/// Once a vibrating device was announced and later withdrawn, driving
/// sends nothing: whatever the session was and whatever came before, as
/// long as no other vibrating device was announced in between and none
/// at all afterwards.
pub proof fn lemma_removed_device_is_not_driven(
    session: Session,
    before: Seq<LoopEvent>,
    device: Device,
    between: Seq<LoopEvent>,
    withdrawn: Device,
    after: Seq<LoopEvent>,
    level: Intensity,
)
    requires
        device.vibrates,
        withdrawn.id == device.id,
        forall|i: int| 0 <= i < between.len() ==> !announces_another(#[trigger] between[i], device),
        forall|i: int| 0 <= i < after.len() ==> !announces_any(#[trigger] after[i]),
    ensures
        session.ran(
            before + seq![LoopEvent::Server(ServerEvent::DeviceAdded(device))] + between
                + seq![LoopEvent::Server(ServerEvent::DeviceRemoved(withdrawn))] + after,
        ).driven(level) == Action::Idle,
{
    let added = seq![LoopEvent::Server(ServerEvent::DeviceAdded(device))];
    let removed = seq![LoopEvent::Server(ServerEvent::DeviceRemoved(withdrawn))];
    let s0 = session.ran(before);
    let s1 = s0.ran(added);
    let s2 = s1.ran(between);
    let s3 = s2.ran(removed);
    let s4 = s3.ran(after);
    lemma_ran_concat(session, before, added);
    lemma_ran_concat(session, before + added, between);
    lemma_ran_concat(session, before + added + between, removed);
    lemma_ran_concat(session, before + added + between + removed, after);
    assert(added.drop_last() =~= Seq::<LoopEvent>::empty());
    assert(s0.ran(added.drop_last()) == s0);
    assert(s1 == s0.stepped(added.last()).0);
    assert(holds_at_most(s1, device));
    lemma_ran_holds_at_most(s1, device, between);
    assert(removed.drop_last() =~= Seq::<LoopEvent>::empty());
    assert(s2.ran(removed.drop_last()) == s2);
    assert(s3 == s2.stepped(removed.last()).0);
    assert(s3.bound() is None);
    lemma_ran_stays_unbound(s3, after);
}

} // verus!
