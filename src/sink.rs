//! The sink negotiation engine: it follows the transceiver's connection
//! state, answers a source's capabilities with a request for the highest
//! fixed voltage on offer, and tracks the requested and the active contract.

use crate::header::{DataMessageType, Header, MessageType, SpecificationRevision};
use crate::message::{objects_get, objects_len, objects_of, Message};
use crate::pdo::{
    fixed_max_current, fixed_voltage, request_word, FixedVariableRequestDataObject,
    PowerDataObject,
};
use crate::wire::le_bytes;
use crate::{Instant, PowerRole};
use vstd::prelude::*;

verus! {

/// Most transceiver events handled in one call of `Sink::poll`, so that a
/// transceiver whose queue never empties cannot starve the caller.
pub const MAX_EVENTS_PER_POLL: usize = 32;

/// Voltage of USB default power, in mV, in force whenever no PD contract is.
pub const DEFAULT_VOLTAGE: u16 = 5000;

/// Maximum current of USB default power, in mA.
pub const DEFAULT_MAX_CURRENT: u16 = 900;

/// One call made on the transceiver, with what it returned.
pub enum DriverCall {
    Init,
    Poll(Instant),
    GetEvent(Option<Event>),
    SendMessage(Header, Seq<u8>),
    State(State),
}

/// The transceiver that the engine drives: it detects attachment, runs the
/// CC line, and sends and receives frames. Its model is the log of the calls
/// made on it; each method adds its own call, and nothing else, to the log.
pub trait Driver {
    /// The calls made on the transceiver so far, oldest first. The engine's
    /// proofs treat it as unknown and hold for any log that meets the
    /// methods' contracts. The default body only lets an implementation that
    /// is not verified leave it out; a verified one defines its own log.
    closed spec fn calls(&self) -> Seq<DriverCall> {
        Seq::empty()
    }

    fn init(&mut self)
        ensures
            final(self).calls() == old(self).calls().push(DriverCall::Init),
    ;

    fn poll(&mut self, now: Instant)
        ensures
            final(self).calls() == old(self).calls().push(DriverCall::Poll(now)),
    ;

    fn get_event(&mut self) -> (r: Option<Event>)
        ensures
            final(self).calls() == old(self).calls().push(DriverCall::GetEvent(r)),
    ;

    fn send_message(&mut self, header: Header, payload: &[u8])
        ensures
            final(self).calls() == old(self).calls().push(DriverCall::SendMessage(header, payload@)),
    ;

    fn state(&mut self) -> (r: State)
        ensures
            final(self).calls() == old(self).calls().push(DriverCall::State(r)),
    ;
}

/// Connection state of the transceiver.
#[derive(Clone, Copy, Debug, PartialEq, Eq, Structural)]
pub enum State {
    /// VBUS is present, monitoring for activity on CC1/CC2
    Usb20,
    /// Activity on CC1/CC2 has been detected, waiting for first USB PD message
    UsbPdWait,
    /// Successful USB PD communication established
    UsbPd,
    /// Wait period after a failure
    UsbRetryWait,
}

/// Event queued by the transceiver for the engine.
pub enum Event {
    StateChanged,
    MessageReceived(Message),
}

/// Power delivery protocol in use, as the engine sees it.
#[derive(Clone, Copy, Debug, PartialEq, Eq, Structural)]
pub enum Protocol {
    /// No USB PD communication (5V only)
    Usb20,
    /// USB PD communication
    UsbPd,
}

/// Power supply type
#[derive(Clone, Copy, Debug, PartialEq, Eq, Structural)]
pub enum SupplyType {
    /// Fixed supply (Vmin = Vmax)
    Fixed,
    /// Battery
    Battery,
    /// Variable supply (non-battery)
    Variable,
    /// Programmable power supply
    Pps,
}

/// A negotiation that could not go on; the sink stays on its current power.
#[derive(Clone, Copy, Debug, PartialEq, Eq, Structural)]
pub enum SinkError {
    /// The source offered no fixed supply.
    NoAcceptableOffer,
    /// A message that the engine cannot handle reached it.
    UnsupportedMessage,
}

/// What the engine reports to its caller.
pub enum CallbackEvent {
    /// Power delivery protocol has changed
    ProtocolChanged,
    /// Source capabilities have changed (power has been requested)
    SourceCapabilitiesChanged(heapless::Vec<PowerDataObject, 8>),
    /// Requested power has been accepted (but not ready yet)
    PowerAccepted,
    /// Requested power has been rejected
    PowerRejected,
    /// Requested power is now ready
    PowerReady,
    /// Negotiation failed
    Failure(SinkError),
}

/// The negotiation state of a sink. Voltages are in mV, currents in mA; the
/// requested values are zero while no request is outstanding.
pub struct NegotiationState {
    pub protocol: Protocol,
    pub requested_voltage: u16,
    pub requested_max_current: u16,
    pub active_voltage: u16,
    pub active_max_current: u16,
    pub spec_rev: SpecificationRevision,
}

/// The protocol that a transceiver state stands for: PD only once PD
/// communication is established.
pub open spec fn protocol_of(state: State) -> Protocol {
    if state == State::UsbPd {
        Protocol::UsbPd
    } else {
        Protocol::Usb20
    }
}

/// The state after the transceiver reports `state`: outside PD the active
/// contract falls back to USB default power.
pub open spec fn after_state(n: NegotiationState, state: State) -> NegotiationState {
    if protocol_of(state) == Protocol::UsbPd {
        NegotiationState { protocol: Protocol::UsbPd, ..n }
    } else {
        NegotiationState {
            protocol: Protocol::Usb20,
            active_voltage: DEFAULT_VOLTAGE,
            active_max_current: DEFAULT_MAX_CURRENT,
            ..n
        }
    }
}

/// The state after a request for `voltage` mV and `max_current` mA is sent.
pub open spec fn after_request(n: NegotiationState, voltage: u16, max_current: u16) -> NegotiationState {
    NegotiationState { requested_voltage: voltage, requested_max_current: max_current, ..n }
}

/// The state after the source rejects the outstanding request.
pub open spec fn after_reject(n: NegotiationState) -> NegotiationState {
    NegotiationState { requested_voltage: 0, requested_max_current: 0, ..n }
}

/// The state after the source reports the requested power ready.
pub open spec fn after_ready(n: NegotiationState) -> NegotiationState {
    NegotiationState {
        active_voltage: n.requested_voltage,
        active_max_current: n.requested_max_current,
        requested_voltage: 0,
        requested_max_current: 0,
        ..n
    }
}

/// Whether the offer holds a fixed supply.
pub open spec fn has_fixed_offer(objs: Seq<PowerDataObject>) -> bool {
    exists|j: int| 0 <= j < objs.len() && #[trigger] objs[j] is FixedSupply
}

/// Voltage field (50 mV units) of an object, where it is a fixed supply.
pub open spec fn offer_voltage(p: PowerDataObject) -> u16 {
    fixed_voltage(p->FixedSupply_0.0)
}

/// Whether `i` is the offer to pick: a fixed supply of the highest voltage
/// among the fixed supplies, and the last of those with that voltage.
pub open spec fn is_selected_offer(objs: Seq<PowerDataObject>, i: int) -> bool {
    &&& 0 <= i < objs.len()
    &&& objs[i] is FixedSupply
    &&& forall|j: int|
        0 <= j < objs.len() && #[trigger] objs[j] is FixedSupply ==> offer_voltage(objs[j])
            <= offer_voltage(objs[i])
    &&& forall|j: int|
        i < j < objs.len() && #[trigger] objs[j] is FixedSupply ==> offer_voltage(objs[j])
            < offer_voltage(objs[i])
}

/// The current field of a request for `max_current` mA: rounded to the
/// nearest 10 mA unit, and no more than the field's 1023.
pub open spec fn request_current(max_current: u16) -> u16 {
    let units = (max_current + 5) / 10;
    if units > 0x3ff { 0x3ff } else { units as u16 }
}

/// The header of a Request that a sink sends under revision `spec_rev`.
pub open spec fn request_header(spec_rev: SpecificationRevision) -> Header {
    Header {
        message_type: MessageType::Data(DataMessageType::Request),
        num_objects: 1,
        spec_revision: spec_rev,
        port_power_role: PowerRole::Sink,
    }
}

/// The frame that requests `max_current` mA from the object at `position`
/// (1-based) of the offer.
pub open spec fn request_frame(spec_rev: SpecificationRevision, position: int, max_current: u16) -> DriverCall {
    DriverCall::SendMessage(
        request_header(spec_rev),
        le_bytes(request_word(position as u8, request_current(max_current))),
    )
}

/// The index of the offer to pick (meaningful where the offer holds a fixed supply).
pub open spec fn selected_offer(objs: Seq<PowerDataObject>) -> int {
    choose|i: int| is_selected_offer(objs, i)
}

/// Voltage (mV) and maximum current (mA) of the offer to pick.
pub open spec fn selected_voltage(objs: Seq<PowerDataObject>) -> u16 {
    (offer_voltage(objs[selected_offer(objs)]) * 50) as u16
}

pub open spec fn selected_max_current(objs: Seq<PowerDataObject>) -> u16 {
    (fixed_max_current(objs[selected_offer(objs)]->FixedSupply_0.0) * 10) as u16
}

/// Whether the message is a Source Capabilities offer that holds a fixed supply.
pub open spec fn is_answerable_offer(m: Message) -> bool {
    m is SourceCapabilities && has_fixed_offer(objects_of(m->SourceCapabilities_0))
}

/// The state after handling message `m`.
pub open spec fn msg_state(n: NegotiationState, m: Message) -> NegotiationState {
    match m {
        Message::Reject => after_reject(n),
        Message::Ready => after_ready(n),
        Message::SourceCapabilities(caps) => if has_fixed_offer(objects_of(caps)) {
            after_request(n, selected_voltage(objects_of(caps)), selected_max_current(objects_of(caps)))
        } else {
            n
        },
        _ => n,
    }
}

/// The frames sent while handling message `m`: one Request, at the picked
/// offer's 1-based position, for an offer with a fixed supply; none otherwise.
pub open spec fn msg_calls(n: NegotiationState, m: Message) -> Seq<DriverCall> {
    if is_answerable_offer(m) {
        let objs = objects_of(m->SourceCapabilities_0);
        seq![request_frame(n.spec_rev, selected_offer(objs) + 1, selected_max_current(objs))]
    } else {
        Seq::empty()
    }
}

/// The notification given for message `m`.
pub open spec fn msg_note(m: Message) -> Option<CallbackEvent> {
    match m {
        Message::Accept => Some(CallbackEvent::PowerAccepted),
        Message::Reject => Some(CallbackEvent::PowerRejected),
        Message::Ready => Some(CallbackEvent::PowerReady),
        Message::SourceCapabilities(caps) => if has_fixed_offer(objects_of(caps)) {
            Some(CallbackEvent::SourceCapabilitiesChanged(caps))
        } else {
            Some(CallbackEvent::Failure(SinkError::NoAcceptableOffer))
        },
        Message::Unknown => Some(CallbackEvent::Failure(SinkError::UnsupportedMessage)),
        _ => None,
    }
}

/// `notes` with the notification `e`, if any, added.
pub open spec fn with_note(notes: Seq<CallbackEvent>, e: Option<CallbackEvent>) -> Seq<CallbackEvent> {
    match e {
        Some(x) => notes.push(x),
        None => notes,
    }
}

/// The message that a `get_event` call returned, if it returned one.
pub open spec fn received_msg(c: DriverCall) -> Option<Message> {
    match c {
        DriverCall::GetEvent(Some(Event::MessageReceived(m))) => Some(m),
        _ => None,
    }
}

/// Reads `log` as a sequence of rounds of `Sink::poll` that each fetched and
/// handled one event, starting from state `n`. A round is `Poll(now)`, then
/// `GetEvent` of a state change followed by one `State` reading (taken over,
/// notifying a change of protocol), or `GetEvent` of a message followed by
/// exactly the frames `msg_calls` gives for it (handled as `handle_msg`
/// does). Gives the final state, the notifications in order and the number of
/// rounds; `None` where `log` is no such sequence.
pub open spec fn handled_rounds(n: NegotiationState, log: Seq<DriverCall>, now: Instant) -> Option<
    (NegotiationState, Seq<CallbackEvent>, nat),
>
    decreases log.len(),
{
    let len = log.len() as int;
    if len == 0 {
        Some((n, Seq::empty(), 0))
    } else {
        let x = log.last();
        if x is State {
            if len >= 3 && log[len - 2] == DriverCall::GetEvent(Some(Event::StateChanged))
                && log[len - 3] == DriverCall::Poll(now) {
                match handled_rounds(n, log.subrange(0, len - 3), now) {
                    Some((m, notes, k)) => {
                        let st = x->State_0;
                        Some(
                            (
                                after_state(m, st),
                                if protocol_of(st) != m.protocol {
                                    notes.push(CallbackEvent::ProtocolChanged)
                                } else {
                                    notes
                                },
                                k + 1,
                            ),
                        )
                    },
                    None => None,
                }
            } else {
                None
            }
        } else if x is SendMessage {
            if len >= 3 && log[len - 3] == DriverCall::Poll(now) && received_msg(log[len - 2]) is Some
                && is_answerable_offer(received_msg(log[len - 2])->0) {
                let msg = received_msg(log[len - 2])->0;
                match handled_rounds(n, log.subrange(0, len - 3), now) {
                    Some((m, notes, k)) => if x == msg_calls(m, msg)[0] {
                        Some((msg_state(m, msg), with_note(notes, msg_note(msg)), k + 1))
                    } else {
                        None
                    },
                    None => None,
                }
            } else {
                None
            }
        } else if received_msg(x) is Some && !is_answerable_offer(received_msg(x)->0) {
            let msg = received_msg(x)->0;
            if len >= 2 && log[len - 2] == DriverCall::Poll(now) {
                match handled_rounds(n, log.subrange(0, len - 2), now) {
                    Some((m, notes, k)) => Some(
                        (msg_state(m, msg), with_note(notes, msg_note(msg)), k + 1),
                    ),
                    None => None,
                }
            } else {
                None
            }
        } else {
            None
        }
    }
}

/// The state and notifications after one call of `Sink::poll(now)` made
/// the calls in `log`, starting from state `n`; `None` where `log` is not
/// what such a call makes. The call handles rounds (see `handled_rounds`)
/// until `get_event` returns nothing, which ends the log with `Poll(now)`,
/// `GetEvent(None)` after fewer than `MAX_EVENTS_PER_POLL` rounds, or until
/// `MAX_EVENTS_PER_POLL` rounds have been handled.
pub open spec fn poll_outcome(n: NegotiationState, log: Seq<DriverCall>, now: Instant) -> Option<
    (NegotiationState, Seq<CallbackEvent>),
> {
    let len = log.len() as int;
    if len >= 2 && log[len - 1] == DriverCall::GetEvent(None) && log[len - 2] == DriverCall::Poll(
        now,
    ) {
        match handled_rounds(n, log.subrange(0, len - 2), now) {
            Some((m, notes, k)) => if k < MAX_EVENTS_PER_POLL {
                Some((m, notes))
            } else {
                None
            },
            None => None,
        }
    } else {
        match handled_rounds(n, log, now) {
            Some((m, notes, k)) => if k == MAX_EVENTS_PER_POLL {
                Some((m, notes))
            } else {
                None
            },
            None => None,
        }
    }
}

/// The calls of `calls` after its first `from`.
pub open spec fn calls_since(calls: Seq<DriverCall>, from: int) -> Seq<DriverCall> {
    calls.subrange(from, calls.len() as int)
}

proof fn lemma_calls_since_push(calls: Seq<DriverCall>, from: int, x: DriverCall)
    requires
        0 <= from <= calls.len(),
    ensures
        calls_since(calls.push(x), from) == calls_since(calls, from).push(x),
        calls_since(calls.push(x), from).drop_last() == calls_since(calls, from),
        calls.push(x).subrange(0, from) == calls.subrange(0, from),
{
    assert(calls_since(calls.push(x), from) =~= calls_since(calls, from).push(x));
    assert(calls_since(calls.push(x), from).drop_last() =~= calls_since(calls, from));
    assert(calls.push(x).subrange(0, from) =~= calls.subrange(0, from));
}

/// Which transceiver state the engine maps to which protocol: both waiting
/// states count as plain USB, and entering either resets the active contract
/// to USB default power.
pub proof fn lemma_waiting_states_collapse(n: NegotiationState)
    ensures
        protocol_of(State::UsbPdWait) == Protocol::Usb20,
        protocol_of(State::UsbRetryWait) == Protocol::Usb20,
        after_state(n, State::UsbPdWait) == after_state(n, State::UsbRetryWait),
        after_state(n, State::UsbPdWait).protocol == Protocol::Usb20,
        after_state(n, State::UsbPdWait).active_voltage == DEFAULT_VOLTAGE,
        after_state(n, State::UsbPdWait).active_max_current == DEFAULT_MAX_CURRENT,
{
}

/// A request followed by "ready" makes the requested power the active
/// contract and leaves no request outstanding.
pub proof fn lemma_request_then_ready(n: NegotiationState, voltage: u16, max_current: u16)
    ensures
        after_ready(after_request(n, voltage, max_current)).active_voltage == voltage,
        after_ready(after_request(n, voltage, max_current)).active_max_current == max_current,
        after_ready(after_request(n, voltage, max_current)).requested_voltage == 0,
        after_ready(after_request(n, voltage, max_current)).requested_max_current == 0,
{
}

/// A request followed by a rejection leaves no request outstanding and the
/// active contract as it was before the request.
pub proof fn lemma_request_then_reject(n: NegotiationState, voltage: u16, max_current: u16)
    ensures
        after_reject(after_request(n, voltage, max_current)).requested_voltage == 0,
        after_reject(after_request(n, voltage, max_current)).requested_max_current == 0,
        after_reject(after_request(n, voltage, max_current)).active_voltage == n.active_voltage,
        after_reject(after_request(n, voltage, max_current)).active_max_current
            == n.active_max_current,
{
}

/// At most one index of an offer is the one to pick.
pub proof fn lemma_selected_offer_unique(objs: Seq<PowerDataObject>, i: int, k: int)
    requires
        is_selected_offer(objs, i),
        is_selected_offer(objs, k),
    ensures
        i == k,
{
    if i < k {
        assert(objs[k] is FixedSupply);
    } else if k < i {
        assert(objs[i] is FixedSupply);
    }
}

/// The sink negotiation engine, owning its transceiver.
pub struct Sink<DRIVER> {
    pd_controller: DRIVER,
    protocol_: Protocol,
    /// Requested voltage (in mV)
    requested_voltage: u16,
    /// Requested maximum current (in mA)
    requested_max_current: u16,
    /// Active voltage (in mV)
    active_voltage: u16,
    /// Active maximum current (in mA)
    active_max_current: u16,
    /// Specification revision put in the headers this sink sends
    spec_rev: SpecificationRevision,
}

impl<DRIVER> View for Sink<DRIVER> {
    type V = NegotiationState;

    closed spec fn view(&self) -> NegotiationState {
        NegotiationState {
            protocol: self.protocol_,
            requested_voltage: self.requested_voltage,
            requested_max_current: self.requested_max_current,
            active_voltage: self.active_voltage,
            active_max_current: self.active_max_current,
            spec_rev: self.spec_rev,
        }
    }
}

impl<DRIVER: Driver> Sink<DRIVER> {
    /// The transceiver that the sink owns.
    pub closed spec fn driver(&self) -> DRIVER {
        self.pd_controller
    }

    /// The calls made on the sink's transceiver so far.
    pub open spec fn calls(&self) -> Seq<DriverCall> {
        self.driver().calls()
    }

    /// A sink on USB default power with no request outstanding, that
    /// announces revision 2.0 in its headers. It keeps `driver` and makes no
    /// call on it.
    pub fn new(driver: DRIVER) -> (r: Self)
        ensures
            r@ == (NegotiationState {
                protocol: Protocol::Usb20,
                requested_voltage: 0,
                requested_max_current: 0,
                active_voltage: DEFAULT_VOLTAGE,
                active_max_current: DEFAULT_MAX_CURRENT,
                spec_rev: SpecificationRevision::R2_0,
            }),
            r.driver() == driver,
    {
        Self {
            pd_controller: driver,
            protocol_: Protocol::Usb20,
            requested_voltage: 0,
            requested_max_current: 0,
            active_voltage: DEFAULT_VOLTAGE,
            active_max_current: DEFAULT_MAX_CURRENT,
            spec_rev: SpecificationRevision::R2_0,
        }
    }

    /// Initializes the transceiver, then reads its state and takes it over.
    /// No notification is given for this first reading: the caller learns of
    /// changes from `poll` only.
    pub fn init(&mut self)
        ensures
            exists|s: State|
                #![trigger after_state(old(self)@, s)]
                final(self).calls() == old(self).calls().push(DriverCall::Init).push(
                    DriverCall::State(s),
                ) && final(self)@ == after_state(old(self)@, s),
    {
        let ghost before = self@;
        self.pd_controller.init();
        assert(self@ == before);
        self.update_protocol();
    }

    /// Runs the transceiver and handles the events it queues, each before the
    /// next is fetched, until its queue is empty or `MAX_EVENTS_PER_POLL`
    /// events have been handled. Its calls on the transceiver are rounds of
    /// `poll(now)` then `get_event()`, followed by one state reading for a
    /// state change and by the frames of `msg_calls` for a message; those
    /// calls, the state it leaves and the notifications it returns, in order,
    /// are exactly as `poll_outcome` reads them.
    pub fn poll(&mut self, now: Instant) -> (events: Vec<CallbackEvent>)
        ensures
            final(self).calls().len() >= old(self).calls().len(),
            final(self).calls().subrange(0, old(self).calls().len() as int) == old(self).calls(),
            poll_outcome(
                old(self)@,
                calls_since(final(self).calls(), old(self).calls().len() as int),
                now,
            ) == Some((final(self)@, events@)),
    {
        let ghost start = self.calls().len() as int;
        let ghost n0 = self@;
        let mut events: Vec<CallbackEvent> = Vec::new();
        let mut n: usize = 0;
        let mut done = false;
        assert(calls_since(self.calls(), start) =~= Seq::<DriverCall>::empty());
        while n < MAX_EVENTS_PER_POLL && !done
            invariant
                n <= MAX_EVENTS_PER_POLL,
                start == old(self).calls().len(),
                n0 == old(self)@,
                self.calls().len() >= start,
                self.calls().subrange(0, start) == old(self).calls(),
                !done ==> handled_rounds(n0, calls_since(self.calls(), start), now) == Some(
                    (self@, events@, n as nat),
                ),
                done ==> poll_outcome(n0, calls_since(self.calls(), start), now) == Some(
                    (self@, events@),
                ),
            decreases MAX_EVENTS_PER_POLL - n,
        {
            let ghost st = self@;
            let ghost ev0 = events@;
            let ghost c0 = self.calls();
            let ghost p0 = calls_since(c0, start);
            self.pd_controller.poll(now);
            assert(self@ == st);
            proof {
                lemma_calls_since_push(c0, start, DriverCall::Poll(now));
            }
            let ghost c1 = self.calls();
            let evt = self.pd_controller.get_event();
            assert(self@ == st);
            let ghost c2 = self.calls();
            proof {
                lemma_calls_since_push(c1, start, c2.last());
            }
            let ghost p2 = calls_since(c2, start);
            assert(p2.subrange(0, p2.len() - 2) =~= p0);
            match evt {
                None => {
                    done = true;
                },
                Some(Event::StateChanged) => {
                    let changed = self.update_protocol();
                    proof {
                        lemma_calls_since_push(c2, start, self.calls().last());
                        let p3 = calls_since(self.calls(), start);
                        assert(p3.subrange(0, p3.len() - 3) =~= p0);
                    }
                    if changed {
                        events.push(CallbackEvent::ProtocolChanged);
                    }
                },
                Some(Event::MessageReceived(message)) => {
                    let ghost m = message;
                    assert(received_msg(p2.last()) == Some(m));
                    let note = self.handle_msg(message);
                    if let Some(e) = note {
                        events.push(e);
                    }
                    proof {
                        assert(events@ == with_note(ev0, msg_note(m)));
                        if is_answerable_offer(m) {
                            assert(self.calls() =~= c2.push(self.calls().last()));
                            lemma_calls_since_push(c2, start, self.calls().last());
                            let p3 = calls_since(self.calls(), start);
                            assert(p3.subrange(0, p3.len() - 3) =~= p0);
                            assert(p3.last() == msg_calls(st, m)[0]);
                        } else {
                            assert(self.calls() =~= c2);
                        }
                    }
                },
            }
            n = n + 1;
        }
        proof {
            let p = calls_since(self.calls(), start);
            if !done {
                assert(p.len() > 0);
                assert(p.last() != DriverCall::GetEvent(None));
            }
        }
        events
    }

    /// Reads the transceiver's state and takes it over (see `apply_state`);
    /// true where the protocol changed.
    fn update_protocol(&mut self) -> (changed: bool)
        ensures
            exists|s: State|
                #![trigger after_state(old(self)@, s)]
                final(self).calls() == old(self).calls().push(DriverCall::State(s)) && final(self)@
                    == after_state(old(self)@, s) && changed == (protocol_of(s) != old(
                    self,
                )@.protocol),
    {
        let ghost before = self@;
        let state = self.pd_controller.state();
        assert(self@ == before);
        self.apply_state(state)
    }

    /// Takes over the transceiver state `state`; true where the protocol
    /// changed. No call is made on the transceiver.
    pub fn apply_state(&mut self, state: State) -> (changed: bool)
        ensures
            final(self)@ == after_state(old(self)@, state),
            final(self).driver() == old(self).driver(),
            changed == (protocol_of(state) != old(self)@.protocol),
    {
        let old_protocol = self.protocol_;
        if state == State::UsbPd {
            self.protocol_ = Protocol::UsbPd;
        } else {
            self.protocol_ = Protocol::Usb20;
            self.active_voltage = DEFAULT_VOLTAGE;
            self.active_max_current = DEFAULT_MAX_CURRENT;
        }
        self.protocol_ != old_protocol
    }

    /// Handles one received message: the state becomes `msg_state`, the
    /// frames of `msg_calls` are sent (a Request for the picked offer at its
    /// 1-based position, and only for an offer with a fixed supply), and the
    /// notification of `msg_note` is returned.
    pub fn handle_msg(&mut self, message: Message) -> (r: Option<CallbackEvent>)
        ensures
            final(self)@ == msg_state(old(self)@, message),
            final(self).calls() == old(self).calls() + msg_calls(old(self)@, message),
            r == msg_note(message),
    {
        let ghost n = self@;
        let ghost before = self.calls();
        match message {
            Message::Accept => {
                assert(before + msg_calls(n, message) =~= before);
                Some(CallbackEvent::PowerAccepted)
            },
            Message::Reject => {
                self.requested_voltage = 0;
                self.requested_max_current = 0;
                assert(before + msg_calls(n, message) =~= before);
                Some(CallbackEvent::PowerRejected)
            },
            Message::Ready => {
                self.active_voltage = self.requested_voltage;
                self.active_max_current = self.requested_max_current;
                self.requested_voltage = 0;
                self.requested_max_current = 0;
                assert(before + msg_calls(n, message) =~= before);
                Some(CallbackEvent::PowerReady)
            },
            Message::SourceCapabilities(caps) => {
                let ghost objs = objects_of(caps);
                match select_offer(&caps) {
                    Some(index) => {
                        proof {
                            let k = selected_offer(objs);
                            assert(is_selected_offer(objs, k));
                            lemma_selected_offer_unique(objs, index as int, k);
                        }
                        let obj = objects_get(&caps, index);
                        if let PowerDataObject::FixedSupply(supply) = obj {
                            self.request_power(supply.voltage() * 50, supply.max_current() * 10, index + 1);
                        }
                        assert(before + msg_calls(n, message) =~= self.calls());
                        Some(CallbackEvent::SourceCapabilitiesChanged(caps))
                    },
                    None => {
                        assert(before + msg_calls(n, message) =~= before);
                        Some(CallbackEvent::Failure(SinkError::NoAcceptableOffer))
                    },
                }
            },
            Message::Unknown => {
                assert(before + msg_calls(n, message) =~= before);
                Some(CallbackEvent::Failure(SinkError::UnsupportedMessage))
            },
            Message::VendorDefined(_) => {
                assert(before + msg_calls(n, message) =~= before);
                None
            },
            Message::SoftReset => {
                assert(before + msg_calls(n, message) =~= before);
                None
            },
        }
    }

    /// Requests `max_current` mA from the object at `index` (1-based) of the
    /// source's offer, at `voltage` mV, and records the request as
    /// outstanding. Exactly one frame goes to the transceiver: a Request
    /// header and the request object for `index` and `max_current`; the
    /// voltage follows from the position and is not sent.
    pub fn request_power(&mut self, voltage: u16, max_current: u16, index: usize)
        requires
            index < 16,
        ensures
            final(self)@ == after_request(old(self)@, voltage, max_current),
            final(self).calls() == old(self).calls().push(
                request_frame(old(self)@.spec_rev, index as int, max_current),
            ),
    {
        let mut payload: [u8; 4] = [0u8; 4];
        self.set_request_payload_fixed(&mut payload, index as u8, voltage, max_current);
        let header = Header {
            message_type: MessageType::Data(DataMessageType::Request),
            num_objects: 1,
            spec_revision: self.spec_rev,
            port_power_role: PowerRole::Sink,
        };
        self.requested_voltage = voltage;
        self.requested_max_current = max_current;
        self.pd_controller.send_message(header, &payload);
    }

    /// Writes the request object for the offer at `obj_pos` with
    /// `current` mA (see `request_word` and `request_current`). The voltage
    /// follows from the position and is not written.
    pub fn set_request_payload_fixed(
        &self,
        payload: &mut [u8; 4],
        obj_pos: u8,
        _voltage: u16,
        current: u16,
    )
        requires
            obj_pos < 16,
        ensures
            final(payload)@ == le_bytes(request_word(obj_pos, request_current(current))),
    {
        let mut units: u32 = (current as u32 + 5) / 10;
        if units > 0x3ff {
            units = 0x3ff;
        }
        let rdo = FixedVariableRequestDataObject::sink_request(obj_pos, units as u16);
        *payload = rdo.to_bytes();
    }

    /// Protocol in use.
    pub fn protocol(&self) -> (r: Protocol)
        ensures
            r == self@.protocol,
    {
        self.protocol_
    }

    /// Voltage of the outstanding request, in mV (0 when none).
    pub fn requested_voltage(&self) -> (r: u16)
        ensures
            r == self@.requested_voltage,
    {
        self.requested_voltage
    }

    /// Maximum current of the outstanding request, in mA (0 when none).
    pub fn requested_max_current(&self) -> (r: u16)
        ensures
            r == self@.requested_max_current,
    {
        self.requested_max_current
    }

    /// Voltage of the active contract, in mV.
    pub fn active_voltage(&self) -> (r: u16)
        ensures
            r == self@.active_voltage,
    {
        self.active_voltage
    }

    /// Maximum current of the active contract, in mA.
    pub fn active_max_current(&self) -> (r: u16)
        ensures
            r == self@.active_max_current,
    {
        self.active_max_current
    }
}

/// Picks the offer to request (see `is_selected_offer`), or `None` where the
/// source offers no fixed supply.
pub fn select_offer(caps: &heapless::Vec<PowerDataObject, 8>) -> (r: Option<usize>)
    ensures
        r is None <==> !has_fixed_offer(objects_of(*caps)),
        r is Some ==> is_selected_offer(objects_of(*caps), r->0 as int) && r->0 < 8,
{
    let ghost objs = objects_of(*caps);
    let len = objects_len(caps);
    let mut best: Option<usize> = None;
    let mut best_voltage: u16 = 0;
    let mut i: usize = 0;
    while i < len
        invariant
            len == objs.len(),
            objs == objects_of(*caps),
            i <= len,
            best is None ==> forall|j: int| 0 <= j < i ==> !(#[trigger] objs[j] is FixedSupply),
            best is Some ==> {
                let b = best->0 as int;
                &&& b < i
                &&& objs[b] is FixedSupply
                &&& best_voltage == offer_voltage(objs[b])
                &&& forall|j: int|
                    0 <= j < i && #[trigger] objs[j] is FixedSupply ==> offer_voltage(objs[j])
                        <= best_voltage
                &&& forall|j: int|
                    b < j < i && #[trigger] objs[j] is FixedSupply ==> offer_voltage(objs[j])
                        < best_voltage
            },
        decreases len - i,
    {
        let obj = objects_get(caps, i);
        if let PowerDataObject::FixedSupply(supply) = obj {
            let v = supply.voltage();
            if best.is_none() || v >= best_voltage {
                best = Some(i);
                best_voltage = v;
            }
        }
        i = i + 1;
    }
    proof {
        if best is Some {
            let b = best->0 as int;
            assert(is_selected_offer(objs, b));
            assert(has_fixed_offer(objs));
        } else {
            if has_fixed_offer(objs) {
                let j = choose|j: int| 0 <= j < objs.len() && #[trigger] objs[j] is FixedSupply;
                assert(!(objs[j] is FixedSupply));
            }
        }
    }
    best
}

} // verus!
