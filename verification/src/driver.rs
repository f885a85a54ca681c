//! The transport driver as a machine that decides and never touches the bus.
//!
//! The caller owns the chip-select line, the reset line, the bus and the
//! clock. It asks the driver what to do ([`Driver::process_irq`],
//! [`Driver::process_fifo`]), performs the steps of the [`Action`] it gets in
//! order, and hands the bytes that came back from a transfer to
//! [`Driver::exchanged`], which answers with the next action. A cycle is over
//! when an action holds no transfer.
//!
//! Before every burst the controller is asked how many bytes it can take and
//! how many it has ready, with a five-byte header probe. While the answer is
//! not usable the probe is repeated, one millisecond apart.

use vstd::prelude::*;
use crate::hci::bluenrg::{BlueNrg, BlueNrgEvent};
use crate::hci::parser::{parse_packet, parse_packet_spec};
use crate::hci::wire::{le_u16_value, lemma_le_u16_value, marker, word, DecodeError};
use crate::hci::{HciCommand, HciEvent, HciPacket};
use crate::interface::Interface;
use crate::packet::{encode_command, frame_of};
use crate::queue::{PacketConsumer, PacketProducer, PacketQueue};

verus! {

/// The first byte of the probe that precedes a write.
pub const WRITE: u8 = 0x0A;

/// The first byte of the probe that precedes a read.
pub const READ: u8 = 0x0B;

/// The first byte of a usable answer to a probe.
pub const HEADER_READY: u8 = 0x02;

/// The number of bytes of a probe and of its answer.
pub const HEADER_LEN: usize = 5;

/// How long the reset line is held before the controller is started.
pub const RESET_SETTLE_MS: u32 = 5;

/// How long the driver waits before it repeats a probe.
pub const RETRY_DELAY_MS: u32 = 1;

/// One thing for the caller to do on the lines, the clock or the bus.
#[derive(Debug, Clone, Copy, PartialEq, Eq, Structural)]
pub enum Op {
    /// Drive the reset line high: the controller runs.
    Start,
    /// Drive the reset line low: the controller is held in reset.
    Stop,
    /// Drive the chip-select line low.
    Select,
    /// Drive the chip-select line high.
    Deselect,
    /// Wait this many milliseconds.
    Delay(u32),
    /// Exchange the bytes of the action with the controller, and hand what
    /// came back to `Driver::exchanged`.
    Transfer,
}

/// What the caller is to do next: the steps in order, and the bytes for the
/// transfer among them.
#[derive(Debug)]
pub struct Action {
    pub ops: Vec<Op>,
    pub data: Vec<u8>,
}

/// An action as a value of the model.
pub struct Plan {
    pub ops: Seq<Op>,
    pub data: Seq<u8>,
}

impl View for Action {
    type V = Plan;

    open spec fn view(&self) -> Plan {
        Plan { ops: self.ops@, data: self.data@ }
    }
}

/// Where the driver stands in a bus cycle.
#[derive(Debug, Clone, Copy, PartialEq, Eq, Structural)]
pub enum Phase {
    /// Nothing is on the bus.
    Idle,
    /// A read probe is on the bus.
    AwaitReady,
    /// The bytes that the controller has ready are being read.
    Reading,
    /// A write probe is on the bus; the frame waits.
    AwaitWritable,
    /// The frame is being written.
    Writing,
}

/// The driver as a value of the model.
pub struct DriverState {
    /// Whether the controller has announced that it is initialized.
    pub initialized: bool,
    pub phase: Phase,
    /// The frame that waits for the controller to have room.
    pub pending: Seq<u8>,
}

impl DriverState {
    /// Whether a frame waits or is being written.
    pub open spec fn writes(self) -> bool {
        self.phase == Phase::AwaitWritable || self.phase == Phase::Writing
    }

    /// What holds of every driver: it writes only to a controller that has
    /// announced that it is initialized.
    pub open spec fn wf(self) -> bool {
        self.writes() ==> self.initialized
    }
}

/// The header probe for a read or a write.
pub open spec fn probe(intent: u8) -> Seq<u8> {
    seq![intent, 0u8, 0u8, 0u8, 0u8]
}

/// The two counts in the answer to a probe: how many bytes the controller
/// can take and how many it has ready. An answer is usable if it has five
/// bytes and starts with the ready marker.
pub open spec fn header_spec(echo: Seq<u8>) -> Option<(u16, u16)> {
    if echo.len() == HEADER_LEN && echo[0] == HEADER_READY {
        Some((le_u16_value(echo[1], echo[2]), le_u16_value(echo[3], echo[4])))
    } else {
        None
    }
}

/// The counts in an answer that is usable for writing `len` bytes.
pub open spec fn writable_spec(echo: Seq<u8>, len: nat) -> Option<(u16, u16)> {
    match header_spec(echo) {
        Some((writable, readable)) => if writable >= len {
            Some((writable, readable))
        } else {
            None
        },
        None => None,
    }
}

/// No step at all.
pub open spec fn rest_plan() -> Plan {
    Plan { ops: Seq::empty(), data: Seq::empty() }
}

/// Bring the controller out of reset.
pub open spec fn reset_plan() -> Plan {
    Plan { ops: seq![Op::Stop, Op::Delay(RESET_SETTLE_MS), Op::Start], data: Seq::empty() }
}

/// End the cycle.
pub open spec fn release_plan() -> Plan {
    Plan { ops: seq![Op::Deselect], data: Seq::empty() }
}

/// Exchange `data` within the burst that the probe opened.
pub open spec fn burst_plan(data: Seq<u8>) -> Plan {
    Plan { ops: seq![Op::Transfer], data }
}

/// Send a probe: after releasing the line if a burst is open (`release`),
/// and after the retry delay if the last answer was not usable (`delay`).
pub open spec fn probe_plan(intent: u8, release: bool, delay: bool) -> Plan {
    Plan {
        ops: (if release {
            seq![Op::Deselect]
        } else {
            Seq::<Op>::empty()
        }) + (if delay {
            seq![Op::Delay(RETRY_DELAY_MS)]
        } else {
            Seq::<Op>::empty()
        }) + seq![Op::Select, Op::Transfer],
        data: probe(intent),
    }
}

/// The frame that a request from the queue asks to be written: that of a
/// vendor command. Anything else, or an empty queue, ends the draining.
pub open spec fn request_frame(request: Option<HciPacket<BlueNrg>>) -> Option<Seq<u8>> {
    match request {
        Some(HciPacket::Command(HciCommand::Vendor(command))) => Some(frame_of(&command)),
        _ => None,
    }
}

/// Whether a decoding result is the controller's announcement that it is
/// initialized.
pub open spec fn announces_initialization(decoded: Result<HciPacket<BlueNrg>, DecodeError>) -> bool {
    decoded matches Ok(HciPacket::Event(HciEvent::Vendor(BlueNrgEvent::BlueInitialized(_))))
}

/// The start of a read cycle.
pub open spec fn irq_step(s: DriverState) -> (DriverState, Plan) {
    (
        DriverState { initialized: s.initialized, phase: Phase::AwaitReady, pending: Seq::empty() },
        probe_plan(READ, false, false),
    )
}

/// The next cycle once `request` has come from the request queue: a write
/// cycle for its frame, or a read cycle if there is nothing more to write.
pub open spec fn drain_step(s: DriverState, request: Option<HciPacket<BlueNrg>>, release: bool) -> (
    DriverState,
    Plan,
) {
    match request_frame(request) {
        Some(frame) => (
            DriverState { initialized: s.initialized, phase: Phase::AwaitWritable, pending: frame },
            probe_plan(WRITE, release, false),
        ),
        None => (
            DriverState { initialized: s.initialized, phase: Phase::AwaitReady, pending: Seq::empty() },
            probe_plan(READ, release, false),
        ),
    }
}

/// What the driver does with the bytes `echo` that came back from the
/// transfer it asked for, by the phase it is in. `request` is what the
/// request queue hands out when the driver asks it, which it does only
/// after a frame has been written.
pub open spec fn exchange_step(s: DriverState, echo: Seq<u8>, request: Option<HciPacket<BlueNrg>>) -> (
    DriverState,
    Plan,
) {
    match s.phase {
        Phase::Idle => (s, rest_plan()),
        Phase::AwaitReady => match header_spec(echo) {
            None => (s, probe_plan(READ, true, true)),
            Some((_, readable)) => if readable > 0 {
                (
                    DriverState { initialized: s.initialized, phase: Phase::Reading, pending: s.pending },
                    burst_plan(Seq::new(readable as nat, |k: int| 0u8)),
                )
            } else if s.initialized {
                (DriverState { initialized: true, phase: Phase::Idle, pending: s.pending }, release_plan())
            } else {
                (s, probe_plan(READ, true, false))
            },
        },
        Phase::Reading => (
            DriverState {
                initialized: s.initialized || announces_initialization(parse_packet_spec::<BlueNrg>(echo)),
                phase: Phase::Idle,
                pending: s.pending,
            },
            release_plan(),
        ),
        Phase::AwaitWritable => match writable_spec(echo, s.pending.len()) {
            Some(_) => (
                DriverState { initialized: s.initialized, phase: Phase::Writing, pending: Seq::empty() },
                burst_plan(s.pending),
            ),
            None => (s, probe_plan(WRITE, true, true)),
        },
        Phase::Writing => drain_step(s, request, true),
    }
}

/// Reads the answer to a read probe: the number of bytes the controller can
/// take and the number it has ready, or `None` if the probe must be repeated.
pub fn ready_header(echo: &[u8]) -> (counts: Option<(u16, u16)>)
    ensures
        counts == header_spec(echo@),
{
    if echo.len() != HEADER_LEN {
        return None;
    }
    let Ok(i1) = marker(HEADER_READY, echo) else {
        return None;
    };
    let Ok((i2, writable_len)) = word(i1) else {
        return None;
    };
    let Ok((_, readable_len)) = word(i2) else {
        return None;
    };
    Some((writable_len, readable_len))
}

/// Reads the answer to a write probe: the two counts if the controller can
/// take `num` bytes, or `None` if the probe must be repeated.
pub fn writable_header(echo: &[u8], num: usize) -> (counts: Option<(u16, u16)>)
    ensures
        counts == writable_spec(echo@, num as nat),
{
    match ready_header(echo) {
        Some((writable_len, readable_len)) => {
            if writable_len as usize >= num {
                Some((writable_len, readable_len))
            } else {
                None
            }
        },
        None => None,
    }
}

/// `len` zero bytes, to clock out while the controller's bytes are read.
fn zeros(len: usize) -> (data: Vec<u8>)
    ensures
        data@ == Seq::new(len as nat, |k: int| 0u8),
{
    let mut data: Vec<u8> = Vec::new();
    while data.len() < len
        invariant
            data@.len() <= len,
            forall|k: int| 0 <= k < data@.len() ==> data@[k] == 0u8,
        decreases len - data@.len(),
    {
        data.push(0);
    }
    data
}

impl Action {
    fn rest() -> (action: Action)
        ensures
            action@ == rest_plan(),
    {
        Action { ops: Vec::new(), data: Vec::new() }
    }

    fn release() -> (action: Action)
        ensures
            action@ == release_plan(),
    {
        let mut ops: Vec<Op> = Vec::new();
        ops.push(Op::Deselect);
        Action { ops, data: Vec::new() }
    }

    fn burst(data: Vec<u8>) -> (action: Action)
        ensures
            action@ == burst_plan(data@),
    {
        let mut ops: Vec<Op> = Vec::new();
        ops.push(Op::Transfer);
        Action { ops, data }
    }

    fn probe(intent: u8, release: bool, delay: bool) -> (action: Action)
        ensures
            action@ == probe_plan(intent, release, delay),
    {
        let mut ops: Vec<Op> = Vec::new();
        if release {
            ops.push(Op::Deselect);
        }
        if delay {
            ops.push(Op::Delay(RETRY_DELAY_MS));
        }
        ops.push(Op::Select);
        ops.push(Op::Transfer);
        let mut data: Vec<u8> = Vec::new();
        data.push(intent);
        data.push(0);
        data.push(0);
        data.push(0);
        data.push(0);
        assert(ops@ =~= probe_plan(intent, release, delay).ops);
        assert(data@ =~= probe(intent));
        Action { ops, data }
    }
}

/// The frame to write for a request from the queue, if it asks for one.
pub fn frame_for(request: Option<HciPacket<BlueNrg>>) -> (frame: Option<Vec<u8>>)
    ensures
        frame is Some <==> request_frame(request) is Some,
        frame matches Some(bytes) ==> request_frame(request) == Some(bytes@),
{
    match request {
        Some(HciPacket::Command(HciCommand::Vendor(command))) => Some(encode_command(&command)),
        _ => None,
    }
}

/// The transport's ends of the two queues, whether the controller has
/// announced that it is initialized, and where the bus cycle stands.
pub struct Driver {
    requests: PacketConsumer,
    responses: PacketProducer,
    initialized: bool,
    phase: Phase,
    pending: Vec<u8>,
}

impl View for Driver {
    type V = DriverState;

    closed spec fn view(&self) -> DriverState {
        DriverState { initialized: self.initialized, phase: self.phase, pending: self.pending@ }
    }
}

impl Driver {
    #[verifier::type_invariant]
    spec fn well_formed(self) -> bool {
        self@.wf()
    }

    /// The transport's end of the request queue. It is the same value
    /// before and after a call exactly if the call took nothing from it.
    pub closed spec fn requests(&self) -> PacketConsumer {
        self.requests
    }

    /// The transport's end of the response queue. It is the same value
    /// before and after a call exactly if the call offered it nothing.
    pub closed spec fn responses(&self) -> PacketProducer {
        self.responses
    }

    /// Splits the two queues and keeps the transport's ends: the reading end
    /// of the request queue and the writing end of the response queue. The
    /// other two ends make the interface. The controller counts as not
    /// initialized, and nothing is on the bus.
    pub fn new(request_queue: &'static mut PacketQueue, response_queue: &'static mut PacketQueue) -> (made: (
        Driver,
        Interface,
    ))
        ensures
            made.0@ == (DriverState { initialized: false, phase: Phase::Idle, pending: Seq::empty() }),
            made.0@.wf(),
    {
        let (request_producer, request_consumer) = request_queue.split();
        let (response_producer, response_consumer) = response_queue.split();
        let driver = Driver {
            requests: request_consumer,
            responses: response_producer,
            initialized: false,
            phase: Phase::Idle,
            pending: Vec::new(),
        };
        let interface = Interface::new(request_producer, response_consumer);
        (driver, interface)
    }

    /// Whether the controller has announced that it is initialized.
    pub fn is_initialized(&self) -> (b: bool)
        ensures
            b == self@.initialized,
    {
        self.initialized
    }

    /// Where the driver stands in a bus cycle.
    pub fn phase(&self) -> (phase: Phase)
        ensures
            phase == self@.phase,
    {
        self.phase
    }

    /// The steps that bring the controller out of reset: hold the reset
    /// line, let it settle, start the controller.
    pub fn reset(&self) -> (action: Action)
        ensures
            action@ == reset_plan(),
    {
        let mut ops: Vec<Op> = Vec::new();
        ops.push(Op::Stop);
        ops.push(Op::Delay(RESET_SETTLE_MS));
        ops.push(Op::Start);
        assert(ops@ =~= reset_plan().ops);
        Action { ops, data: Vec::new() }
    }

    /// Begins a read cycle; a cycle that was under way is given up. Neither
    /// queue is touched.
    pub fn process_irq(&mut self) -> (action: Action)
        ensures
            (final(self)@, action@) == irq_step(old(self)@),
            final(self)@.wf(),
            final(self).requests() == old(self).requests(),
            final(self).responses() == old(self).responses(),
    {
        self.phase = Phase::AwaitReady;
        self.pending = Vec::new();
        Action::probe(READ, false, false)
    }

    /// Begins to drain the request queue: a write cycle for the first
    /// command that waits there, or a read cycle if none does. Nothing
    /// happens, and nothing is taken from the queue, while the controller is
    /// not initialized.
    pub fn process_fifo(&mut self) -> (action: Action)
        ensures
            !old(self)@.initialized ==> *final(self) == *old(self) && action@ == rest_plan(),
            old(self)@.initialized ==> exists|request: Option<HciPacket<BlueNrg>>| #[trigger]
                drain_step(old(self)@, request, false) == (final(self)@, action@),
            final(self)@.wf(),
            final(self).responses() == old(self).responses(),
    {
        proof {
            use_type_invariant(&*self);
        }
        if !self.initialized {
            return Action::rest();
        }
        self.next_request(false)
    }

    /// Takes the answer to the transfer that the last action asked for. The
    /// request queue is asked only after a frame has been written, so never
    /// before the controller is initialized; the response queue is offered a
    /// packet only when the controller's bytes have been read and decoded.
    pub fn exchanged(&mut self, echo: &[u8]) -> (action: Action)
        ensures
            exists|request: Option<HciPacket<BlueNrg>>| #[trigger]
                exchange_step(old(self)@, echo@, request) == (final(self)@, action@),
            final(self)@.wf(),
            old(self)@.phase != Phase::Writing ==> final(self).requests() == old(self).requests(),
            !old(self)@.initialized ==> final(self).requests() == old(self).requests(),
            old(self)@.phase != Phase::Reading || parse_packet_spec::<BlueNrg>(echo@) is Err
                ==> final(self).responses() == old(self).responses(),
    {
        proof {
            use_type_invariant(&*self);
        }
        let ghost before = self@;
        let action = match self.phase {
            Phase::Idle => Action::rest(),
            Phase::AwaitReady => self.block_until_ready(echo),
            Phase::Reading => self.received(echo),
            Phase::AwaitWritable => self.block_until_writable(echo),
            Phase::Writing => {
                let action = self.next_request(true);
                proof {
                    let request = choose|request: Option<HciPacket<BlueNrg>>| #[trigger]
                        drain_step(before, request, true) == (self@, action@);
                    assert(exchange_step(before, echo@, request) == (self@, action@));
                }
                return action;
            },
        };
        assert(exchange_step(before, echo@, None) == (self@, action@));
        action
    }

    /// Asks the request queue for the next command and opens the cycle that
    /// follows from its answer.
    fn next_request(&mut self, release: bool) -> (action: Action)
        requires
            old(self)@.initialized,
        ensures
            exists|request: Option<HciPacket<BlueNrg>>| #[trigger]
                drain_step(old(self)@, request, release) == (final(self)@, action@),
            final(self).responses() == old(self).responses(),
    {
        let ghost before = self@;
        let request = self.requests.dequeue();
        let action = match frame_for(request) {
            Some(frame) => {
                self.phase = Phase::AwaitWritable;
                self.pending = frame;
                Action::probe(WRITE, release, false)
            },
            None => {
                self.phase = Phase::AwaitReady;
                self.pending = Vec::new();
                Action::probe(READ, release, false)
            },
        };
        assert(drain_step(before, request, release) == (self@, action@));
        action
    }

    /// The answer to a read probe: repeat the probe, read what the
    /// controller has ready, or end the cycle if it has nothing. Until the
    /// controller is initialized the driver keeps asking.
    fn block_until_ready(&mut self, echo: &[u8]) -> (action: Action)
        requires
            old(self)@.phase == Phase::AwaitReady,
        ensures
            forall|request: Option<HciPacket<BlueNrg>>| #[trigger]
                exchange_step(old(self)@, echo@, request) == (final(self)@, action@),
            final(self).requests() == old(self).requests(),
            final(self).responses() == old(self).responses(),
    {
        match ready_header(echo) {
            None => Action::probe(READ, true, true),
            Some((_, readable_len)) => {
                if readable_len > 0 {
                    self.phase = Phase::Reading;
                    Action::burst(zeros(readable_len as usize))
                } else if self.initialized {
                    self.phase = Phase::Idle;
                    Action::release()
                } else {
                    Action::probe(READ, true, false)
                }
            },
        }
    }

    /// The bytes that the controller had ready: they are decoded, the
    /// packet goes to the response queue, and the cycle ends. The
    /// controller's announcement that it is initialized is noted. Bytes that
    /// do not decode are dropped.
    fn received(&mut self, echo: &[u8]) -> (action: Action)
        requires
            old(self)@.phase == Phase::Reading,
        ensures
            forall|request: Option<HciPacket<BlueNrg>>| #[trigger]
                exchange_step(old(self)@, echo@, request) == (final(self)@, action@),
            final(self).requests() == old(self).requests(),
            parse_packet_spec::<BlueNrg>(echo@) is Err ==> final(self).responses() == old(self).responses(),
    {
        match parse_packet::<BlueNrg>(echo) {
            Ok(packet) => {
                if let HciPacket::Event(HciEvent::Vendor(BlueNrgEvent::BlueInitialized(_))) = packet {
                    self.initialized = true;
                }
                let _ = self.responses.enqueue(packet);
            },
            Err(_) => {},
        }
        self.phase = Phase::Idle;
        Action::release()
    }

    /// The answer to a write probe: write the frame if the controller can
    /// take all of it, else repeat the probe.
    fn block_until_writable(&mut self, echo: &[u8]) -> (action: Action)
        requires
            old(self)@.phase == Phase::AwaitWritable,
            old(self)@.initialized,
        ensures
            forall|request: Option<HciPacket<BlueNrg>>| #[trigger]
                exchange_step(old(self)@, echo@, request) == (final(self)@, action@),
            final(self).requests() == old(self).requests(),
            final(self).responses() == old(self).responses(),
    {
        match writable_header(echo, self.pending.len()) {
            Some(_) => {
                let mut frame: Vec<u8> = Vec::new();
                core::mem::swap(&mut self.pending, &mut frame);
                self.phase = Phase::Writing;
                Action::burst(frame)
            },
            None => Action::probe(WRITE, true, true),
        }
    }
}

/// An answer that starts with the ready marker carries the two counts low
/// byte first: the number of bytes the controller can take, then the number
/// it has ready. Both probes read it alike; the write probe also asks that
/// the first count is at least the number of bytes to write.
pub proof fn lemma_header_counts(w_lo: u8, w_hi: u8, r_lo: u8, r_hi: u8, num: nat)
    ensures
        header_spec(seq![HEADER_READY, w_lo, w_hi, r_lo, r_hi]) == Some(
            (le_u16_value(w_lo, w_hi), le_u16_value(r_lo, r_hi)),
        ),
        le_u16_value(w_lo, w_hi) == w_lo + 256 * w_hi,
        le_u16_value(r_lo, r_hi) == r_lo + 256 * r_hi,
        w_lo + 256 * w_hi >= num ==> writable_spec(seq![HEADER_READY, w_lo, w_hi, r_lo, r_hi], num) == Some(
            (le_u16_value(w_lo, w_hi), le_u16_value(r_lo, r_hi)),
        ),
        w_lo + 256 * w_hi < num ==> writable_spec(seq![HEADER_READY, w_lo, w_hi, r_lo, r_hi], num) is None,
{
    lemma_le_u16_value(w_lo, w_hi);
    lemma_le_u16_value(r_lo, r_hi);
}

/// An answer that does not start with the ready marker is never usable.
pub proof fn lemma_header_needs_marker(echo: Seq<u8>, num: nat)
    requires
        echo.len() == 0 || echo[0] != HEADER_READY,
    ensures
        header_spec(echo) is None,
        writable_spec(echo, num) is None,
{
}

/// Every step leads from a well-formed driver to a well-formed driver, and
/// draining begins only on an initialized one.
pub proof fn lemma_steps_keep_well_formed(s: DriverState, echo: Seq<u8>, request: Option<HciPacket<BlueNrg>>)
    requires
        s.wf(),
    ensures
        irq_step(s).0.wf(),
        exchange_step(s, echo, request).0.wf(),
        s.initialized ==> drain_step(s, request, false).0.wf(),
{
}

/// The controller counts as initialized from the moment its announcement
/// has been read and decoded, and from no other moment; it never stops
/// counting as initialized.
pub proof fn lemma_initialized_by_announcement(s: DriverState, echo: Seq<u8>, request: Option<HciPacket<BlueNrg>>)
    ensures
        irq_step(s).0.initialized == s.initialized,
        drain_step(s, request, false).0.initialized == s.initialized,
        exchange_step(s, echo, request).0.initialized == (s.initialized || (s.phase == Phase::Reading
            && announces_initialization(parse_packet_spec::<BlueNrg>(echo)))),
{
}

/// While the controller is not initialized, what waits in the request queue
/// has no bearing on what the driver does.
pub proof fn lemma_requests_wait_for_initialization(
    s: DriverState,
    echo: Seq<u8>,
    first: Option<HciPacket<BlueNrg>>,
    second: Option<HciPacket<BlueNrg>>,
)
    requires
        s.wf(),
        !s.initialized,
    ensures
        exchange_step(s, echo, first) == exchange_step(s, echo, second),
        !exchange_step(s, echo, first).0.writes(),
{
}

/// Whether `echo` is a usable answer that reports no byte to read.
pub open spec fn nothing_ready(echo: Seq<u8>) -> bool {
    header_spec(echo) matches Some((_, readable)) && readable == 0
}

/// A cycle ends, with the line released and nothing more to transfer, in
/// two places only: when the controller's bytes have been read, and when an
/// initialized controller has nothing ready.
pub proof fn lemma_cycle_ends(s: DriverState, echo: Seq<u8>, request: Option<HciPacket<BlueNrg>>)
    requires
        s.phase != Phase::Idle,
    ensures
        exchange_step(s, echo, request).0.phase == Phase::Idle <==> exchange_step(s, echo, request).1
            == release_plan(),
        exchange_step(s, echo, request).0.phase == Phase::Idle <==> (s.phase == Phase::Reading || (s.phase
            == Phase::AwaitReady && s.initialized && nothing_ready(echo))),
        exchange_step(s, echo, request).0.phase != Phase::Idle ==> exchange_step(s, echo, request).1.ops.last()
            == Op::Transfer,
{
}

} // verus!
