//! The frame transfer engine for the ED047TC1 panel.
//!
//! The engine owns the configuration writer, the timing-pulse generator,
//! and the exclusive bus transfer resource, and sequences them through the
//! panel's protocol: staged power-rail energizing, the vertical-sync
//! handshake that opens a frame, the per-row latch/drive/transfer loop, and
//! the ramp-down that returns the panel to its idle state.
//!
//! Every externally visible effect is recorded: committed register
//! snapshots in the writer's trace, pulses in the generator's trace, and
//! completed row transfers in the engine's own trace.  Each public
//! operation is specified as a transition function on the mathematical
//! state, so a caller knows the exact trace and register contents after any
//! sequence of calls, for every injected hardware fault.

use vstd::prelude::*;

use crate::config::ConfigRegister;
use crate::config::ConfigWriter;
use crate::config::default_config;
use crate::rmt::PulseFault;
use crate::rmt::Rmt;
use crate::rmt::RmtView;
use crate::rmt::SentPulse;
use crate::rmt::TimingError;
use crate::rmt::consumed;
use crate::rmt::pulse_spec;
use crate::rmt::rmt_wf;
use crate::Error;

verus! {

/// Cycles of the monotonic counter per microsecond (a 240 MHz core clock).
pub const CYCLES_PER_MICRO: u32 = 240;

/// Busy-wait after energizing or releasing a power rail: 100 µs.
pub const RAIL_DELAY: u32 = 100 * CYCLES_PER_MICRO;

/// Busy-wait after energizing the negative rail, which must fully
/// stabilize before the positive rail comes up: 500 µs.
pub const NEG_RAIL_DELAY: u32 = 500 * CYCLES_PER_MICRO;

/// Busy-wait after releasing the positive rail during power-off: 10 µs.
pub const POS_RAIL_OFF_DELAY: u32 = 10 * CYCLES_PER_MICRO;

/// Busy-wait inside the vertical-sync handshake, after the start-of-frame
/// line goes low: 100 µs.
pub const FRAME_SYNC_DELAY: u32 = 100 * CYCLES_PER_MICRO;

/// Largest row buffer one transfer descriptor can carry, in bytes.
pub const MAX_ROW_WIDTH: usize = 4092;

/// The monotonic cycle counter that backs the busy-wait delays.
pub struct CycleCounter {
    /// The current cycle count.
    pub now: u64,
}

impl CycleCounter {
    /// Reads the current cycle count.
    pub fn cycles(&self) -> (r: u64)
        ensures
            r == self.now,
    {
        self.now
    }
}

/// Busy-waits until the cycle counter has advanced `wait_cycles` past the
/// value it held on entry.  Not cancellable; callers must budget it as hard
/// latency.
pub fn busy_delay(counter: &mut CycleCounter, wait_cycles: u32)
    requires
        old(counter).now + wait_cycles <= u64::MAX,
    ensures
        final(counter).now == old(counter).now + wait_cycles,
{
    let target: u64 = counter.cycles() + wait_cycles as u64;
    while counter.cycles() < target
        invariant
            counter.now <= target,
            target == old(counter).now + wait_cycles,
        decreases target - counter.now,
    {
        counter.now = counter.now + 1;
    }
}

/// The exclusive bus transfer channel and its backing row buffer, owned by
/// the engine while held and by the hardware while a transfer is in flight.
pub struct TransferResource {
    /// The row buffer; overwritten every row, never resized.
    pub buffer: Vec<u8>,
}

/// A fault the bus transfer may produce, injected one per `output_row`
/// call.
#[derive(Clone, Copy, Debug, PartialEq, Eq, Structural)]
pub enum TransferFault {
    /// The transfer completes normally.
    NoFault,
    /// The transfer fails; the resource is still reclaimed.
    Fail,
}

/// Mathematical state of the frame transfer engine.
#[verifier::ext_equal]
pub struct EngineView {
    /// Current contents of the configuration register.
    pub config: ConfigRegister,
    /// Every register snapshot committed to the panel, in order.
    pub commits: Seq<ConfigRegister>,
    /// State of the timing-pulse generator.
    pub rmt: RmtView,
    /// The transfer resource's row buffer while the engine holds it.
    pub resource: Option<Seq<u8>>,
    /// Every row that completed its bus transfer, in order.
    pub sent_rows: Seq<Seq<u8>>,
    /// Pending injected transfer faults; the last element is consumed
    /// first.
    pub transfer_faults: Seq<TransferFault>,
    /// The monotonic cycle counter.
    pub clock: u64,
    /// Width of the row buffer, in bytes.
    pub row_width: nat,
}

/// The frame transfer engine.
pub struct ED047TC1 {
    /// The configuration register and its commit trace.
    pub cfg_writer: ConfigWriter,
    /// The timing-pulse generator.
    pub rmt: Rmt,
    /// The bus transfer resource; `None` only while a transfer is in
    /// flight inside a call.
    pub resource: Option<TransferResource>,
    /// Every row that completed its bus transfer, in order.
    pub sent_rows: Vec<Vec<u8>>,
    /// Injected transfer faults, consumed one per `output_row` call from
    /// the end.
    pub transfer_faults: Vec<TransferFault>,
    /// The monotonic cycle counter backing the busy-wait delays.
    pub clock: CycleCounter,
    /// Width of the row buffer, in bytes.
    pub row_width: usize,
}

impl View for ED047TC1 {
    type V = EngineView;

    open spec fn view(&self) -> EngineView {
        EngineView {
            config: self.cfg_writer.config,
            commits: self.cfg_writer.commits@,
            rmt: self.rmt@,
            resource: match self.resource {
                Some(r) => Some(r.buffer@),
                None => None,
            },
            sent_rows: self.sent_rows.deep_view(),
            transfer_faults: self.transfer_faults@,
            clock: self.clock.now,
            row_width: self.row_width as nat,
        }
    }
}

/// The engine is well formed: channel serial numbers are consistent, the
/// row buffer has the fixed width, and the width is one a transfer
/// descriptor can carry.
pub open spec fn engine_wf(e: EngineView) -> bool {
    &&& rmt_wf(e.rmt)
    &&& match e.resource {
        Some(b) => b.len() == e.row_width,
        None => true,
    }
    &&& 0 < e.row_width <= MAX_ROW_WIDTH
}

/// One atomic 8-bit commit of register contents `c`.
pub open spec fn committed(e: EngineView, c: ConfigRegister) -> EngineView {
    EngineView { config: c, commits: e.commits.push(c), ..e }
}

/// A busy-wait of `cycles` counter ticks.
pub open spec fn delayed(e: EngineView, cycles: u32) -> EngineView {
    EngineView { clock: (e.clock + cycles) as u64, ..e }
}

/// A pulse issued through the engine's timing generator.
pub open spec fn pulsed(e: EngineView, high: u16, low: u16, blocking: bool) -> (EngineView, Result<
    (),
    TimingError,
>) {
    let pr = pulse_spec(e.rmt, high, low, blocking);
    (EngineView { rmt: pr.0, ..e }, pr.1)
}

/// Staged power-rail energizing: scan direction and master power first,
/// then the negative rail, then — after it has fully stabilized — the
/// positive rail, then the start-of-frame line.  Four commits, each
/// followed by its settle delay.
pub open spec fn power_on_spec(e: EngineView) -> EngineView {
    let c1 = ConfigRegister { scan_direction: true, power_disable: false, ..e.config };
    let e1 = delayed(committed(e, c1), RAIL_DELAY);
    let c2 = ConfigRegister { neg_power_enable: true, ..c1 };
    let e2 = delayed(committed(e1, c2), NEG_RAIL_DELAY);
    let c3 = ConfigRegister { pos_power_enable: true, ..c2 };
    let e3 = delayed(committed(e2, c3), RAIL_DELAY);
    let c4 = ConfigRegister { start_of_frame: true, ..c3 };
    committed(e3, c4)
}

/// Power-rail ramp-down in reverse order with shorter delays: the positive
/// rail first, then the negative rail, then master power off together with
/// the start-of-frame line, as one final commit.
pub open spec fn power_off_spec(e: EngineView) -> EngineView {
    let c1 = ConfigRegister { pos_power_enable: false, ..e.config };
    let e1 = delayed(committed(e, c1), POS_RAIL_OFF_DELAY);
    let c2 = ConfigRegister { neg_power_enable: false, ..c1 };
    let e2 = delayed(committed(e1, c2), RAIL_DELAY);
    let c3 = ConfigRegister { power_disable: true, start_of_frame: false, ..c2 };
    committed(e2, c3)
}

/// The row-latch edge: exactly two commits, latch enable high then low,
/// with every other field untouched.
pub open spec fn latch_spec(e: EngineView) -> EngineView {
    let c1 = ConfigRegister { latch_enable: true, ..e.config };
    let c2 = ConfigRegister { latch_enable: false, ..c1 };
    committed(committed(e, c1), c2)
}

/// The vertical-sync handshake that opens a frame: a defined sequence of
/// sync-window pulses bracketing a start-of-frame toggle, required before
/// the panel accepts any row data.  A pulse failure aborts the handshake at
/// that point and surfaces as [`Error::TimingChannelError`].
pub open spec fn frame_start_spec(e: EngineView) -> (EngineView, Result<(), Error>) {
    let e1 = committed(e, ConfigRegister { mode: true, ..e.config });
    let p1 = pulsed(e1, 1, 1, true);
    if p1.1 is Err {
        (p1.0, Err(Error::TimingChannelError))
    } else {
        let e2 = delayed(
            committed(p1.0, ConfigRegister { start_of_frame: false, ..e1.config }),
            FRAME_SYNC_DELAY,
        );
        let p2 = pulsed(e2, 10, 10, true);
        if p2.1 is Err {
            (p2.0, Err(Error::TimingChannelError))
        } else {
            let e3 = committed(p2.0, ConfigRegister { start_of_frame: true, ..e2.config });
            let p3 = pulsed(e3, 0, 10, true);
            if p3.1 is Err {
                (p3.0, Err(Error::TimingChannelError))
            } else {
                let e4 = committed(p3.0, ConfigRegister { output_enable: true, ..e3.config });
                let p4 = pulsed(e4, 1, 1, true);
                (
                    p4.0,
                    if p4.1 is Err {
                        Err(Error::TimingChannelError)
                    } else {
                        Ok(())
                    },
                )
            }
        }
    }
}

/// Finalizes the scan and returns the panel to its between-frame idle
/// state: output disabled, mode asserted, then two closing sync pulses.
pub open spec fn frame_end_spec(e: EngineView) -> (EngineView, Result<(), Error>) {
    let e1 = committed(e, ConfigRegister { output_enable: false, ..e.config });
    let e2 = committed(e1, ConfigRegister { mode: true, ..e1.config });
    let p1 = pulsed(e2, 10, 10, true);
    if p1.1 is Err {
        (p1.0, Err(Error::TimingChannelError))
    } else {
        let p2 = pulsed(p1.0, 10, 10, true);
        (
            p2.0,
            if p2.1 is Err {
                Err(Error::TimingChannelError)
            } else {
                Ok(())
            },
        )
    }
}

/// Advancing the scan position by one row without pixel data: a single
/// non-blocking pulse.
pub open spec fn skip_spec(e: EngineView) -> (EngineView, Result<(), Error>) {
    let p = pulsed(e, 45, 5, false);
    (
        p.0,
        if p.1 is Err {
            Err(Error::TimingChannelError)
        } else {
            Ok(())
        },
    )
}

/// `data` placed at the front of a row buffer of `width` bytes, with every
/// byte beyond `data` zeroed.
pub open spec fn filled_row(data: Seq<u8>, width: nat) -> Seq<u8> {
    Seq::new(
        width,
        |i: int|
            if i < data.len() {
                data[i]
            } else {
                0u8
            },
    )
}

/// Overwriting the transfer resource's row buffer with `data`, zero-filling
/// the tail so no stale bytes from an earlier, longer row survive.  Fails
/// only when the resource is absent — a call-sequencing defect.
pub open spec fn set_buffer_spec(e: EngineView, data: Seq<u8>) -> (EngineView, Result<(), Error>) {
    match e.resource {
        None => (e, Err(Error::ResourceUnavailable)),
        Some(_) => (
            EngineView { resource: Some(filled_row(data, e.row_width)), ..e },
            Ok(()),
        ),
    }
}

/// The fault consumed by the next row transfer: the last queue entry, or
/// none when the queue is empty.
pub open spec fn next_transfer_fault(faults: Seq<TransferFault>) -> TransferFault {
    if faults.len() == 0 {
        TransferFault::NoFault
    } else {
        faults.last()
    }
}

/// The transfer fault queue after one entry has been consumed.
pub open spec fn consumed_transfer(faults: Seq<TransferFault>) -> Seq<TransferFault> {
    if faults.len() == 0 {
        faults
    } else {
        faults.drop_last()
    }
}

/// One row's drive-and-transfer step: latch the previous row, open the
/// analog row-drive window with a non-blocking pulse, load the row buffer
/// (zero-filled past `data`), then hand the transfer resource to the bus
/// and wait.  On success the transferred row is recorded; on a transfer
/// fault nothing is recorded; either way the resource is back in the
/// engine.
pub open spec fn output_row_spec(e: EngineView, data: Seq<u8>, output_time: u16) -> (
    EngineView,
    Result<(), Error>,
) {
    let e1 = latch_spec(e);
    let p = pulsed(e1, output_time, 50, false);
    if p.1 is Err {
        (p.0, Err(Error::TimingChannelError))
    } else {
        let sb = set_buffer_spec(p.0, data);
        if sb.1 is Err {
            (sb.0, Err(Error::ResourceUnavailable))
        } else {
            let e2 = sb.0;
            let tf = next_transfer_fault(e2.transfer_faults);
            let rest = consumed_transfer(e2.transfer_faults);
            if tf == TransferFault::Fail {
                (EngineView { transfer_faults: rest, ..e2 }, Err(Error::TransferError))
            } else {
                (
                    EngineView {
                        transfer_faults: rest,
                        sent_rows: e2.sent_rows.push(filled_row(data, e2.row_width)),
                        ..e2
                    },
                    Ok(()),
                )
            }
        }
    }
}

/// Builds a row buffer of `width` bytes holding `data` followed by
/// zeroes.  This is the filling step of [`ED047TC1::set_buffer`], exposed
/// so that a pin-level transfer adapter can load its hardware buffer with
/// exactly the bytes the engine model specifies.
pub fn fill_row(data: &[u8], width: usize) -> (r: Vec<u8>)
    requires
        data@.len() <= width,
    ensures
        r@ == filled_row(data@, width as nat),
{
    let mut buffer: Vec<u8> = Vec::new();
    let mut i: usize = 0;
    while i < width
        invariant
            i == buffer@.len(),
            i <= width,
            forall|j: int|
                0 <= j < i ==> buffer@[j] == (if j < data@.len() {
                    data@[j]
                } else {
                    0u8
                }),
        decreases width - i,
    {
        if i < data.len() {
            buffer.push(data[i]);
        } else {
            buffer.push(0u8);
        }
        i = i + 1;
    }
    proof {
        assert(buffer@ =~= filled_row(data@, width as nat));
    }
    buffer
}

/// A byte-for-byte copy of a row buffer, for the transfer trace.
fn copy_row(buffer: &Vec<u8>) -> (r: Vec<u8>)
    ensures
        r@ == buffer@,
{
    let mut v: Vec<u8> = Vec::new();
    let mut i: usize = 0;
    while i < buffer.len()
        invariant
            i == v@.len(),
            i <= buffer@.len(),
            forall|j: int| 0 <= j < i ==> v@[j] == buffer@[j],
        decreases buffer@.len() - i,
    {
        v.push(buffer[i]);
        i = i + 1;
    }
    proof {
        assert(v@ =~= buffer@);
    }
    v
}

/// The engine state right after construction: reset register committed
/// once, no channel, an all-zero row buffer of the requested width, and
/// empty traces.
pub open spec fn initial_engine(width: nat) -> EngineView {
    EngineView {
        config: default_config(),
        commits: seq![default_config()],
        rmt: RmtView {
            tx_channel: None,
            next_id: 0,
            sent: Seq::<SentPulse>::empty(),
            faults: Seq::<PulseFault>::empty(),
        },
        resource: Some(Seq::new(width, |i: int| 0u8)),
        sent_rows: Seq::<Seq<u8>>::empty(),
        transfer_faults: Seq::<TransferFault>::empty(),
        clock: 0,
        row_width: width,
    }
}

impl ED047TC1 {
    /// Builds the engine with a row buffer of `row_width` bytes.  The
    /// buffer can be set up exactly when the width is positive and within
    /// what one transfer descriptor carries; otherwise construction fails
    /// with [`Error::BufferInitError`].
    pub fn new(row_width: usize) -> (res: Result<ED047TC1, Error>)
        ensures
            res is Ok <==> 0 < row_width <= MAX_ROW_WIDTH,
            res is Err ==> res == Result::<ED047TC1, Error>::Err(Error::BufferInitError),
            res matches Ok(engine) ==> engine@ == initial_engine(row_width as nat) && engine_wf(
                engine@,
            ),
    {
        if row_width == 0 || row_width > MAX_ROW_WIDTH {
            return Err(Error::BufferInitError);
        }
        let mut cfg_writer = ConfigWriter::new();
        cfg_writer.write();
        let mut buffer: Vec<u8> = Vec::new();
        while buffer.len() < row_width
            invariant
                buffer@.len() <= row_width,
                forall|i: int| 0 <= i < buffer@.len() ==> buffer@[i] == 0u8,
            decreases row_width - buffer@.len(),
        {
            buffer.push(0u8);
        }
        let engine = ED047TC1 {
            cfg_writer,
            rmt: Rmt::new(),
            resource: Some(TransferResource { buffer }),
            sent_rows: Vec::new(),
            transfer_faults: Vec::new(),
            clock: CycleCounter { now: 0 },
            row_width,
        };
        proof {
            assert(engine@ =~~= initial_engine(row_width as nat));
        }
        Ok(engine)
    }

    /// Commits the current register contents to the panel.
    fn commit(&mut self)
        ensures
            final(self)@ == committed(old(self)@, old(self)@.config),
    {
        self.cfg_writer.write();
        proof {
            assert(self@ =~~= committed(old(self)@, old(self)@.config));
        }
    }

    /// Energizes the panel's power rails in stages, so that each rail is
    /// stable before the next one comes up.  Infallible: only register
    /// commits and busy-waits.
    pub fn power_on(&mut self)
        requires
            old(self)@.clock + (RAIL_DELAY + NEG_RAIL_DELAY + RAIL_DELAY) <= u64::MAX,
            engine_wf(old(self)@),
        ensures
            final(self)@ == power_on_spec(old(self)@),
            engine_wf(final(self)@),
    {
        self.cfg_writer.config.scan_direction = true;
        self.cfg_writer.config.power_disable = false;
        self.commit();
        busy_delay(&mut self.clock, RAIL_DELAY);
        self.cfg_writer.config.neg_power_enable = true;
        self.commit();
        busy_delay(&mut self.clock, NEG_RAIL_DELAY);
        self.cfg_writer.config.pos_power_enable = true;
        self.commit();
        busy_delay(&mut self.clock, RAIL_DELAY);
        self.cfg_writer.config.start_of_frame = true;
        self.commit();
        proof {
            assert(self@ =~~= power_on_spec(old(self)@));
        }
    }

    /// De-energizes the rails in reverse order and returns the register to
    /// its powered-off state.  Infallible: only register commits and
    /// busy-waits.
    pub fn power_off(&mut self)
        requires
            old(self)@.clock + (POS_RAIL_OFF_DELAY + RAIL_DELAY) <= u64::MAX,
            engine_wf(old(self)@),
        ensures
            final(self)@ == power_off_spec(old(self)@),
            engine_wf(final(self)@),
    {
        self.cfg_writer.config.pos_power_enable = false;
        self.commit();
        busy_delay(&mut self.clock, POS_RAIL_OFF_DELAY);
        self.cfg_writer.config.neg_power_enable = false;
        self.commit();
        busy_delay(&mut self.clock, RAIL_DELAY);
        self.cfg_writer.config.power_disable = true;
        self.cfg_writer.config.start_of_frame = false;
        self.commit();
        proof {
            assert(self@ =~~= power_off_spec(old(self)@));
        }
    }

    /// Edge-triggers the row drivers to commit previously shifted row data
    /// to their outputs: latch enable high, then low, as two commits with
    /// no other field changed.
    pub fn latch_row(&mut self)
        requires
            engine_wf(old(self)@),
        ensures
            final(self)@ == latch_spec(old(self)@),
            engine_wf(final(self)@),
    {
        self.cfg_writer.config.latch_enable = true;
        self.commit();
        self.cfg_writer.config.latch_enable = false;
        self.commit();
        proof {
            assert(self@ =~~= latch_spec(old(self)@));
        }
    }

    /// Runs the vertical-sync handshake that the panel requires before any
    /// row data: mode on, a sync pulse, a start-of-frame toggle bracketed
    /// by sync-window pulses, then output enable.
    pub fn frame_start(&mut self) -> (res: Result<(), Error>)
        requires
            engine_wf(old(self)@),
            old(self)@.clock + FRAME_SYNC_DELAY <= u64::MAX,
            old(self)@.rmt.next_id + 4 <= u64::MAX,
        ensures
            final(self)@ == frame_start_spec(old(self)@).0,
            res == frame_start_spec(old(self)@).1,
            engine_wf(final(self)@),
    {
        self.cfg_writer.config.mode = true;
        self.commit();
        match self.rmt.pulse(1, 1, true) {
            Ok(()) => {},
            Err(_) => {
                proof {
                    assert(self@ =~~= frame_start_spec(old(self)@).0);
                }
                return Err(Error::TimingChannelError);
            },
        }
        self.cfg_writer.config.start_of_frame = false;
        self.commit();
        busy_delay(&mut self.clock, FRAME_SYNC_DELAY);
        match self.rmt.pulse(10, 10, true) {
            Ok(()) => {},
            Err(_) => {
                proof {
                    assert(self@ =~~= frame_start_spec(old(self)@).0);
                }
                return Err(Error::TimingChannelError);
            },
        }
        self.cfg_writer.config.start_of_frame = true;
        self.commit();
        match self.rmt.pulse(0, 10, true) {
            Ok(()) => {},
            Err(_) => {
                proof {
                    assert(self@ =~~= frame_start_spec(old(self)@).0);
                }
                return Err(Error::TimingChannelError);
            },
        }
        self.cfg_writer.config.output_enable = true;
        self.commit();
        match self.rmt.pulse(1, 1, true) {
            Ok(()) => {},
            Err(_) => {
                proof {
                    assert(self@ =~~= frame_start_spec(old(self)@).0);
                }
                return Err(Error::TimingChannelError);
            },
        }
        proof {
            assert(self@ =~~= frame_start_spec(old(self)@).0);
        }
        Ok(())
    }

    /// Finalizes the scan and returns the panel to its between-frame idle
    /// state.
    pub fn frame_end(&mut self) -> (res: Result<(), Error>)
        requires
            engine_wf(old(self)@),
            old(self)@.rmt.next_id + 2 <= u64::MAX,
        ensures
            final(self)@ == frame_end_spec(old(self)@).0,
            res == frame_end_spec(old(self)@).1,
            engine_wf(final(self)@),
    {
        self.cfg_writer.config.output_enable = false;
        self.commit();
        self.cfg_writer.config.mode = true;
        self.commit();
        match self.rmt.pulse(10, 10, true) {
            Ok(()) => {},
            Err(_) => {
                proof {
                    assert(self@ =~~= frame_end_spec(old(self)@).0);
                }
                return Err(Error::TimingChannelError);
            },
        }
        match self.rmt.pulse(10, 10, true) {
            Ok(()) => {},
            Err(_) => {
                proof {
                    assert(self@ =~~= frame_end_spec(old(self)@).0);
                }
                return Err(Error::TimingChannelError);
            },
        }
        proof {
            assert(self@ =~~= frame_end_spec(old(self)@).0);
        }
        Ok(())
    }

    /// Advances the scan position by one row without transmitting pixel
    /// data, used for auxiliary or partial scan patterns.
    pub fn skip(&mut self) -> (res: Result<(), Error>)
        requires
            engine_wf(old(self)@),
            old(self)@.rmt.next_id < u64::MAX,
        ensures
            final(self)@ == skip_spec(old(self)@).0,
            res == skip_spec(old(self)@).1,
            engine_wf(final(self)@),
    {
        match self.rmt.pulse(45, 5, false) {
            Ok(()) => {},
            Err(_) => {
                proof {
                    assert(self@ =~~= skip_spec(old(self)@).0);
                }
                return Err(Error::TimingChannelError);
            },
        }
        proof {
            assert(self@ =~~= skip_spec(old(self)@).0);
        }
        Ok(())
    }

    /// Loads `data` into the transfer resource's row buffer, zero-filling
    /// every byte past `data` so that stale trailing bytes from an
    /// earlier, longer row are never retransmitted.
    pub fn set_buffer(&mut self, data: &[u8]) -> (res: Result<(), Error>)
        requires
            engine_wf(old(self)@),
            data@.len() <= old(self)@.row_width,
        ensures
            final(self)@ == set_buffer_spec(old(self)@, data@).0,
            res == set_buffer_spec(old(self)@, data@).1,
            engine_wf(final(self)@),
    {
        let taken = self.resource.take();
        let mut r = match taken {
            Some(r) => r,
            None => {
                proof {
                    assert(self@ =~~= set_buffer_spec(old(self)@, data@).0);
                }
                return Err(Error::ResourceUnavailable);
            },
        };
        let width = self.row_width;
        r.buffer = fill_row(data, width);
        self.resource = Some(r);
        proof {
            assert(self@.resource->Some_0 =~= filled_row(data@, old(self)@.row_width));
            assert(self@ =~~= set_buffer_spec(old(self)@, data@).0);
        }
        Ok(())
    }

    /// Drives one row: latches the previously shifted row data, opens the
    /// analog row-drive window for `output_time` ticks without stalling,
    /// loads the row buffer, and transfers it over the bus, waiting for
    /// completion.  On success and on a transfer fault alike, the transfer
    /// resource is back in the engine when the call returns.
    pub fn output_row(&mut self, data: &[u8], output_time: u16) -> (res: Result<(), Error>)
        requires
            engine_wf(old(self)@),
            data@.len() <= old(self)@.row_width,
            old(self)@.rmt.next_id < u64::MAX,
        ensures
            final(self)@ == output_row_spec(old(self)@, data@, output_time).0,
            res == output_row_spec(old(self)@, data@, output_time).1,
            engine_wf(final(self)@),
    {
        self.latch_row();
        match self.rmt.pulse(output_time, 50, false) {
            Ok(()) => {},
            Err(_) => {
                proof {
                    assert(self@ =~~= output_row_spec(old(self)@, data@, output_time).0);
                }
                return Err(Error::TimingChannelError);
            },
        }
        match self.set_buffer(data) {
            Ok(()) => {},
            Err(e) => {
                proof {
                    assert(self@ =~~= output_row_spec(old(self)@, data@, output_time).0);
                }
                return Err(e);
            },
        }
        let taken = self.resource.take();
        let r = match taken {
            Some(r) => r,
            None => {
                // Unreachable: set_buffer has just reinserted the resource.
                return Err(Error::ResourceUnavailable);
            },
        };
        let fault = match self.transfer_faults.pop() {
            Some(f) => f,
            None => TransferFault::NoFault,
        };
        if matches!(fault, TransferFault::Fail) {
            self.resource = Some(r);
            proof {
                assert(self@ =~~= output_row_spec(old(self)@, data@, output_time).0);
            }
            return Err(Error::TransferError);
        }
        let row_copy = copy_row(&r.buffer);
        self.sent_rows.push(row_copy);
        self.resource = Some(r);
        proof {
            assert(self@ =~~= output_row_spec(old(self)@, data@, output_time).0);
        }
        Ok(())
    }
}

/// Powering on and then off from the reset register returns every
/// power-rail, output and latch field to its reset value.  The register is
/// not bit-for-bit the reset state, though: the power cycle leaves
/// `scan_direction` high (power-on raises it and power-off never lowers
/// it) and `start_of_frame` low (the final power-off commit clears it).
pub proof fn lemma_power_cycle_rails(e: EngineView)
    requires
        e.config == default_config(),
    ensures
        ({
            let r = power_off_spec(power_on_spec(e)).config;
            &&& r.output_enable == default_config().output_enable
            &&& r.mode == default_config().mode
            &&& r.neg_power_enable == default_config().neg_power_enable
            &&& r.pos_power_enable == default_config().pos_power_enable
            &&& r.power_disable == default_config().power_disable
            &&& r.latch_enable == default_config().latch_enable
            &&& r.scan_direction == true
            &&& r.start_of_frame == false
        }),
{
}

/// The row-latch edge is exactly two commits — latch enable high, then low
/// — with every other register field carried through unchanged, and it
/// touches nothing else in the engine.
pub proof fn lemma_latch_edges(e: EngineView)
    ensures
        ({
            let l = latch_spec(e);
            &&& l.commits.len() == e.commits.len() + 2
            &&& l.commits.take(e.commits.len() as int) == e.commits
            &&& l.commits[e.commits.len() as int] == (ConfigRegister {
                latch_enable: true,
                ..e.config
            })
            &&& l.commits.last() == (ConfigRegister { latch_enable: false, ..e.config })
            &&& l.config == (ConfigRegister { latch_enable: false, ..e.config })
            &&& l.rmt == e.rmt
            &&& l.resource == e.resource
            &&& l.sent_rows == e.sent_rows
            &&& l.transfer_faults == e.transfer_faults
            &&& l.clock == e.clock
        }),
{
    assert(latch_spec(e).commits.take(e.commits.len() as int) =~= e.commits);
}

/// Loading a row shorter than the buffer zero-fills the tail: afterwards
/// the buffer holds the row's bytes followed by zeroes up to the row
/// width, so no stale byte from an earlier, longer row survives.
pub proof fn lemma_set_buffer_zero_fill(e: EngineView, data: Seq<u8>)
    requires
        engine_wf(e),
        e.resource is Some,
        data.len() <= e.row_width,
    ensures
        set_buffer_spec(e, data).1 is Ok,
        ({
            let buf = set_buffer_spec(e, data).0.resource->Some_0;
            &&& set_buffer_spec(e, data).0.resource is Some
            &&& buf.len() == e.row_width
            &&& forall|i: int| 0 <= i < data.len() ==> buf[i] == data[i]
            &&& forall|i: int| data.len() <= i < e.row_width ==> buf[i] == 0u8
        }),
{
}

/// A transfer fault never costs the engine its resource.  With the pulse
/// hardware behaving and exactly the next transfer made to fail, the
/// failing `output_row` returns `TransferError`, records no row, and
/// leaves the resource held — so the `output_row` that follows succeeds
/// and records its row.
pub proof fn lemma_transfer_fault_recovery(
    e: EngineView,
    data1: Seq<u8>,
    t1: u16,
    data2: Seq<u8>,
    t2: u16,
)
    requires
        engine_wf(e),
        e.resource is Some,
        e.rmt.faults.len() == 0,
        next_transfer_fault(e.transfer_faults) == TransferFault::Fail,
        next_transfer_fault(consumed_transfer(e.transfer_faults)) == TransferFault::NoFault,
        e.rmt.next_id + 2 <= u64::MAX,
    ensures
        ({
            let r1 = output_row_spec(e, data1, t1);
            let r2 = output_row_spec(r1.0, data2, t2);
            &&& r1.1 == Result::<(), Error>::Err(Error::TransferError)
            &&& r1.0.resource is Some
            &&& r1.0.sent_rows == e.sent_rows
            &&& r2.1 is Ok
            &&& r2.0.resource is Some
            &&& r2.0.sent_rows == e.sent_rows.push(filled_row(data2, e.row_width))
        }),
{
}

} // verus!
