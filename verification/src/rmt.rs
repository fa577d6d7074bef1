//! The timing-pulse generator and its hardware channel.
//!
//! The pulse peripheral emits a two-phase waveform: a high level for a given
//! number of ticks followed by a low level, or a pure low-level hold when the
//! high phase is empty.  The hardware channel behind it is a linear
//! capability: it is acquired lazily on first use, handed to the hardware for
//! each transmission, and reclaimed only by a blocking wait.  A non-blocking
//! pulse deliberately forfeits the channel, so the next pulse must acquire a
//! fresh one; channels carry a serial number so that this re-acquisition is
//! visible in the model.
//!
//! Faults of the real peripheral (failure to configure the channel, to
//! transmit, or to complete a blocking wait) are injected through a fault
//! queue, so every outcome the hardware can produce is covered by the
//! contracts.

use vstd::prelude::*;

verus! {

/// One entry of the waveform handed to the pulse peripheral: a first level
/// held for `ticks1`, then a second level held for `ticks2`.
#[derive(Clone, Copy, Debug, PartialEq, Eq, Structural)]
pub struct PulseCode {
    /// The level of the first phase; `true` is high.
    pub level1: bool,
    /// Duration of the first phase, in peripheral ticks.
    pub ticks1: u16,
    /// The level of the second phase.
    pub level2: bool,
    /// Duration of the second phase, in peripheral ticks.
    pub ticks2: u16,
}

/// The waveform for a pulse of `high` ticks high then `low` ticks low: one
/// two-phase entry followed by the all-zero end marker.  When `high` is zero
/// the waveform degenerates to a pure low-level hold of `low` ticks.
pub open spec fn pulse_waveform(high: u16, low: u16) -> Seq<PulseCode> {
    if high > 0 {
        seq![
            PulseCode { level1: true, ticks1: high, level2: false, ticks2: low },
            PulseCode { level1: false, ticks1: 0, level2: false, ticks2: 0 },
        ]
    } else {
        seq![
            PulseCode { level1: false, ticks1: low, level2: false, ticks2: 0 },
            PulseCode { level1: false, ticks1: 0, level2: false, ticks2: 0 },
        ]
    }
}

/// Builds the waveform entries for a pulse, ready to be handed to the
/// peripheral by a pin-level adapter.
pub fn pulse_codes(high: u16, low: u16) -> (r: Vec<PulseCode>)
    ensures
        r@ == pulse_waveform(high, low),
{
    let mut v: Vec<PulseCode> = Vec::new();
    if high > 0 {
        v.push(PulseCode { level1: true, ticks1: high, level2: false, ticks2: low });
    } else {
        v.push(PulseCode { level1: false, ticks1: low, level2: false, ticks2: 0 });
    }
    v.push(PulseCode { level1: false, ticks1: 0, level2: false, ticks2: 0 });
    proof {
        assert(v@ =~= pulse_waveform(high, low));
    }
    v
}

/// Errors of the timing-pulse generator.
#[derive(Clone, Copy, Debug, PartialEq, Eq, Structural)]
pub enum TimingError {
    /// The hardware channel could not be configured; it stays absent so the
    /// next call can retry the acquisition.
    ChannelUnavailable,
    /// Transmission or the blocking wait failed; the channel is discarded
    /// and re-acquired lazily on the next call.
    Transmit,
}

/// A fault the pulse peripheral may produce, injected one per `pulse` call.
#[derive(Clone, Copy, Debug, PartialEq, Eq, Structural)]
pub enum PulseFault {
    /// The hardware behaves normally.
    NoFault,
    /// Acquiring the channel fails; only meaningful when a channel has to be
    /// acquired on this call.
    AcquireFail,
    /// Starting the transmission fails.
    TransmitFail,
    /// The blocking wait for completion fails; only meaningful for a
    /// blocking pulse.
    WaitFail,
}

/// A hardware pulse channel instance.  The serial number distinguishes a
/// freshly acquired channel from an earlier one.
#[derive(Clone, Copy, Debug, PartialEq, Eq, Structural)]
pub struct TimingChannel {
    /// Serial number of this acquisition; never reused.
    pub id: u64,
}

/// One pulse that reached the hardware, as recorded in the trace.
#[derive(Clone, Copy, Debug, PartialEq, Eq, Structural)]
pub struct SentPulse {
    /// Ticks of the high phase; zero means a pure low hold.
    pub high: u16,
    /// Ticks of the low phase.
    pub low: u16,
    /// Whether the call waited for the waveform to complete.
    pub blocking: bool,
    /// Serial number of the channel instance that carried the pulse.
    pub channel_id: u64,
}

/// The timing-pulse generator: a lazily acquired channel, the trace of
/// pulses that reached the hardware, and the queue of injected faults.
pub struct Rmt {
    /// The channel, when held; `None` while unacquired, forfeited or
    /// discarded.
    pub tx_channel: Option<TimingChannel>,
    /// Serial number the next acquisition will use.
    pub next_id: u64,
    /// Every pulse that reached the hardware, in order.
    pub sent: Vec<SentPulse>,
    /// Injected faults, consumed one per `pulse` call from the end.
    pub faults: Vec<PulseFault>,
}

/// Mathematical state of the pulse generator.
#[verifier::ext_equal]
pub struct RmtView {
    /// The held channel, if any.
    pub tx_channel: Option<TimingChannel>,
    /// Serial number of the next acquisition.
    pub next_id: u64,
    /// Trace of pulses that reached the hardware.
    pub sent: Seq<SentPulse>,
    /// Pending injected faults; the last element is consumed first.
    pub faults: Seq<PulseFault>,
}

impl View for Rmt {
    type V = RmtView;

    open spec fn view(&self) -> RmtView {
        RmtView {
            tx_channel: self.tx_channel,
            next_id: self.next_id,
            sent: self.sent@,
            faults: self.faults@,
        }
    }
}

/// The fault consumed by the next `pulse` call: the last queue entry, or
/// none when the queue is empty.
pub open spec fn next_pulse_fault(faults: Seq<PulseFault>) -> PulseFault {
    if faults.len() == 0 {
        PulseFault::NoFault
    } else {
        faults.last()
    }
}

/// The fault queue after one entry has been consumed.
pub open spec fn consumed(faults: Seq<PulseFault>) -> Seq<PulseFault> {
    if faults.len() == 0 {
        faults
    } else {
        faults.drop_last()
    }
}

/// Channel serial numbers are consistent: the held channel and every
/// recorded pulse predate the next acquisition number.
pub open spec fn rmt_wf(r: RmtView) -> bool {
    &&& match r.tx_channel {
        Some(c) => c.id < r.next_id,
        None => true,
    }
    &&& forall|i: int| 0 <= i < r.sent.len() ==> (#[trigger] r.sent[i]).channel_id < r.next_id
}

/// What one `pulse(high, low, blocking)` call does to the generator, and
/// what it returns, for every injected fault.
///
/// An absent channel is acquired first (or the call fails with
/// `ChannelUnavailable`, leaving everything unchanged but the fault queue).
/// The channel is then handed to the hardware: a transmit fault discards it
/// and records nothing; otherwise the pulse reaches the hardware and is
/// recorded.  A blocking call reclaims the same channel instance after a
/// successful wait and discards it after a failed one; a non-blocking call
/// never reclaims it.
pub open spec fn pulse_spec(r: RmtView, high: u16, low: u16, blocking: bool) -> (RmtView, Result<
    (),
    TimingError,
>) {
    let fault = next_pulse_fault(r.faults);
    let rest = consumed(r.faults);
    if r.tx_channel is None && fault == PulseFault::AcquireFail {
        (RmtView { faults: rest, ..r }, Err(TimingError::ChannelUnavailable))
    } else {
        let cid = match r.tx_channel {
            Some(c) => c.id,
            None => r.next_id,
        };
        let nid = match r.tx_channel {
            Some(c) => r.next_id,
            None => (r.next_id + 1) as u64,
        };
        if fault == PulseFault::TransmitFail {
            (
                RmtView { tx_channel: None, next_id: nid, faults: rest, ..r },
                Err(TimingError::Transmit),
            )
        } else {
            let recorded = r.sent.push(
                SentPulse { high, low, blocking, channel_id: cid },
            );
            if blocking && fault == PulseFault::WaitFail {
                (
                    RmtView { tx_channel: None, next_id: nid, sent: recorded, faults: rest },
                    Err(TimingError::Transmit),
                )
            } else {
                (
                    RmtView {
                        tx_channel: if blocking {
                            Some(TimingChannel { id: cid })
                        } else {
                            None
                        },
                        next_id: nid,
                        sent: recorded,
                        faults: rest,
                    },
                    Ok(()),
                )
            }
        }
    }
}

impl Rmt {
    /// A fresh generator: no channel yet, nothing sent, no faults pending.
    pub fn new() -> (r: Rmt)
        ensures
            r@ == (RmtView {
                tx_channel: None,
                next_id: 0,
                sent: Seq::<SentPulse>::empty(),
                faults: Seq::<PulseFault>::empty(),
            }),
            rmt_wf(r@),
    {
        let r = Rmt { tx_channel: None, next_id: 0, sent: Vec::new(), faults: Vec::new() };
        proof {
            assert(r@ =~= (RmtView {
                tx_channel: None,
                next_id: 0,
                sent: Seq::<SentPulse>::empty(),
                faults: Seq::<PulseFault>::empty(),
            }));
        }
        r
    }

    /// Emits a two-phase waveform of `high` ticks high then `low` ticks low
    /// (or a pure low hold when `high` is zero), acquiring the hardware
    /// channel first if none is held.  With `blocking` the call waits for
    /// completion and reclaims the channel; without it the call returns at
    /// once and forfeits the channel by design.
    pub fn pulse(&mut self, high: u16, low: u16, blocking: bool) -> (res: Result<
        (),
        TimingError,
    >)
        requires
            old(self).next_id < u64::MAX,
        ensures
            final(self)@ == pulse_spec(old(self)@, high, low, blocking).0,
            res == pulse_spec(old(self)@, high, low, blocking).1,
    {
        let fault = match self.faults.pop() {
            Some(f) => f,
            None => PulseFault::NoFault,
        };
        let chan: TimingChannel;
        match self.tx_channel {
            Some(c) => {
                chan = c;
            },
            None => {
                if matches!(fault, PulseFault::AcquireFail) {
                    proof {
                        assert(self@ =~= pulse_spec(old(self)@, high, low, blocking).0);
                    }
                    return Err(TimingError::ChannelUnavailable);
                }
                chan = TimingChannel { id: self.next_id };
                self.next_id = self.next_id + 1;
            },
        }
        self.tx_channel = None;
        if matches!(fault, PulseFault::TransmitFail) {
            proof {
                assert(self@ =~= pulse_spec(old(self)@, high, low, blocking).0);
            }
            return Err(TimingError::Transmit);
        }
        self.sent.push(SentPulse { high, low, blocking, channel_id: chan.id });
        if blocking {
            if matches!(fault, PulseFault::WaitFail) {
                proof {
                    assert(self@ =~= pulse_spec(old(self)@, high, low, blocking).0);
                }
                return Err(TimingError::Transmit);
            }
            self.tx_channel = Some(chan);
        }
        proof {
            assert(self@ =~= pulse_spec(old(self)@, high, low, blocking).0);
        }
        Ok(())
    }
}

/// A non-blocking pulse forfeits its channel: the generator holds no
/// channel afterwards, and a blocking pulse issued next runs on a freshly
/// acquired channel instance — a strictly newer serial number than the one
/// the non-blocking pulse used — rather than reusing it.
pub proof fn lemma_nonblocking_pulse_forfeits_channel(
    r: RmtView,
    high: u16,
    low: u16,
    high2: u16,
    low2: u16,
)
    requires
        rmt_wf(r),
        r.next_id + 2 <= u64::MAX,
        pulse_spec(r, high, low, false).1 is Ok,
        pulse_spec(pulse_spec(r, high, low, false).0, high2, low2, true).1 is Ok,
    ensures
        ({
            let r1 = pulse_spec(r, high, low, false).0;
            let r2 = pulse_spec(r1, high2, low2, true).0;
            &&& r1.tx_channel is None
            &&& r2.sent.len() == r.sent.len() + 2
            &&& r2.sent.last().channel_id > r1.sent.last().channel_id
            &&& r2.tx_channel == Some(TimingChannel { id: r2.sent.last().channel_id })
        }),
{
}

} // verus!
