use lilygo_epd47::rmt::pulse_codes;
use lilygo_epd47::rmt::PulseCode;
use lilygo_epd47::rmt::PulseFault;
use lilygo_epd47::rmt::Rmt;
use lilygo_epd47::rmt::TimingError;

#[test]
fn pulse_codes_two_phase_waveform() {
    let codes = pulse_codes(7, 3);
    assert_eq!(
        codes,
        vec![
            PulseCode { level1: true, ticks1: 7, level2: false, ticks2: 3 },
            PulseCode { level1: false, ticks1: 0, level2: false, ticks2: 0 },
        ]
    );
}

#[test]
fn pulse_codes_degenerate_low_hold() {
    // A zero high phase degenerates to a pure low-level hold.
    let codes = pulse_codes(0, 9);
    assert_eq!(
        codes,
        vec![
            PulseCode { level1: false, ticks1: 9, level2: false, ticks2: 0 },
            PulseCode { level1: false, ticks1: 0, level2: false, ticks2: 0 },
        ]
    );
}

#[test]
fn blocking_pulse_acquires_and_reclaims_channel() {
    let mut r = Rmt::new();
    assert!(r.tx_channel.is_none());
    assert_eq!(r.pulse(1, 1, true), Ok(()));
    let chan = r.tx_channel.expect("channel reclaimed after blocking pulse");
    assert_eq!(chan.id, 0);
    assert_eq!(r.sent.len(), 1);
    assert_eq!(r.sent[0].high, 1);
    assert_eq!(r.sent[0].low, 1);
    assert!(r.sent[0].blocking);
    assert_eq!(r.sent[0].channel_id, 0);
    // A second blocking pulse reuses the held channel instance.
    assert_eq!(r.pulse(2, 2, true), Ok(()));
    assert_eq!(r.tx_channel.expect("still held").id, 0);
    assert_eq!(r.sent[1].channel_id, 0);
}

#[test]
fn nonblocking_pulse_forfeits_channel() {
    let mut r = Rmt::new();
    assert_eq!(r.pulse(5, 50, false), Ok(()));
    // The non-blocking pulse does not reclaim its channel.
    assert!(r.tx_channel.is_none());
    // The next (blocking) pulse runs on a freshly acquired instance.
    assert_eq!(r.pulse(10, 10, true), Ok(()));
    assert_eq!(r.sent.len(), 2);
    assert_eq!(r.sent[0].channel_id, 0);
    assert_eq!(r.sent[1].channel_id, 1);
    assert_ne!(r.sent[0].channel_id, r.sent[1].channel_id);
    assert_eq!(r.tx_channel.expect("reclaimed").id, 1);
}

#[test]
fn acquire_fault_leaves_channel_absent_for_retry() {
    let mut r = Rmt::new();
    r.faults.push(PulseFault::AcquireFail);
    assert_eq!(r.pulse(1, 1, true), Err(TimingError::ChannelUnavailable));
    assert!(r.tx_channel.is_none());
    assert!(r.sent.is_empty());
    // The next call retries the acquisition and succeeds.
    assert_eq!(r.pulse(1, 1, true), Ok(()));
    assert_eq!(r.sent.len(), 1);
}

#[test]
fn transmit_fault_discards_channel() {
    let mut r = Rmt::new();
    assert_eq!(r.pulse(1, 1, true), Ok(()));
    assert_eq!(r.tx_channel.expect("held").id, 0);
    r.faults.push(PulseFault::TransmitFail);
    assert_eq!(r.pulse(2, 2, true), Err(TimingError::Transmit));
    // The channel is dropped and nothing was recorded for the failed call.
    assert!(r.tx_channel.is_none());
    assert_eq!(r.sent.len(), 1);
    // The next call lazily re-acquires a fresh channel.
    assert_eq!(r.pulse(3, 3, true), Ok(()));
    assert_eq!(r.sent[1].channel_id, 1);
}

#[test]
fn wait_fault_records_pulse_but_drops_channel() {
    let mut r = Rmt::new();
    r.faults.push(PulseFault::WaitFail);
    assert_eq!(r.pulse(4, 6, true), Err(TimingError::Transmit));
    // Transmission started, so the pulse reached the hardware...
    assert_eq!(r.sent.len(), 1);
    assert_eq!(r.sent[0].high, 4);
    // ...but the channel was lost in the failed wait.
    assert!(r.tx_channel.is_none());
}

#[test]
fn wait_fault_is_meaningless_for_nonblocking_pulse() {
    let mut r = Rmt::new();
    r.faults.push(PulseFault::WaitFail);
    // A non-blocking call never waits, so a wait fault cannot surface.
    assert_eq!(r.pulse(4, 6, false), Ok(()));
    assert_eq!(r.sent.len(), 1);
    assert!(r.tx_channel.is_none());
}
