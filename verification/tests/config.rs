use lilygo_epd47::config::ConfigRegister;
use lilygo_epd47::config::ConfigWriter;

fn reset_register() -> ConfigRegister {
    ConfigRegister {
        output_enable: false,
        mode: false,
        scan_direction: false,
        start_of_frame: true,
        neg_power_enable: false,
        pos_power_enable: false,
        power_disable: true,
        latch_enable: false,
    }
}

#[test]
fn default_register_state() {
    let c = ConfigRegister::default();
    assert_eq!(c, reset_register());
}

#[test]
fn serialized_bit_order() {
    // A register whose fields are pairwise distinguishable on the wire.
    let c = ConfigRegister {
        output_enable: true,
        mode: false,
        scan_direction: true,
        start_of_frame: false,
        neg_power_enable: true,
        pos_power_enable: true,
        power_disable: false,
        latch_enable: true,
    };
    let bits = c.serialized_bits();
    assert_eq!(bits, vec![true, false, true, false, true, true, false, true]);
}

#[test]
fn serialized_bits_of_reset_state() {
    let bits = ConfigRegister::default().serialized_bits();
    // Only power_disable (7th bit) and start_of_frame (4th bit) are high.
    assert_eq!(bits, vec![false, false, false, true, false, false, true, false]);
}

#[test]
fn writer_starts_with_reset_register_and_no_commits() {
    let w = ConfigWriter::new();
    assert_eq!(w.config, reset_register());
    assert!(w.commits.is_empty());
}

#[test]
fn writer_commits_snapshots_in_order() {
    let mut w = ConfigWriter::new();
    w.config.mode = true;
    w.write();
    w.config.mode = false;
    w.config.latch_enable = true;
    w.write();
    assert_eq!(w.commits.len(), 2);
    assert_eq!(w.commits[0], ConfigRegister { mode: true, ..reset_register() });
    assert_eq!(w.commits[1], ConfigRegister { latch_enable: true, ..reset_register() });
    // The in-memory register is untouched by committing.
    assert_eq!(w.config, ConfigRegister { latch_enable: true, ..reset_register() });
}
