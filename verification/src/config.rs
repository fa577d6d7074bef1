//! The panel's serial configuration register and the writer that commits it.
//!
//! Eight boolean control lines are shifted onto the wire in one fixed order
//! and latched under a strobe-low window; no partial update ever reaches the
//! hardware.  The writer here records every committed snapshot, so callers
//! can state exactly which register states the panel has seen and in what
//! order.

use vstd::prelude::*;

verus! {

/// In-memory mirror of the panel's 8-bit serial configuration register.
#[derive(Clone, Copy, Debug, PartialEq, Eq, Structural)]
pub struct ConfigRegister {
    /// Gates the row drivers' analog outputs.
    pub output_enable: bool,
    /// Scan mode line required by the panel's internal logic.
    pub mode: bool,
    /// Direction in which rows are scanned.
    pub scan_direction: bool,
    /// Start-of-frame line toggled during the vertical-sync handshake.
    pub start_of_frame: bool,
    /// Negative power rail enable.
    pub neg_power_enable: bool,
    /// Positive power rail enable.
    pub pos_power_enable: bool,
    /// Master power disable; high while the panel is off.
    pub power_disable: bool,
    /// Edge-triggers the row drivers to latch previously shifted row data.
    pub latch_enable: bool,
}

/// The reset state of the configuration register: every line low except
/// `power_disable` and `start_of_frame`.
pub open spec fn default_config() -> ConfigRegister {
    ConfigRegister {
        output_enable: false,
        mode: false,
        scan_direction: false,
        start_of_frame: true,
        neg_power_enable: false,
        pos_power_enable: false,
        power_disable: true,
        latch_enable: false,
    }
}

/// The fixed order in which the eight fields are shifted onto the wire,
/// first bit first.
pub open spec fn register_bits(c: ConfigRegister) -> Seq<bool> {
    seq![
        c.output_enable,
        c.mode,
        c.scan_direction,
        c.start_of_frame,
        c.neg_power_enable,
        c.pos_power_enable,
        c.power_disable,
        c.latch_enable,
    ]
}

impl Default for ConfigRegister {
    /// The register's reset state.
    fn default() -> (r: Self)
        ensures
            r == default_config(),
    {
        ConfigRegister {
            output_enable: false,
            mode: false,
            scan_direction: false,
            start_of_frame: true,
            neg_power_enable: false,
            pos_power_enable: false,
            power_disable: true,
            latch_enable: false,
        }
    }
}

impl ConfigRegister {
    /// The eight field values in wire order, ready to be shifted out bit by
    /// bit by a pin-level writer.
    pub fn serialized_bits(&self) -> (r: Vec<bool>)
        ensures
            r@ == register_bits(*self),
    {
        let mut v: Vec<bool> = Vec::new();
        v.push(self.output_enable);
        v.push(self.mode);
        v.push(self.scan_direction);
        v.push(self.start_of_frame);
        v.push(self.neg_power_enable);
        v.push(self.pos_power_enable);
        v.push(self.power_disable);
        v.push(self.latch_enable);
        proof {
            assert(v@ =~= register_bits(*self));
        }
        v
    }
}

/// Serializes the configuration register onto the panel's three config
/// lines; every full 8-bit commit is recorded in order.
pub struct ConfigWriter {
    /// The current in-memory register contents; mutations become visible to
    /// the panel only through [`ConfigWriter::write`].
    pub config: ConfigRegister,
    /// Every register snapshot committed to the panel, in order.
    pub commits: Vec<ConfigRegister>,
}

impl ConfigWriter {
    /// A fresh writer holding the reset register, with nothing committed yet.
    pub fn new() -> (r: ConfigWriter)
        ensures
            r.config == default_config(),
            r.commits@ == Seq::<ConfigRegister>::empty(),
    {
        ConfigWriter { config: ConfigRegister::default(), commits: Vec::new() }
    }

    /// Commits the current register contents as one atomic 8-bit write.
    pub fn write(&mut self)
        ensures
            final(self).config == old(self).config,
            final(self).commits@ == old(self).commits@.push(old(self).config),
    {
        let snapshot = self.config;
        self.commits.push(snapshot);
    }
}

} // verus!
