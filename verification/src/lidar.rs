//! Interface stub of the range sensor.
//!
//! The sensor delivers bytes over a serial transport owned by the platform
//! layer; this core holds only the sensor's configuration and the packet
//! analysis entry point, which is a structural stub: it accepts every byte
//! without interpreting it.

use vstd::prelude::*;

verus! {

/// Errors a future packet analyzer could report. The current analyzer is a
/// stub and never raises one.
#[derive(Debug, PartialEq, Eq, Structural)]
pub enum DriverErrors {
    /// A received packet failed validation.
    InvalidPacket,
}

/// Range-sensor configuration consumed by the packet analyzer.
#[derive(Debug, PartialEq, Eq, Structural)]
pub struct LidarConfig {
    /// Whether the (unimplemented) packet analyzer should filter noise.
    pub use_noise_filter: bool,
}

impl Default for LidarConfig {
    /// Noise filtering starts disabled.
    fn default() -> (r: LidarConfig)
        ensures
            !r.use_noise_filter,
    {
        LidarConfig { use_noise_filter: false }
    }
}

/// Range-sensor state held by this core: its configuration. The receive line
/// itself belongs to the platform layer, which feeds bytes to
/// [`Lidar::analysis_one_pkg`].
pub struct Lidar {
    config: LidarConfig,
}

impl Lidar {
    /// Whether noise filtering is enabled.
    pub closed spec fn noise_filter_enabled(&self) -> bool {
        self.config.use_noise_filter
    }

    /// A sensor with the default configuration.
    pub fn new() -> (l: Lidar)
        ensures
            !l.noise_filter_enabled(),
    {
        Lidar { config: Default::default() }
    }

    /// Enable or disable noise filtering for the packet analyzer.
    pub fn set_noise_filter(&mut self, enable: bool)
        ensures
            final(self).noise_filter_enabled() == enable,
    {
        self.config.use_noise_filter = enable;
    }

    /// Whether noise filtering is currently enabled.
    pub fn noise_filter(&self) -> (r: bool)
        ensures
            r == self.noise_filter_enabled(),
    {
        self.config.use_noise_filter
    }

    /// Analyze one received byte. The analyzer is a structural stub: it
    /// succeeds on every input and interprets nothing.
    pub fn analysis_one_pkg(&self, _byte: u8) -> (r: Result<(), DriverErrors>)
        ensures
            r == Ok::<(), DriverErrors>(()),
    {
        Ok(())
    }
}

} // verus!
