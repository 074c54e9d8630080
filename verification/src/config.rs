//! Service and server configuration data.  Loading these from disk or from
//! the command line happens outside the library; the control plane only reads
//! the plain values.

use vstd::prelude::*;

use crate::geom::{ExposureArea, ImgSize};
use crate::io::IoConfig;
use crate::params::OptExposureConfig;

verus! {

/// Configuration of the whole imaging service.  The save cadence is in
/// milliseconds.
#[derive(Clone, PartialEq, Eq, Debug)]
pub struct ServiceConfig {
    pub storage: String,
    pub savecadence_ms: u64,
    pub turn_off_command: String,
    pub render_size: ImgSize,
    pub roi: ExposureArea,
    pub exp: OptExposureConfig,
    pub io: IoConfig,
}

impl Default for ServiceConfig {
    fn default() -> (r: Self)
        ensures
            r.storage@ == "~/storage/"@,
            r.savecadence_ms == 10_000,
            r.turn_off_command@.len() == 0,
            r.render_size == (ImgSize { x: 1024, y: 1024 }),
            r.roi == (ExposureArea { x: 0, y: 0, width: 0, height: 0 }),
            r.exp == OptExposureConfig::default_spec(),
            r.io.trigger_input@ == "/sys/class/gpio/gpio17/value"@,
            r.io.exposure_status@ == "/sys/class/gpio/gpio2/value"@,
            r.io.heating_pwm@ == "/sys/class/gpio/gpio4/value"@,
            r.io.main_status@ == "/sys/class/gpio/gpio3/value"@,
    {
        ServiceConfig {
            storage: String::from_str("~/storage/"),
            savecadence_ms: 10_000,
            turn_off_command: String::new(),
            render_size: ImgSize { x: 1024, y: 1024 },
            roi: ExposureArea { x: 0, y: 0, width: 0, height: 0 },
            exp: OptExposureConfig::default(),
            io: IoConfig::default(),
        }
    }
}

/// Start-up options of the service process.
#[derive(Clone, PartialEq, Eq, Debug)]
pub struct ServerConfig {
    /// Which vendor backend to use.
    pub camera: String,
    /// Port the server listens on.
    pub addr: u16,
    /// Enable debug logging.
    pub debug: bool,
    /// Optional log file path.
    pub log: Option<String>,
}

pub fn default_addr() -> (r: u16)
    ensures
        r == 8081,
{
    8081
}

/// Parameters handed to the control loop at start-up.
#[derive(Clone, PartialEq, Eq, Debug)]
pub struct LogicParams {
    /// Which vendor backend to use.
    pub demo_mode: String,
}

} // verus!
