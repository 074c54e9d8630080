//! The device capability interface: the abstract operation set a connected
//! sensor exposes, together with the plain data types that cross it.
//!
//! Vendor backends implement [`ImagerDriver`] and [`ImagerDevice`] outside of
//! this library; the control plane never inspects which implementation is
//! active.  No contracts are placed on the trait methods: every operation is
//! fallible and the state machines state what holds of every outcome.

use vstd::prelude::*;

use crate::frame::FrameData;
use crate::geom::ExposureArea;

verus! {

/// Identity of an enumerable sensor, produced by enumeration and consumed
/// once on connect.
#[derive(Clone, PartialEq, Eq, Debug)]
pub struct DeviceDescriptor {
    pub id: i32,
    pub name: String,
}

impl DeviceDescriptor {
    /// Both fields are equal.
    pub open spec fn eqv(self, other: Self) -> bool {
        self.id == other.id && self.name@ == other.name@
    }
}

/// One named, human-readable device property.
#[derive(PartialEq, Eq, Debug)]
pub struct DeviceProperty {
    pub name: String,
    pub value: String,
}

impl DeviceProperty {
    /// Both fields are equal.
    pub open spec fn eqv(self, other: Self) -> bool {
        self.name@ == other.name@ && self.value@ == other.value@
    }

    pub fn same_as(&self, other: &Self) -> (r: bool)
        ensures
            r == self.eqv(*other),
    {
        self.name == other.name && self.value == other.value
    }

}

impl Clone for DeviceProperty {
    fn clone(&self) -> (r: Self)
        ensures
            r.eqv(*self),
    {
        DeviceProperty { name: self.name.clone(), value: self.value.clone() }
    }
}

/// Sensor facts read once per connection and refreshed per device read.
///
/// Temperatures are in millidegrees Celsius, exposure times in microseconds.
#[derive(Clone, Copy, PartialEq, Eq, Structural, Debug)]
pub struct BasicProperties {
    pub width: usize,
    pub height: usize,
    pub temperature_mc: i64,
    pub exposure_us: u64,
    pub roi: ExposureArea,
}

/// Everything a device reports about itself.
#[derive(PartialEq, Eq, Debug)]
pub struct ImagerProperties {
    pub basic: BasicProperties,
    pub other: Vec<DeviceProperty>,
}

impl ImagerProperties {
    /// Basic properties are equal and the property lists agree element-wise.
    pub open spec fn eqv(self, other: Self) -> bool {
        &&& self.basic == other.basic
        &&& self.other.len() == other.other.len()
        &&& forall|i: int|
            0 <= i < self.other.len() ==> #[trigger] self.other[i].eqv(other.other[i])
    }

    pub fn same_as(&self, other: &Self) -> (r: bool)
        ensures
            r == self.eqv(*other),
    {
        if !(self.basic == other.basic && self.other.len() == other.other.len()) {
            return false;
        }
        let n = self.other.len();
        let mut i: usize = 0;
        while i < n
            invariant
                i <= n,
                n == self.other.len(),
                n == other.other.len(),
                forall|j: int| 0 <= j < i ==> #[trigger] self.other@[j].eqv(other.other@[j]),
            decreases n - i,
        {
            if !self.other[i].same_as(&other.other[i]) {
                return false;
            }
            i = i + 1;
        }
        true
    }
}

impl Clone for ImagerProperties {
    fn clone(&self) -> (r: Self)
        ensures
            r.eqv(*self),
    {
        let mut other: Vec<DeviceProperty> = Vec::new();
        let n = self.other.len();
        let mut i: usize = 0;
        while i < n
            invariant
                i <= n,
                n == self.other.len(),
                other.len() == i,
                forall|j: int| 0 <= j < i ==> #[trigger] other@[j].eqv(self.other@[j]),
            decreases n - i,
        {
            other.push(self.other[i].clone());
            i = i + 1;
        }
        ImagerProperties { basic: self.basic, other }
    }
}

/// Desired sensor temperature (millidegrees Celsius) and change speed
/// (millidegrees Celsius per minute).
#[derive(Clone, Copy, PartialEq, Eq, Structural, Debug)]
pub struct TemperatureRequest {
    pub temperature_mc: i64,
    pub speed_mc_min: i64,
}

/// Auto-exposure tuning pushed down to a connected device.
///
/// `percentile_pix_ppm` is a brightness percentile in parts per million;
/// `pixel_tgt` and `pixel_tol` are raw pixel intensities; `max_exp_us` is in
/// microseconds.
#[derive(Clone, Copy, PartialEq, Eq, Structural, Debug)]
pub struct OptConfigCmd {
    pub percentile_pix_ppm: u32,
    pub pixel_tgt: u16,
    pub pixel_tol: u16,
    pub max_exp_us: u64,
}

/// Parameters of one exposure attempt, created fresh from the current session
/// settings and immutable once the exposure starts, except for the actual
/// region the device reports back and the exposure time the auto-exposure
/// policy records.
#[derive(Clone, Copy, PartialEq, Eq, Structural, Debug)]
pub struct ExposureParams {
    pub gain: u16,
    pub time_us: u64,
    pub area: ExposureArea,
    pub autoexp: bool,
    pub flipx: bool,
    pub flipy: bool,
    pub percentile_pix_ppm: u32,
    pub pixel_tgt: u16,
    pub pixel_tol: u16,
    pub save: bool,
}

/// Operations of a connected sensor.  All are synchronous and fallible;
/// failures are string-described and recoverable by reconnecting.
pub trait ImagerDevice {
    fn read_properties(&mut self) -> Result<ImagerProperties, String>;

    fn close(&mut self);

    fn start_exposure(&mut self, params: &ExposureParams) -> Result<(), String>;

    fn image_ready(&mut self) -> Result<bool, String>;

    /// Downloads the finished frame.  The device reports the actual region it
    /// read out through `params.area`; the exposure state machine keeps every
    /// other parameter of the stored exposure.
    fn download_image(&mut self, params: &mut ExposureParams) -> Result<FrameData, String>;

    fn set_temperature(&mut self, request: TemperatureRequest) -> Result<(), String>;

    fn update_opt_config(&mut self, config: OptConfigCmd);

    fn cancel_capture(&mut self) -> Result<(), String>;
}

/// Enumeration and connection for one vendor backend, producing devices of
/// type `D`.
pub trait ImagerDriver<D: ImagerDevice> {
    fn list_devices(&mut self) -> Result<Vec<DeviceDescriptor>, String>;

    fn connect_device(
        &mut self,
        descriptor: &DeviceDescriptor,
        roi_request: &ExposureArea,
    ) -> Result<(D, ExposureArea), String>;
}

/// The auto-exposure capability: given the pixels of the just-downloaded
/// frame, the exposure time that produced them (microseconds) and a binning
/// factor, suggest the next exposure time or fail.
pub trait AutoExposure {
    fn calculate(
        &self,
        pixels: &Vec<u16>,
        current_exposure_us: u64,
        bin: u16,
    ) -> Result<u64, String>;
}

} // verus!
