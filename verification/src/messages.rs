//! The control-plane message vocabulary: everything the four worker loops
//! send to one another and to remote viewers.

use vstd::prelude::*;

use crate::frame::RawImage;
use crate::geom::ImgSize;
use crate::params::OptExposureConfig;
use crate::status::{StorageDetail, StorageState, ViewState};

verus! {

/// Messages sent to remote viewer connections.
#[derive(PartialEq, Debug)]
pub enum ClientMessage {
    /// Backpressure sentinel: the connection should drop and reconnect.
    Reconnect,
    /// A full snapshot of the control plane.
    View(Box<ViewState>),
    /// An encoded preview image.
    PngImage(Vec<u8>),
}

/// Commands of the exposure state machine.
#[derive(PartialEq, Debug)]
pub enum ExposureCommand {
    Start,
    Update(OptExposureConfig),
    Cancel,
}

/// Updates to the preview/image session settings.
#[derive(PartialEq, Debug)]
pub enum ImageParamMessage {
    SetPercentilePix(u32),
    SetPixelTgt(u16),
    SetPixelTol(u16),
    SetRoi((u16, u16, u16, u16)),
    SetFlipX(bool),
    SetFlipY(bool),
}

/// Updates to the camera session settings.  Times are in microseconds,
/// temperatures in millidegrees Celsius, heating in per-mille.
#[derive(PartialEq, Debug)]
pub enum CameraParamMessage {
    EnableLoop(bool),
    SetGain(u16),
    SetTime(u64),
    SetTemp(i64),
    SetHeatingPwm(u16),
    SetTriggerRequired(bool),
    SetAutoExp(bool),
}

/// Commands of the storage manager.  The cadence is in milliseconds.
#[derive(PartialEq, Debug)]
pub enum StorageMessage {
    EnableStore,
    DisableStore,
    UpdateCadence(u64),
    ProcessImage(RawImage),
    SetDirectory(String),
}

/// A raw frame to convert into a preview of the given size.
#[derive(PartialEq, Debug)]
pub struct ConvertRawImage {
    pub image: RawImage,
    pub size: ImgSize,
}

/// Messages of the image conversion loop.
#[derive(PartialEq, Debug)]
pub enum ProcessMessage {
    ConvertRawImage(ConvertRawImage),
}

/// Messages of the IO loop.  Heating is in per-mille of full power.
#[derive(PartialEq, Debug)]
pub enum IoMessage {
    SetHeating(u16),
    SetExposureActive(bool),
    SetStatus(bool),
}

/// Messages of the control loop.
#[derive(PartialEq, Debug)]
pub enum StateMessage {
    ClientInformation((String, String)),
    ExposureMessage(ExposureCommand),
    ImageParam(ImageParamMessage),
    CameraParam(CameraParamMessage),
    ClientConnected,
    ImageDisplayed(Vec<u8>),
    UpdateStorageState(StorageState),
    TriggerValueChanged(bool),
    StorageMessage(StorageMessage),
    UpdateStorageDetail(StorageDetail),
    PowerOff,
}

} // verus!
