//! The camera connection state machine: owns the vendor driver, supervises
//! (re)connection, and hosts an exposure state machine once connected.  Every
//! device failure drops the handle and returns to the `Error` state, from
//! which the next tick retries from scratch.

use vstd::prelude::*;

use crate::config::ServiceConfig;
use crate::device::{
    AutoExposure, BasicProperties, DeviceDescriptor, ImagerDevice, ImagerDriver,
    ImagerProperties, TemperatureRequest,
};
use crate::exposure::{ExposureController, ExposureStep};
use crate::geom::ImgSize;
use crate::messages::{
    CameraParamMessage, ClientMessage, ExposureCommand, ImageParamMessage, IoMessage,
    ProcessMessage, StorageMessage,
};
use crate::params::{CameraParams, ImageParams};
use crate::status::{ConnectionState, LogicStatus, StorageDetail, StorageState, ViewState};

verus! {

/// States of the camera connection state machine.
#[derive(Clone, Copy, PartialEq, Eq, Structural, Debug)]
pub enum CameraState {
    Error,
    Connected,
}

/// The temperature ramp requested from every device, in millidegrees Celsius
/// per minute.
pub const TEMPERATURE_SPEED_MC_MIN: i64 = 1000;

/// A connected device together with its properties and the exposure state
/// machine driving it.
pub struct ConnectedCameraController<D: ImagerDevice> {
    pub device: D,
    pub properties: ImagerProperties,
    pub exposure: ExposureController,
}

/// The sensor dimensions the exposure state machine can drive: non-trivial
/// and within its 16-bit region encoding.
pub open spec fn supported_sensor(b: BasicProperties) -> bool {
    &&& 1 <= b.width <= u16::MAX
    &&& 1 <= b.height <= u16::MAX
}

/// Runtime check of [`supported_sensor`].
pub fn sensor_supported(b: &BasicProperties) -> (r: bool)
    ensures
        r == supported_sensor(*b),
{
    1 <= b.width && b.width <= 65535 && 1 <= b.height && b.height <= 65535
}

impl<D: ImagerDevice> ConnectedCameraController<D> {
    /// The exposure machine matches the device this controller read.
    pub open spec fn wf(self) -> bool {
        &&& self.exposure.wf()
        &&& self.exposure.properties == self.properties.basic
    }

    /// Reads the device's properties and builds the exposure state machine.
    /// A sensor outside the supported dimensions is rejected here, before any
    /// exposure is attempted.
    fn new(device: D, render_size: ImgSize) -> (r: Result<Self, String>)
        ensures
            r matches Ok(c) ==> {
                &&& c.wf()
                &&& !c.exposure.exposing()
                &&& supported_sensor(c.properties.basic)
                &&& c.exposure.image_params.render_size == render_size
            },
    {
        let mut device = device;
        let properties = match device.read_properties() {
            Ok(p) => p,
            Err(e) => {
                return Err(e);
            },
        };
        let b = properties.basic;
        if !sensor_supported(&b) {
            return Err(String::from_str("sensor dimensions out of supported range"));
        }
        let exposure = ExposureController::new(render_size, b);
        Ok(ConnectedCameraController { device, properties, exposure })
    }

    /// One tick while connected: pushes the target temperature down and steps
    /// the exposure state machine.
    pub fn periodic<A: AutoExposure>(
        &mut self,
        target_temperature_mc: i64,
        solver: Option<&A>,
    ) -> (r: Result<ExposureStep, String>)
        requires
            old(self).wf(),
        ensures
            final(self).wf(),
            final(self).properties == old(self).properties,
            final(self).exposure.same_settings(old(self).exposure),
            final(self).exposure.image_params.render_size == old(
                self,
            ).exposure.image_params.render_size,
            r matches Ok(step) ==> {
                &&& step.storage@.len() == step.process@.len()
                &&& step.storage@.len() <= 1
                &&& (step.storage@.len() == 1 ==> {
                    &&& old(self).exposure.exposing()
                    &&& step.storage@[0] matches StorageMessage::ProcessImage(ri) && {
                        &&& ri.wf()
                        &&& (old(self).exposure.current_exposure matches Some(p) && {
                            &&& ri.params.gain == p.gain
                            &&& ri.params.flipx == p.flipx
                            &&& ri.params.flipy == p.flipy
                            &&& ri.params.save == p.save
                            &&& (ri.params.time_us == p.time_us
                                || final(self).exposure.autoexp_time_us == Some(
                                ri.params.time_us,
                            ))
                        })
                        &&& step.process@[0] matches ProcessMessage::ConvertRawImage(c) && {
                            &&& c.image.eqv(ri)
                            &&& c.size == old(self).exposure.image_params.render_size
                        }
                    }
                })
                &&& (step.storage@.len() == 1 && !old(self).exposure.wants_rearm()
                    ==> !final(self).exposure.exposing())
                &&& (step.warning is Some ==> final(self).exposure.autoexp_time_us
                    == old(self).exposure.autoexp_time_us)
            },
    {
        let request = TemperatureRequest {
            temperature_mc: target_temperature_mc,
            speed_mc_min: TEMPERATURE_SPEED_MC_MIN,
        };
        match self.device.set_temperature(request) {
            Ok(_) => {},
            Err(e) => {
                return Err(e);
            },
        }
        self.exposure.periodic(&mut self.device, solver)
    }

    pub fn exposure_status(&self) -> (r: ConnectionState)
        ensures
            r == (if self.exposure.exposing() {
                ConnectionState::Established
            } else {
                ConnectionState::Disconnected
            }),
    {
        if self.exposure.exposure_active() {
            ConnectionState::Established
        } else {
            ConnectionState::Disconnected
        }
    }

    pub fn get_properties(&self) -> (r: ImagerProperties)
        ensures
            r.eqv(self.properties),
    {
        self.properties.clone()
    }

    pub fn update_image_params(&mut self, params: ImageParams)
        ensures
            *final(self) == (ConnectedCameraController {
                exposure: final(self).exposure,
                ..*old(self)
            }),
            final(self).exposure == (ExposureController {
                image_params: params,
                ..old(self).exposure
            }),
    {
        self.exposure.update_image_params(params);
    }

    pub fn update_camera_params(&mut self, params: CameraParams)
        ensures
            *final(self) == (ConnectedCameraController {
                exposure: final(self).exposure,
                ..*old(self)
            }),
            final(self).exposure == (ExposureController {
                camera_params: params,
                ..old(self).exposure
            }),
    {
        self.exposure.update_camera_params(params);
    }

    pub fn update_trigger_status(&mut self, value: bool)
        ensures
            *final(self) == (ConnectedCameraController {
                exposure: final(self).exposure,
                ..*old(self)
            }),
            final(self).exposure == (ExposureController {
                trigger_active: value,
                ..old(self).exposure
            }),
    {
        self.exposure.update_trigger_status(value);
    }

    /// Forwards an exposure command to the exposure state machine.
    pub fn exposure_command(&mut self, command: &ExposureCommand) -> (r: Result<(), String>)
        requires
            old(self).wf(),
        ensures
            final(self).wf(),
            final(self).properties == old(self).properties,
            final(self).exposure.image_params.render_size == old(
                self,
            ).exposure.image_params.render_size,
            command is Start && old(self).exposure.exposing() ==> {
                &&& final(self).exposure == old(self).exposure
                &&& r matches Err(m) && m@ == "Exposure already in progress."@
            },
            !(command is Start) ==> final(self).exposure == old(self).exposure,
    {
        self.exposure.exposure_command(&mut self.device, command)
    }

    /// Closes the device handle.
    pub fn close(self) {
        let mut device = self.device;
        device.close();
    }
}

/// Everything one tick of the control loop produces.
pub struct CameraTick {
    pub client: Vec<ClientMessage>,
    pub io: Vec<IoMessage>,
    pub storage: Vec<StorageMessage>,
    pub process: Vec<ProcessMessage>,
    pub warnings: Vec<String>,
}

impl CameraTick {
    pub fn empty() -> (r: Self)
        ensures
            r.client@.len() == 0,
            r.io@.len() == 0,
            r.storage@.len() == 0,
            r.process@.len() == 0,
            r.warnings@.len() == 0,
    {
        CameraTick {
            client: Vec::new(),
            io: Vec::new(),
            storage: Vec::new(),
            process: Vec::new(),
            warnings: Vec::new(),
        }
    }
}

/// The camera connection state machine.
pub struct CameraController<Drv: ImagerDriver<D>, D: ImagerDevice> {
    pub driver: Drv,
    pub state: CameraState,
    pub detail: String,
    pub connected: Option<ConnectedCameraController<D>>,
    pub view: Option<ViewState>,
    pub image_params: ImageParams,
    pub camera_params: CameraParams,
    pub storage_status: StorageState,
    pub config: ServiceConfig,
    pub trigger_active: bool,
    pub storage_detail: StorageDetail,
    pub turning_off: bool,
    /// Whether the region of interest has been adopted from a camera once;
    /// the first successful connection initializes it from the device's
    /// actual region, later ones keep the live parameters.
    pub roi_initialized: bool,
}

/// The camera parameters after one update message.
pub open spec fn update_camera_params_spec(p: CameraParams, m: CameraParamMessage) -> CameraParams {
    match m {
        CameraParamMessage::EnableLoop(v) => CameraParams { loop_enabled: v, ..p },
        CameraParamMessage::SetGain(v) => CameraParams { gain: v, ..p },
        CameraParamMessage::SetTime(v) => CameraParams { time_us: v, ..p },
        CameraParamMessage::SetTemp(v) => CameraParams { temperature_mc: v, ..p },
        CameraParamMessage::SetHeatingPwm(v) => CameraParams { heating_pwm_pm: v, ..p },
        CameraParamMessage::SetTriggerRequired(v) => CameraParams { trigger_required: v, ..p },
        CameraParamMessage::SetAutoExp(v) => CameraParams { autoexp: v, ..p },
    }
}

/// The image parameters after one update message.
pub open spec fn update_image_params_spec(p: ImageParams, m: ImageParamMessage) -> ImageParams {
    match m {
        ImageParamMessage::SetRoi((x, y, w, h)) => ImageParams { x, y, w, h, ..p },
        ImageParamMessage::SetFlipX(v) => ImageParams { flipx: v, ..p },
        ImageParamMessage::SetFlipY(v) => ImageParams { flipy: v, ..p },
        ImageParamMessage::SetPercentilePix(v) => ImageParams { percentile_pix_ppm: v, ..p },
        ImageParamMessage::SetPixelTgt(v) => ImageParams { pixel_tgt: v, ..p },
        ImageParamMessage::SetPixelTol(v) => ImageParams { pixel_tol: v, ..p },
    }
}

/// A boolean aspect rendered as a connection state.
pub open spec fn into_state(value: bool) -> ConnectionState {
    if value {
        ConnectionState::Established
    } else {
        ConnectionState::Disconnected
    }
}

impl<Drv: ImagerDriver<D>, D: ImagerDevice> CameraController<Drv, D> {
    /// The connection field agrees with the state, the nested controller is
    /// well-formed and shares this controller's render size, and the
    /// diagnostic detail is never empty.
    pub open spec fn wf(self) -> bool {
        &&& (self.state is Connected <==> self.connected is Some)
        &&& (self.connected matches Some(c) ==> c.wf()
            && c.exposure.image_params.render_size == self.image_params.render_size)
        &&& self.detail@.len() > 0
    }

    /// The connection state reported to viewers: an `Error` machine shows as
    /// still connecting, since it retries every tick.
    pub open spec fn spec_connection_state(self) -> ConnectionState {
        match self.state {
            CameraState::Error => ConnectionState::Connecting,
            CameraState::Connected => ConnectionState::Established,
        }
    }

    /// The exposure state reported to viewers.
    pub open spec fn spec_exposure_state(self) -> ConnectionState {
        match self.connected {
            Some(c) => if c.exposure.exposing() {
                ConnectionState::Established
            } else {
                ConnectionState::Disconnected
            },
            None => ConnectionState::Disconnected,
        }
    }

    /// An exposure is in flight.
    pub open spec fn exposure_active_spec(self) -> bool {
        self.spec_exposure_state() is Established
    }

    /// The snapshot `v` describes this controller's state.
    pub open spec fn view_matches(self, v: ViewState) -> bool {
        &&& v.detail@ == self.detail@
        &&& v.status.camera == self.spec_connection_state()
        &&& v.status.exposure == self.spec_exposure_state()
        &&& v.status.storage.eqv(self.storage_status)
        &&& v.status.trigger == into_state(self.trigger_active)
        &&& v.status.required == into_state(self.camera_params.trigger_required)
        &&& v.status.save == into_state(self.storage_detail.storage_enabled)
        &&& v.status.loop_enabled == into_state(self.camera_params.loop_enabled)
        &&& (match (v.camera_properties, self.connected) {
            (Some(p), Some(c)) => p.eqv(c.properties),
            (None, None) => true,
            _ => false,
        })
        &&& v.image_params == self.image_params
        &&& v.camera_params == self.camera_params
        &&& v.storage_detail.eqv(self.storage_detail)
    }

    pub fn new(driver: Drv, config: ServiceConfig) -> (r: Self)
        requires
            config.roi.x <= u16::MAX,
            config.roi.y <= u16::MAX,
            config.roi.width <= u16::MAX,
            config.roi.height <= u16::MAX,
        ensures
            r.wf(),
            r.state is Error,
            r.connected is None,
            r.view is None,
            r.detail@ == "Started"@,
            r.image_params == ImageParams::new_spec(config.render_size, config.roi, config.exp),
            r.camera_params == CameraParams::new_spec(),
            r.storage_status is Unknown,
            !r.trigger_active,
            !r.turning_off,
            !r.roi_initialized,
    {
        proof {
            reveal_strlit("Started");
        }
        let image_params = ImageParams::new(config.render_size, config.roi, config.exp);
        CameraController {
            driver,
            state: CameraState::Error,
            detail: String::from_str("Started"),
            connected: None,
            view: None,
            image_params,
            camera_params: CameraParams::new(),
            storage_status: StorageState::Unknown,
            config,
            trigger_active: false,
            storage_detail: StorageDetail::default(),
            turning_off: false,
            roi_initialized: false,
        }
    }

    /// Assembles the full snapshot of the control plane.
    pub fn get_view(&self) -> (r: ViewState)
        ensures
            self.view_matches(r),
    {
        let exposure_state = match &self.connected {
            Some(c) => c.exposure_status(),
            None => ConnectionState::Disconnected,
        };
        let camera_properties = match &self.connected {
            Some(c) => Some(c.get_properties()),
            None => None,
        };
        ViewState {
            detail: self.detail.clone(),
            status: LogicStatus {
                camera: match self.state {
                    CameraState::Error => ConnectionState::Connecting,
                    CameraState::Connected => ConnectionState::Established,
                },
                exposure: exposure_state,
                storage: self.storage_status.clone(),
                trigger: bool_state(self.trigger_active),
                required: bool_state(self.camera_params.trigger_required),
                save: bool_state(self.storage_detail.storage_enabled),
                loop_enabled: bool_state(self.camera_params.loop_enabled),
            },
            camera_properties,
            image_params: self.image_params,
            camera_params: self.camera_params,
            storage_detail: self.storage_detail.clone(),
        }
    }

    pub fn update_storage_status(&mut self, message: StorageState)
        ensures
            *final(self) == (CameraController { storage_status: message, ..*old(self) }),
    {
        self.storage_status = message;
    }

    pub fn update_storage_detail(&mut self, detail: StorageDetail)
        ensures
            *final(self) == (CameraController { storage_detail: detail, ..*old(self) }),
    {
        self.storage_detail = detail;
    }

    pub fn update_trigger_status(&mut self, value: bool)
        requires
            old(self).wf(),
        ensures
            final(self).wf(),
            final(self).trigger_active == value,
            final(self).camera_params == old(self).camera_params,
            final(self).image_params == old(self).image_params,
            final(self).state == old(self).state,
            final(self).turning_off == old(self).turning_off,
    {
        self.trigger_active = value;
        if let Some(c) = &mut self.connected {
            c.update_trigger_status(value);
        }
    }

    /// Applies one camera-parameter update and pushes the settings to the
    /// connected controller.
    pub fn update_camera_params(&mut self, message: &CameraParamMessage)
        requires
            old(self).wf(),
        ensures
            final(self).wf(),
            final(self).camera_params == update_camera_params_spec(
                old(self).camera_params,
                *message,
            ),
            final(self).image_params == old(self).image_params,
            final(self).state == old(self).state,
            final(self).detail@ == old(self).detail@,
            final(self).turning_off == old(self).turning_off,
            final(self).connected is Some <==> old(self).connected is Some,
            final(self).connected matches Some(c) ==> c.exposure.camera_params
                == final(self).camera_params,
    {
        match message {
            CameraParamMessage::EnableLoop(value) => {
                self.camera_params.loop_enabled = *value;
            },
            CameraParamMessage::SetGain(gain) => {
                self.camera_params.gain = *gain;
            },
            CameraParamMessage::SetTemp(temp) => {
                self.camera_params.temperature_mc = *temp;
            },
            CameraParamMessage::SetHeatingPwm(pwm) => {
                self.camera_params.heating_pwm_pm = *pwm;
            },
            CameraParamMessage::SetTime(time) => {
                self.camera_params.time_us = *time;
            },
            CameraParamMessage::SetTriggerRequired(value) => {
                self.camera_params.trigger_required = *value;
            },
            CameraParamMessage::SetAutoExp(value) => {
                self.camera_params.autoexp = *value;
            },
        }
        if let Some(c) = &mut self.connected {
            c.update_camera_params(self.camera_params);
        }
    }

    /// Applies one image-parameter update and pushes the settings to the
    /// connected controller.
    pub fn update_image_params(&mut self, message: &ImageParamMessage)
        requires
            old(self).wf(),
        ensures
            final(self).wf(),
            final(self).image_params == update_image_params_spec(
                old(self).image_params,
                *message,
            ),
            final(self).camera_params == old(self).camera_params,
            final(self).state == old(self).state,
            final(self).detail@ == old(self).detail@,
            final(self).turning_off == old(self).turning_off,
            final(self).connected is Some <==> old(self).connected is Some,
            final(self).connected matches Some(c) ==> c.exposure.image_params
                == final(self).image_params,
    {
        match message {
            ImageParamMessage::SetRoi((x, y, w, h)) => {
                self.image_params.x = *x;
                self.image_params.y = *y;
                self.image_params.w = *w;
                self.image_params.h = *h;
            },
            ImageParamMessage::SetFlipX(value) => {
                self.image_params.flipx = *value;
            },
            ImageParamMessage::SetFlipY(value) => {
                self.image_params.flipy = *value;
            },
            ImageParamMessage::SetPercentilePix(value) => {
                self.image_params.percentile_pix_ppm = *value;
            },
            ImageParamMessage::SetPixelTgt(value) => {
                self.image_params.pixel_tgt = *value;
            },
            ImageParamMessage::SetPixelTol(value) => {
                self.image_params.pixel_tol = *value;
            },
        }
        if let Some(c) = &mut self.connected {
            c.update_image_params(self.image_params);
        }
    }

    /// Forwards an exposure command to the connected controller, or records
    /// why it could not be handled.
    pub fn exposure_command(&mut self, command: &ExposureCommand)
        requires
            old(self).wf(),
        ensures
            final(self).wf(),
            final(self).state == old(self).state,
            final(self).camera_params == old(self).camera_params,
            final(self).image_params == old(self).image_params,
            final(self).turning_off == old(self).turning_off,
            old(self).connected is None ==> final(self).detail@
                == "Not connected - cannot handle exposure command"@,
    {
        let handled = match &mut self.connected {
            None => {
                proof {
                    reveal_strlit("Not connected - cannot handle exposure command");
                }
                self.set_detail("Not connected - cannot handle exposure command");
                None
            },
            Some(c) => Some(c.exposure_command(command)),
        };
        if let Some(Err(message)) = handled {
            let mut detail = String::from_str("Exposure command failed: ");
            detail.append(message.as_str());
            proof {
                reveal_strlit("Exposure command failed: ");
            }
            self.set_detail_string(detail);
        }
    }

    /// Marks the controller permanently inert and hands back the externally
    /// configured shutdown command for the process around it to run before
    /// terminating.
    pub fn turn_off(&mut self) -> (r: String)
        requires
            old(self).wf(),
        ensures
            final(self).wf(),
            final(self).turning_off,
            r@ == old(self).config.turn_off_command@,
    {
        self.turning_off = true;
        self.config.turn_off_command.clone()
    }

    /// One tick of the control loop: reconnects or steps the exposure
    /// machine, forwards any finished frame to the storage and conversion
    /// loops, recomputes the snapshot and emits it only on change, and
    /// reports whether an exposure is active.
    pub fn periodic<A: AutoExposure>(&mut self, solver: Option<&A>) -> (r: CameraTick)
        requires
            old(self).wf(),
        ensures
            final(self).wf(),
            final(self).camera_params == old(self).camera_params,
            final(self).trigger_active == old(self).trigger_active,
            final(self).turning_off == old(self).turning_off,
            old(self).turning_off ==> {
                &&& *final(self) == *old(self)
                &&& r.client@.len() == 0
                &&& r.io@.len() == 0
                &&& r.storage@.len() == 0
                &&& r.process@.len() == 0
            },
            !old(self).turning_off ==> {
                &&& r.io@.len() == 1
                &&& r.io@[0] matches IoMessage::SetExposureActive(v)
                    && v == final(self).exposure_active_spec()
                &&& final(self).view matches Some(nv) && final(self).view_matches(nv)
                &&& r.client@.len() <= 1
                &&& (r.client@.len() == 1 <==> !(old(self).view matches Some(ov) && ov.eqv(
                    final(self).view->0,
                )))
                &&& (r.client@.len() == 1 ==> (r.client@[0] matches ClientMessage::View(b)
                    && b.eqv(final(self).view->0)))
            },
            r.storage@.len() == r.process@.len(),
            r.storage@.len() <= 1,
            old(self).state is Error ==> r.storage@.len() == 0,
            r.storage@.len() == 1 ==> (r.storage@[0] matches StorageMessage::ProcessImage(ri)
                && {
                &&& ri.wf()
                &&& r.process@[0] matches ProcessMessage::ConvertRawImage(c) && c.image.eqv(ri)
            }),
    {
        if self.turning_off {
            return CameraTick::empty();
        }
        let mut tick = CameraTick::empty();

        match self.state {
            CameraState::Error => {
                let next = self.handle_error_state();
                self.state = next;
            },
            CameraState::Connected => {
                let (next, step) = self.handle_connected_state(solver);
                self.state = next;
                if let Some(step) = step {
                    let ExposureStep { mut storage, mut process, warning } = step;
                    tick.storage.append(&mut storage);
                    tick.process.append(&mut process);
                    if let Some(w) = warning {
                        tick.warnings.push(w);
                    }
                }
            },
        }

        let new_view = self.get_view();
        let changed = match &self.view {
            None => true,
            Some(ov) => !ov.same_as(&new_view),
        };
        if changed {
            tick.client.push(ClientMessage::View(Box::new(new_view.clone())));
            self.view = Some(new_view);
        } else {
            self.view = Some(new_view);
        }

        let active = match &self.connected {
            Some(c) => c.exposure.exposure_active(),
            None => false,
        };
        tick.io.push(IoMessage::SetExposureActive(active));
        tick
    }
}

impl<Drv: ImagerDriver<D>, D: ImagerDevice> CameraController<Drv, D> {
    fn set_detail(&mut self, detail: &str)
        requires
            detail@.len() > 0,
        ensures
            *final(self) == (CameraController { detail: final(self).detail, ..*old(self) }),
            final(self).detail@ == detail@,
    {
        self.detail = detail.to_owned();
    }

    fn set_detail_string(&mut self, detail: String)
        requires
            detail@.len() > 0,
        ensures
            *final(self) == (CameraController { detail: final(self).detail, ..*old(self) }),
            final(self).detail@ == detail@,
    {
        self.detail = detail;
    }

    /// In the `Error` state: close any stale device, enumerate, and try to
    /// connect to the first device found.
    fn handle_error_state(&mut self) -> (r: CameraState)
        requires
            old(self).wf(),
            old(self).state is Error,
        ensures
            (r is Connected <==> final(self).connected is Some),
            final(self).connected matches Some(c) ==> c.wf()
                && c.exposure.image_params.render_size == final(self).image_params.render_size
                && !c.exposure.exposing(),
            final(self).detail@.len() > 0,
            final(self).camera_params == old(self).camera_params,
            final(self).trigger_active == old(self).trigger_active,
            final(self).turning_off == old(self).turning_off,
            final(self).view == old(self).view,
            final(self).state == old(self).state,
            final(self).image_params.render_size == old(self).image_params.render_size,
    {
        if self.connected.is_some() {
            let taken = self.connected.take();
            if let Some(old_device) = taken {
                old_device.close();
            }
            proof {
                    reveal_strlit("Closing old device");
                }
                self.set_detail("Closing old device");
        }
        let devices = match self.driver.list_devices() {
            Err(_) => {
                proof {
                    reveal_strlit("Could not list devices");
                }
                self.set_detail("Could not list devices");
                return CameraState::Error;
            },
            Ok(devices) => devices,
        };
        if devices.len() == 0 {
            proof {
                    reveal_strlit("No devices present in list");
                }
                self.set_detail("No devices present in list");
            return CameraState::Error;
        }
        let first = &devices[0];
        self.connect_and_init(first)
    }

    /// Connects one enumerated device and initializes the nested controller.
    fn connect_and_init(&mut self, id: &DeviceDescriptor) -> (r: CameraState)
        requires
            old(self).connected is None,
        ensures
            (r is Connected <==> final(self).connected is Some),
            final(self).connected matches Some(c) ==> c.wf()
                && c.exposure.image_params.render_size == final(self).image_params.render_size
                && !c.exposure.exposing(),
            final(self).detail@.len() > 0,
            final(self).camera_params == old(self).camera_params,
            final(self).trigger_active == old(self).trigger_active,
            final(self).turning_off == old(self).turning_off,
            final(self).view == old(self).view,
            final(self).state == old(self).state,
            final(self).image_params.render_size == old(self).image_params.render_size,
    {
        let (device, actual_roi) = match self.driver.connect_device(id, &self.config.roi) {
            Err(_) => {
                proof {
                    reveal_strlit("Connect device failed");
                }
                self.set_detail("Connect device failed");
                return CameraState::Error;
            },
            Ok(connected) => connected,
        };
        proof {
                    reveal_strlit("Device connected, reading basic info");
                }
                self.set_detail("Device connected, reading basic info");
        match ConnectedCameraController::new(device, self.config.render_size) {
            Ok(mut controller) => {
                proof {
                    reveal_strlit("Camera initialized");
                }
                self.set_detail("Camera initialized");
                if !self.roi_initialized {
                    // The very first connection adopts the camera's actual
                    // region; later reconnects keep the live parameters.
                    self.image_params.x = clamp_u16(actual_roi.x);
                    self.image_params.y = clamp_u16(actual_roi.y);
                    self.image_params.w = clamp_u16(actual_roi.width);
                    self.image_params.h = clamp_u16(actual_roi.height);
                    self.roi_initialized = true;
                }
                controller.update_image_params(self.image_params);
                controller.update_camera_params(self.camera_params);
                controller.update_trigger_status(self.trigger_active);
                self.connected = Some(controller);
                CameraState::Connected
            },
            Err(message) => {
                let mut detail = String::from_str("Init failed: ");
                detail.append(message.as_str());
                proof {
                    reveal_strlit("Init failed: ");
                }
                self.set_detail_string(detail);
                self.connected = None;
                CameraState::Error
            },
        }
    }

    /// In the `Connected` state: one tick of the nested controller; any
    /// failure drops the device and records the reason.
    fn handle_connected_state<A: AutoExposure>(&mut self, solver: Option<&A>) -> (r: (
        CameraState,
        Option<ExposureStep>,
    ))
        requires
            old(self).wf(),
        ensures
            (r.0 is Connected <==> final(self).connected is Some),
            final(self).connected matches Some(c) ==> c.wf()
                && c.exposure.image_params.render_size == final(self).image_params.render_size,
            final(self).detail@.len() > 0,
            final(self).camera_params == old(self).camera_params,
            final(self).trigger_active == old(self).trigger_active,
            final(self).turning_off == old(self).turning_off,
            final(self).view == old(self).view,
            final(self).state == old(self).state,
            final(self).image_params == old(self).image_params,
            r.1 matches Some(step) ==> {
                &&& step.storage@.len() == step.process@.len()
                &&& step.storage@.len() <= 1
                &&& (step.storage@.len() == 1 ==> old(self).state is Connected && (step.storage@[0]
                    matches StorageMessage::ProcessImage(ri) && {
                    &&& ri.wf()
                    &&& step.process@[0] matches ProcessMessage::ConvertRawImage(c) && c.image.eqv(
                        ri,
                    )
                }))
            },
            r.1 is None ==> old(self).connected is None || final(self).connected is None,
            old(self).connected is None ==> r.1 is None,
    {
        let target = self.camera_params.temperature_mc;
        let outcome = match &mut self.connected {
            Some(c) => Some(c.periodic(target, solver)),
            None => None,
        };
        match outcome {
            None => (CameraState::Error, None),
            Some(Ok(step)) => (CameraState::Connected, Some(step)),
            Some(Err(message)) => {
                let mut detail = String::from_str("Periodic task failed: ");
                detail.append(message.as_str());
                proof {
                    reveal_strlit("Periodic task failed: ");
                }
                self.set_detail_string(detail);
                self.connected = None;
                (CameraState::Error, None)
            },
        }
    }
}

/// Clamps a coordinate into the 16-bit parameter encoding.
fn clamp_u16(value: usize) -> (r: u16)
    ensures
        value <= u16::MAX ==> r == value,
        value > u16::MAX ==> r == u16::MAX,
{
    if value > 65535 {
        65535
    } else {
        value as u16
    }
}

/// A boolean aspect rendered as a connection state.
fn bool_state(value: bool) -> (r: ConnectionState)
    ensures
        r == into_state(value),
{
    if value {
        ConnectionState::Established
    } else {
        ConnectionState::Disconnected
    }
}

} // verus!
