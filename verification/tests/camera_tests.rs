use ccdi::backend::BackendState;
use ccdi::camera::{CameraController, CameraState};
use ccdi::config::ServiceConfig;
use ccdi::device::{
    AutoExposure, BasicProperties, DeviceDescriptor, ExposureParams, ImagerDevice, ImagerDriver,
    ImagerProperties, OptConfigCmd, TemperatureRequest,
};
use ccdi::frame::FrameData;
use ccdi::geom::ExposureArea;
use ccdi::messages::{
    CameraParamMessage, ClientMessage, ExposureCommand, IoMessage, StateMessage, StorageMessage,
};
use ccdi::status::ConnectionState;

/// A scripted sensor that succeeds at everything.
struct OkDevice {
    width: usize,
    height: usize,
    ready: bool,
}

impl ImagerDevice for OkDevice {
    fn read_properties(&mut self) -> Result<ImagerProperties, String> {
        Ok(ImagerProperties {
            basic: BasicProperties {
                width: self.width,
                height: self.height,
                temperature_mc: 5_000,
                exposure_us: 100_000,
                roi: ExposureArea {
                    x: 0,
                    y: 0,
                    width: self.width,
                    height: self.height,
                },
            },
            other: Vec::new(),
        })
    }

    fn close(&mut self) {}

    fn start_exposure(&mut self, _params: &ExposureParams) -> Result<(), String> {
        Ok(())
    }

    fn image_ready(&mut self) -> Result<bool, String> {
        Ok(self.ready)
    }

    fn download_image(&mut self, params: &mut ExposureParams) -> Result<FrameData, String> {
        let w = params.area.width;
        let h = params.area.height;
        Ok(FrameData {
            width: w,
            height: h,
            pixels: vec![3u16; w * h],
        })
    }

    fn set_temperature(&mut self, _request: TemperatureRequest) -> Result<(), String> {
        Ok(())
    }

    fn update_opt_config(&mut self, _config: OptConfigCmd) {}

    fn cancel_capture(&mut self) -> Result<(), String> {
        Ok(())
    }
}

/// A driver whose connection attempts can be scripted to fail.
struct ScriptedDriver {
    connect_failures: usize,
    list_failures: usize,
    connects: usize,
}

impl ScriptedDriver {
    fn working() -> Self {
        ScriptedDriver {
            connect_failures: 0,
            list_failures: 0,
            connects: 0,
        }
    }
}

impl ImagerDriver<OkDevice> for ScriptedDriver {
    fn list_devices(&mut self) -> Result<Vec<DeviceDescriptor>, String> {
        if self.list_failures > 0 {
            self.list_failures -= 1;
            return Err(String::from("bus error"));
        }
        Ok(vec![DeviceDescriptor {
            id: 0,
            name: String::from("Scripted Camera #0"),
        }])
    }

    fn connect_device(
        &mut self,
        _descriptor: &DeviceDescriptor,
        roi_request: &ExposureArea,
    ) -> Result<(OkDevice, ExposureArea), String> {
        if self.connect_failures > 0 {
            self.connect_failures -= 1;
            return Err(String::from("cable unplugged"));
        }
        self.connects += 1;
        Ok((
            OkDevice {
                width: 64,
                height: 48,
                ready: false,
            },
            *roi_request,
        ))
    }
}

/// A solver that never runs in these tests.
struct NoSolver;

impl AutoExposure for NoSolver {
    fn calculate(&self, _p: &Vec<u16>, _e: u64, _b: u16) -> Result<u64, String> {
        Err(String::from("unused"))
    }
}

const NO_SOLVER: Option<&NoSolver> = None;

fn config() -> ServiceConfig {
    ServiceConfig::default()
}

#[test]
fn connect_start_download_forwards_one_frame_to_both() {
    // End to end: connect, start an exposure, see the frame downloaded on
    // the next tick, and exactly one frame forwarded to storage and
    // conversion.
    let mut backend: BackendState<ScriptedDriver, OkDevice> =
        BackendState::new(ScriptedDriver::working(), config());

    // First tick: the machine connects.
    let out = backend.periodic(NO_SOLVER).expect("tick succeeds");
    assert!(matches!(backend.camera.state, CameraState::Connected));
    assert_eq!(out.storage_messages.len(), 0);

    // An explicit start: Idle -> Exposing.
    let out = backend
        .process(
            StateMessage::ExposureMessage(ExposureCommand::Start),
            NO_SOLVER,
        )
        .expect("command processed");
    assert_eq!(out.client_messages.len(), 1);
    assert!(backend.camera.connected.as_ref().unwrap().exposure.current_exposure.is_some());

    // The device reports the frame ready on the next tick: Exposing -> Idle,
    // and the frame fans out once to each consumer.
    backend.camera.connected.as_mut().unwrap().device.ready = true;
    let out = backend.periodic(NO_SOLVER).expect("tick succeeds");
    assert_eq!(out.storage_messages.len(), 1);
    assert_eq!(out.process_messages.len(), 1);
    assert!(backend.camera.connected.as_ref().unwrap().exposure.current_exposure.is_none());
    match &out.storage_messages[0] {
        StorageMessage::ProcessImage(image) => {
            assert_eq!(image.data.width, 64);
            assert_eq!(image.data.height, 48);
        }
        other => panic!("expected a frame for storage, got {:?}", other),
    }

    // No further frame arrives while idle.
    backend.camera.connected.as_mut().unwrap().device.ready = false;
    let out = backend.periodic(NO_SOLVER).expect("tick succeeds");
    assert_eq!(out.storage_messages.len(), 0);
}

#[test]
fn failed_connects_stay_in_error_with_details() {
    // The device refuses to connect three ticks in a row: the machine stays
    // in its error state with a non-empty detail and never hosts an exposure
    // machine.
    let driver = ScriptedDriver {
        connect_failures: 3,
        list_failures: 0,
        connects: 0,
    };
    let mut camera: CameraController<ScriptedDriver, OkDevice> =
        CameraController::new(driver, config());
    for _ in 0..3 {
        camera.periodic(NO_SOLVER);
        assert!(matches!(camera.state, CameraState::Error));
        assert!(camera.connected.is_none());
        assert!(!camera.detail.is_empty());
        assert_eq!(camera.detail, "Connect device failed");
        let view = camera.get_view();
        assert_eq!(view.status.camera, ConnectionState::Connecting);
        assert_eq!(view.status.exposure, ConnectionState::Disconnected);
    }
    // The fourth tick succeeds and the machine recovers on its own.
    let tick = camera.periodic(NO_SOLVER);
    assert!(matches!(camera.state, CameraState::Connected));
    assert_eq!(tick.io.len(), 1);
}

#[test]
fn failed_enumeration_stays_in_error() {
    let driver = ScriptedDriver {
        connect_failures: 0,
        list_failures: 1,
        connects: 0,
    };
    let mut camera: CameraController<ScriptedDriver, OkDevice> =
        CameraController::new(driver, config());
    camera.periodic(NO_SOLVER);
    assert!(matches!(camera.state, CameraState::Error));
    assert_eq!(camera.detail, "Could not list devices");
}

#[test]
fn view_is_emitted_only_on_change() {
    let mut camera: CameraController<ScriptedDriver, OkDevice> =
        CameraController::new(ScriptedDriver::working(), config());
    // The first tick changes the state, so a snapshot goes out.
    let tick = camera.periodic(NO_SOLVER);
    assert_eq!(tick.client.len(), 1);
    assert!(matches!(tick.client[0], ClientMessage::View(_)));
    // A second identical tick changes nothing: no snapshot.
    let tick = camera.periodic(NO_SOLVER);
    assert_eq!(tick.client.len(), 0);
    // A parameter change makes the next snapshot differ again.
    camera.update_camera_params(&CameraParamMessage::SetGain(42));
    let tick = camera.periodic(NO_SOLVER);
    assert_eq!(tick.client.len(), 1);
}

#[test]
fn io_reports_exposure_activity_every_tick() {
    let mut camera: CameraController<ScriptedDriver, OkDevice> =
        CameraController::new(ScriptedDriver::working(), config());
    let tick = camera.periodic(NO_SOLVER);
    assert_eq!(tick.io, vec![IoMessage::SetExposureActive(false)]);
    camera.exposure_command(&ExposureCommand::Start);
    let tick = camera.periodic(NO_SOLVER);
    assert_eq!(tick.io, vec![IoMessage::SetExposureActive(true)]);
}

#[test]
fn exposure_command_while_disconnected_sets_detail() {
    let driver = ScriptedDriver {
        connect_failures: 100,
        list_failures: 0,
        connects: 0,
    };
    let mut camera: CameraController<ScriptedDriver, OkDevice> =
        CameraController::new(driver, config());
    camera.exposure_command(&ExposureCommand::Start);
    assert_eq!(camera.detail, "Not connected - cannot handle exposure command");
}

#[test]
fn turn_off_makes_controller_inert() {
    let mut config = config();
    config.turn_off_command = String::from("halt");
    let mut backend: BackendState<ScriptedDriver, OkDevice> =
        BackendState::new(ScriptedDriver::working(), config);
    let out = backend
        .process::<NoSolver>(StateMessage::PowerOff, None)
        .expect("processed");
    assert_eq!(out.power_off, Some(String::from("halt")));
    // Further ticks are no-ops.
    let out = backend.periodic(NO_SOLVER).expect("tick succeeds");
    assert_eq!(out.io_messages.len(), 0);
    assert_eq!(out.client_messages.len(), 0);
    assert!(matches!(backend.camera.state, CameraState::Error));
}

#[test]
fn first_connection_adopts_camera_roi() {
    // The configured region is empty, so the driver's actual region is
    // adopted once; afterwards the live parameters stay in charge.
    struct RoiDriver;
    impl ImagerDriver<OkDevice> for RoiDriver {
        fn list_devices(&mut self) -> Result<Vec<DeviceDescriptor>, String> {
            Ok(vec![DeviceDescriptor {
                id: 1,
                name: String::from("Scripted Camera #1"),
            }])
        }
        fn connect_device(
            &mut self,
            _descriptor: &DeviceDescriptor,
            _roi_request: &ExposureArea,
        ) -> Result<(OkDevice, ExposureArea), String> {
            Ok((
                OkDevice {
                    width: 64,
                    height: 48,
                    ready: false,
                },
                ExposureArea {
                    x: 2,
                    y: 3,
                    width: 60,
                    height: 40,
                },
            ))
        }
    }
    let mut camera: CameraController<RoiDriver, OkDevice> =
        CameraController::new(RoiDriver, config());
    camera.periodic(NO_SOLVER);
    assert_eq!(camera.image_params.x, 2);
    assert_eq!(camera.image_params.y, 3);
    assert_eq!(camera.image_params.w, 60);
    assert_eq!(camera.image_params.h, 40);
    assert!(camera.roi_initialized);
}

#[test]
fn client_connected_receives_view_and_last_image() {
    let mut backend: BackendState<ScriptedDriver, OkDevice> =
        BackendState::new(ScriptedDriver::working(), config());
    let out = backend
        .process::<NoSolver>(StateMessage::ClientConnected, None)
        .expect("processed");
    assert_eq!(out.client_messages.len(), 1);

    let out = backend
        .process::<NoSolver>(StateMessage::ImageDisplayed(vec![1, 2, 3]), None)
        .expect("processed");
    assert_eq!(out.client_messages.len(), 0);

    let out = backend
        .process::<NoSolver>(StateMessage::ClientConnected, None)
        .expect("processed");
    assert_eq!(out.client_messages.len(), 2);
    assert!(matches!(out.client_messages[0], ClientMessage::View(_)));
    assert_eq!(out.client_messages[1], ClientMessage::PngImage(vec![1, 2, 3]));
}

#[test]
fn heating_update_drives_io() {
    let mut backend: BackendState<ScriptedDriver, OkDevice> =
        BackendState::new(ScriptedDriver::working(), config());
    let out = backend
        .process::<NoSolver>(
            StateMessage::CameraParam(CameraParamMessage::SetHeatingPwm(450)),
            None,
        )
        .expect("processed");
    assert_eq!(out.io_messages, vec![IoMessage::SetHeating(450)]);
    assert_eq!(out.client_messages.len(), 1);
    assert_eq!(backend.camera.camera_params.heating_pwm_pm, 450);
}

#[test]
fn storage_commands_are_forwarded() {
    let mut backend: BackendState<ScriptedDriver, OkDevice> =
        BackendState::new(ScriptedDriver::working(), config());
    let out = backend
        .process::<NoSolver>(
            StateMessage::StorageMessage(StorageMessage::EnableStore),
            None,
        )
        .expect("processed");
    assert_eq!(out.storage_messages, vec![StorageMessage::EnableStore]);
}

/// A device that reports a sensor the exposure machine cannot encode.
struct ZeroSensorDevice;

impl ImagerDevice for ZeroSensorDevice {
    fn read_properties(&mut self) -> Result<ImagerProperties, String> {
        Ok(ImagerProperties {
            basic: BasicProperties {
                width: 0,
                height: 0,
                temperature_mc: 0,
                exposure_us: 0,
                roi: ExposureArea {
                    x: 0,
                    y: 0,
                    width: 0,
                    height: 0,
                },
            },
            other: Vec::new(),
        })
    }
    fn close(&mut self) {}
    fn start_exposure(&mut self, _params: &ExposureParams) -> Result<(), String> {
        Ok(())
    }
    fn image_ready(&mut self) -> Result<bool, String> {
        Ok(false)
    }
    fn download_image(&mut self, _params: &mut ExposureParams) -> Result<FrameData, String> {
        Err(String::from("never"))
    }
    fn set_temperature(&mut self, _request: TemperatureRequest) -> Result<(), String> {
        Ok(())
    }
    fn update_opt_config(&mut self, _config: OptConfigCmd) {}
    fn cancel_capture(&mut self) -> Result<(), String> {
        Ok(())
    }
}

struct ZeroSensorDriver;

impl ImagerDriver<ZeroSensorDevice> for ZeroSensorDriver {
    fn list_devices(&mut self) -> Result<Vec<DeviceDescriptor>, String> {
        Ok(vec![DeviceDescriptor {
            id: 0,
            name: String::from("broken"),
        }])
    }
    fn connect_device(
        &mut self,
        _descriptor: &DeviceDescriptor,
        roi_request: &ExposureArea,
    ) -> Result<(ZeroSensorDevice, ExposureArea), String> {
        Ok((ZeroSensorDevice, *roi_request))
    }
}

#[test]
fn unsupported_sensor_dimensions_fail_initialization() {
    let mut camera: CameraController<ZeroSensorDriver, ZeroSensorDevice> =
        CameraController::new(ZeroSensorDriver, config());
    camera.periodic(NO_SOLVER);
    assert!(matches!(camera.state, CameraState::Error));
    assert!(camera.connected.is_none());
    assert_eq!(
        camera.detail,
        "Init failed: sensor dimensions out of supported range"
    );
}
