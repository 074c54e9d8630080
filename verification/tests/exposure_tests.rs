use ccdi::device::{
    AutoExposure, BasicProperties, DeviceDescriptor, ExposureParams, ImagerDevice, ImagerDriver,
    ImagerProperties, OptConfigCmd, TemperatureRequest,
};
use ccdi::exposure::ExposureController;
use ccdi::frame::FrameData;
use ccdi::geom::{ExposureArea, ImgSize};
use ccdi::messages::{ProcessMessage, StorageMessage};
use ccdi::params::{CameraParams, ImageParams, OptExposureConfig};

/// A scripted sensor: records calls and answers from fixed values.
struct ScriptedDevice {
    properties: BasicProperties,
    start_results: Vec<Result<(), String>>,
    ready: bool,
    started: usize,
    downloads: usize,
}

impl ScriptedDevice {
    fn new(width: usize, height: usize) -> Self {
        ScriptedDevice {
            properties: BasicProperties {
                width,
                height,
                temperature_mc: 10_000,
                exposure_us: 100_000,
                roi: ExposureArea {
                    x: 0,
                    y: 0,
                    width,
                    height,
                },
            },
            start_results: Vec::new(),
            ready: true,
            started: 0,
            downloads: 0,
        }
    }
}

impl ImagerDevice for ScriptedDevice {
    fn read_properties(&mut self) -> Result<ImagerProperties, String> {
        Ok(ImagerProperties {
            basic: self.properties,
            other: Vec::new(),
        })
    }

    fn close(&mut self) {}

    fn start_exposure(&mut self, _params: &ExposureParams) -> Result<(), String> {
        self.started += 1;
        if self.start_results.is_empty() {
            Ok(())
        } else {
            self.start_results.remove(0)
        }
    }

    fn image_ready(&mut self) -> Result<bool, String> {
        Ok(self.ready)
    }

    fn download_image(&mut self, params: &mut ExposureParams) -> Result<FrameData, String> {
        self.downloads += 1;
        let w = params.area.width;
        let h = params.area.height;
        Ok(FrameData {
            width: w,
            height: h,
            pixels: vec![7u16; w * h],
        })
    }

    fn set_temperature(&mut self, _request: TemperatureRequest) -> Result<(), String> {
        Ok(())
    }

    fn update_opt_config(&mut self, _config: OptConfigCmd) {}

    fn cancel_capture(&mut self) -> Result<(), String> {
        Ok(())
    }
}

/// An auto-exposure solver that always suggests a fixed time.
struct FixedSolver {
    suggestion_us: u64,
}

impl AutoExposure for FixedSolver {
    fn calculate(
        &self,
        _pixels: &Vec<u16>,
        _current_exposure_us: u64,
        _bin: u16,
    ) -> Result<u64, String> {
        Ok(self.suggestion_us)
    }
}

const NO_SOLVER: Option<&FixedSolver> = None;

fn controller(width: usize, height: usize) -> ExposureController {
    ExposureController::new(
        ImgSize { x: 100, y: 100 },
        BasicProperties {
            width,
            height,
            temperature_mc: 0,
            exposure_us: 0,
            roi: ExposureArea {
                x: 0,
                y: 0,
                width,
                height,
            },
        },
    )
}

fn roi_params(x: u16, y: u16, w: u16, h: u16) -> ImageParams {
    let mut params = ImageParams::new(
        ImgSize { x: 100, y: 100 },
        ExposureArea {
            x: 0,
            y: 0,
            width: 0,
            height: 0,
        },
        OptExposureConfig::default(),
    );
    params.x = x;
    params.y = y;
    params.w = w;
    params.h = h;
    params
}

#[test]
fn zero_roi_uses_full_sensor() {
    let mut machine = controller(6000, 4000);
    let mut device = ScriptedDevice::new(6000, 4000);
    machine.update_image_params(roi_params(0, 0, 0, 0));
    machine.start_exposure(&mut device).expect("start must succeed");
    let params = machine.current_exposure.clone().expect("exposing");
    assert_eq!(params.area.width, 6000);
    assert_eq!(params.area.height, 4000);
    assert_eq!(params.area.x, 0);
    assert_eq!(params.area.y, 0);
}

#[test]
fn zero_width_alone_uses_full_width() {
    let mut machine = controller(100, 80);
    let mut device = ScriptedDevice::new(100, 80);
    machine.update_image_params(roi_params(0, 10, 0, 20));
    machine.start_exposure(&mut device).expect("start must succeed");
    let params = machine.current_exposure.clone().expect("exposing");
    assert_eq!(params.area.width, 100);
    assert_eq!(params.area.height, 20);
    assert_eq!(params.area.y, 10);
}

#[test]
fn out_of_bounds_offset_resets_to_zero() {
    let mut machine = controller(100, 80);
    let mut device = ScriptedDevice::new(100, 80);
    // x + width = 60 + 50 exceeds the 100-wide sensor: x resets to 0.
    machine.update_image_params(roi_params(60, 0, 50, 40));
    machine.start_exposure(&mut device).expect("start must succeed");
    let params = machine.current_exposure.clone().expect("exposing");
    assert_eq!(params.area.x, 0);
    assert_eq!(params.area.width, 50);
    assert_eq!(params.area.y, 0);
    assert_eq!(params.area.height, 40);
    // The region never sticks out of the sensor.
    assert!(params.area.x + params.area.width <= 100);
    assert!(params.area.y + params.area.height <= 80);
}

#[test]
fn out_of_bounds_vertical_offset_resets_to_zero() {
    let mut machine = controller(100, 80);
    let mut device = ScriptedDevice::new(100, 80);
    machine.update_image_params(roi_params(0, 70, 40, 30));
    machine.start_exposure(&mut device).expect("start must succeed");
    let params = machine.current_exposure.clone().expect("exposing");
    assert_eq!(params.area.y, 0);
    assert_eq!(params.area.height, 30);
}

#[test]
fn start_while_exposing_is_rejected() {
    let mut machine = controller(100, 80);
    let mut device = ScriptedDevice::new(100, 80);
    machine.start_exposure(&mut device).expect("first start succeeds");
    let before = machine.current_exposure.clone();
    let result = machine.start_exposure(&mut device);
    assert_eq!(result, Err(String::from("Exposure already in progress.")));
    // The rejection changes nothing: the stored exposure is untouched and the
    // device saw only the first start.
    assert_eq!(machine.current_exposure, before);
    assert_eq!(device.started, 1);
}

#[test]
fn device_failure_keeps_machine_idle() {
    let mut machine = controller(100, 80);
    let mut device = ScriptedDevice::new(100, 80);
    device.start_results.push(Err(String::from("shutter stuck")));
    let result = machine.start_exposure(&mut device);
    assert_eq!(result, Err(String::from("shutter stuck")));
    assert!(machine.current_exposure.is_none());
}

#[test]
fn ready_frame_downloads_and_fans_out_once() {
    let mut machine = controller(100, 80);
    let mut device = ScriptedDevice::new(100, 80);
    machine.update_image_params(roi_params(0, 0, 10, 8));
    machine.start_exposure(&mut device).expect("start succeeds");
    let step = machine.periodic(&mut device, NO_SOLVER).expect("tick succeeds");
    assert_eq!(step.storage.len(), 1);
    assert_eq!(step.process.len(), 1);
    assert!(machine.current_exposure.is_none());
    let stored = match step.storage.into_iter().next().unwrap() {
        StorageMessage::ProcessImage(image) => image,
        other => panic!("expected a frame for storage, got {:?}", other),
    };
    let converted = match step.process.into_iter().next().unwrap() {
        ProcessMessage::ConvertRawImage(c) => c,
        #[allow(unreachable_patterns)]
        other => panic!("expected a frame to convert, got {:?}", other),
    };
    // The very same frame goes to both consumers, carrying the stored
    // exposure's parameters.
    assert_eq!(converted.image, stored);
    assert_eq!(converted.size, ImgSize { x: 100, y: 100 });
    assert_eq!(stored.data.pixels.len(), 80);
    assert_eq!(stored.params.gain, 0);
    assert_eq!(stored.params.time_us, 1_000_000);
    assert!(!stored.params.save);
}

#[test]
fn pending_frame_waits_until_ready() {
    let mut machine = controller(100, 80);
    let mut device = ScriptedDevice::new(100, 80);
    device.ready = false;
    machine.start_exposure(&mut device).expect("start succeeds");
    let step = machine.periodic(&mut device, NO_SOLVER).expect("tick succeeds");
    assert_eq!(step.storage.len(), 0);
    assert!(machine.current_exposure.is_some());
    device.ready = true;
    let step = machine.periodic(&mut device, NO_SOLVER).expect("tick succeeds");
    assert_eq!(step.storage.len(), 1);
    assert!(machine.current_exposure.is_none());
}

#[test]
fn loop_enabled_rearms_after_download() {
    let mut machine = controller(100, 80);
    let mut device = ScriptedDevice::new(100, 80);
    let mut params = CameraParams::new();
    params.loop_enabled = true;
    params.trigger_required = false;
    machine.update_camera_params(params);
    let step = machine.periodic(&mut device, NO_SOLVER).expect("tick succeeds");
    // Idle and loop-enabled: the machine armed itself without a command.
    assert_eq!(step.storage.len(), 0);
    assert!(machine.current_exposure.is_some());
    let step = machine.periodic(&mut device, NO_SOLVER).expect("tick succeeds");
    // The finished frame went out and the loop armed the next exposure.
    assert_eq!(step.storage.len(), 1);
    assert!(machine.current_exposure.is_some());
}

#[test]
fn trigger_required_blocks_rearm_until_trigger() {
    let mut machine = controller(100, 80);
    let mut device = ScriptedDevice::new(100, 80);
    let mut params = CameraParams::new();
    params.loop_enabled = true;
    params.trigger_required = true;
    machine.update_camera_params(params);
    machine.periodic(&mut device, NO_SOLVER).expect("tick succeeds");
    assert!(machine.current_exposure.is_none());
    machine.update_trigger_status(true);
    machine.periodic(&mut device, NO_SOLVER).expect("tick succeeds");
    assert!(machine.current_exposure.is_some());
}

#[test]
fn autoexposure_suggestion_is_recorded() {
    let mut machine = controller(100, 80);
    let mut device = ScriptedDevice::new(100, 80);
    let solver = FixedSolver {
        suggestion_us: 250_000,
    };
    let mut params = CameraParams::new();
    params.autoexp = true;
    params.time_us = 1_000_000;
    machine.update_camera_params(params);
    machine.start_exposure(&mut device).expect("start succeeds");
    let step = machine
        .periodic(&mut device, Some(&solver))
        .expect("tick succeeds");
    assert!(step.warning.is_none());
    let stored = match &step.storage[0] {
        StorageMessage::ProcessImage(image) => image.params.clone(),
        other => panic!("expected a frame for storage, got {:?}", other),
    };
    // The downloaded frame carries the applied suggestion, and the next
    // exposure requests it.
    assert_eq!(stored.time_us, 250_000);
    assert_eq!(machine.autoexp_time_us, Some(250_000));
    machine.start_exposure(&mut device).expect("second start succeeds");
    assert_eq!(machine.current_exposure.clone().unwrap().time_us, 250_000);
}

/// A solver that always fails.
struct FailingSolver;

impl AutoExposure for FailingSolver {
    fn calculate(&self, _p: &Vec<u16>, _e: u64, _b: u16) -> Result<u64, String> {
        Err(String::from("histogram too dark"))
    }
}

#[test]
fn autoexposure_failure_is_a_warning_only() {
    let mut machine = controller(100, 80);
    let mut device = ScriptedDevice::new(100, 80);
    machine.start_exposure(&mut device).expect("start succeeds");
    let step = machine
        .periodic(&mut device, Some(&FailingSolver))
        .expect("tick still succeeds");
    assert_eq!(step.warning, Some(String::from("histogram too dark")));
    assert_eq!(step.storage.len(), 1);
    // The prior exposure time is kept, on the frame and in the machine.
    match &step.storage[0] {
        StorageMessage::ProcessImage(image) => {
            assert_eq!(image.params.time_us, 1_000_000);
        }
        other => panic!("expected a frame for storage, got {:?}", other),
    }
    assert_eq!(machine.autoexp_time_us, None);
}

#[test]
fn downloaded_roi_overwrites_stored_params() {
    // The scripted device clips every download to 8x4.
    struct ClippingDevice(ScriptedDevice);
    impl ImagerDevice for ClippingDevice {
        fn read_properties(&mut self) -> Result<ImagerProperties, String> {
            self.0.read_properties()
        }
        fn close(&mut self) {}
        fn start_exposure(&mut self, params: &ExposureParams) -> Result<(), String> {
            self.0.start_exposure(params)
        }
        fn image_ready(&mut self) -> Result<bool, String> {
            self.0.image_ready()
        }
        fn download_image(&mut self, _params: &mut ExposureParams) -> Result<FrameData, String> {
            Ok(FrameData {
                width: 8,
                height: 4,
                pixels: vec![1u16; 32],
            })
        }
        fn set_temperature(&mut self, request: TemperatureRequest) -> Result<(), String> {
            self.0.set_temperature(request)
        }
        fn update_opt_config(&mut self, config: OptConfigCmd) {
            self.0.update_opt_config(config)
        }
        fn cancel_capture(&mut self) -> Result<(), String> {
            self.0.cancel_capture()
        }
    }

    let mut machine = controller(100, 80);
    let mut device = ClippingDevice(ScriptedDevice::new(100, 80));
    machine.start_exposure(&mut device).expect("start succeeds");
    let step = machine.periodic(&mut device, NO_SOLVER).expect("tick succeeds");
    match &step.storage[0] {
        StorageMessage::ProcessImage(image) => {
            assert_eq!(image.params.area.width, 8);
            assert_eq!(image.params.area.height, 4);
            assert_eq!(image.data.width, 8);
        }
        other => panic!("expected a frame for storage, got {:?}", other),
    }
}

#[test]
fn malformed_download_is_an_error() {
    // A device whose frame does not match its stated dimensions.
    struct LyingDevice(ScriptedDevice);
    impl ImagerDevice for LyingDevice {
        fn read_properties(&mut self) -> Result<ImagerProperties, String> {
            self.0.read_properties()
        }
        fn close(&mut self) {}
        fn start_exposure(&mut self, params: &ExposureParams) -> Result<(), String> {
            self.0.start_exposure(params)
        }
        fn image_ready(&mut self) -> Result<bool, String> {
            self.0.image_ready()
        }
        fn download_image(&mut self, _params: &mut ExposureParams) -> Result<FrameData, String> {
            Ok(FrameData {
                width: 8,
                height: 4,
                pixels: vec![1u16; 5],
            })
        }
        fn set_temperature(&mut self, request: TemperatureRequest) -> Result<(), String> {
            self.0.set_temperature(request)
        }
        fn update_opt_config(&mut self, config: OptConfigCmd) {
            self.0.update_opt_config(config)
        }
        fn cancel_capture(&mut self) -> Result<(), String> {
            self.0.cancel_capture()
        }
    }

    let mut machine = controller(100, 80);
    let mut device = LyingDevice(ScriptedDevice::new(100, 80));
    machine.start_exposure(&mut device).expect("start succeeds");
    let result = machine.periodic(&mut device, NO_SOLVER);
    assert_eq!(
        result,
        Err(String::from("downloaded frame does not match its dimensions"))
    );
    // The broken frame is dropped, not repeated.
    assert!(machine.current_exposure.is_none());
}

#[test]
fn update_and_cancel_commands_keep_the_state_field() {
    let mut machine = controller(100, 80);
    let mut device = ScriptedDevice::new(100, 80);
    machine.start_exposure(&mut device).expect("start succeeds");
    let before = machine.current_exposure.clone();
    machine
        .exposure_command(&mut device, &ccdi::messages::ExposureCommand::Cancel)
        .expect("cancel is forwarded");
    assert_eq!(machine.current_exposure, before);
    machine
        .exposure_command(
            &mut device,
            &ccdi::messages::ExposureCommand::Update(OptExposureConfig::default()),
        )
        .expect("update is forwarded");
    assert_eq!(machine.current_exposure, before);
}
