//! The exposure state machine: drives one connected sensor through
//! idle/exposing/downloading cycles, applies the auto-exposure policy, and
//! emits finished frames to the storage and conversion loops.

use vstd::prelude::*;

use crate::device::{
    AutoExposure, BasicProperties, ExposureParams, ImagerDevice, OptConfigCmd,
};
use crate::frame::RawImage;
use crate::geom::{ExposureArea, ImgSize};
use crate::messages::{ConvertRawImage, ExposureCommand, ProcessMessage, StorageMessage};
use crate::params::{CameraParams, ImageParams, OptExposureConfig};

verus! {

/// The region of interest a request normalizes to, for a sensor of the given
/// dimensions: offsets are clamped into the sensor, a zero width or height
/// means the full sensor dimension, and an offset that would push the region
/// out of bounds is reset to zero.
pub open spec fn normalized_area(ip: ImageParams, sw: usize, sh: usize) -> ExposureArea {
    let x0: int = if ip.x as int <= sw - 1 {
        ip.x as int
    } else {
        sw - 1
    };
    let y0: int = if ip.y as int <= sh - 1 {
        ip.y as int
    } else {
        sh - 1
    };
    let w0: int = if ip.w as int <= sw as int {
        ip.w as int
    } else {
        sw as int
    };
    let h0: int = if ip.h as int <= sh as int {
        ip.h as int
    } else {
        sh as int
    };
    let w1: int = if w0 == 0 {
        sw as int
    } else {
        w0
    };
    let h1: int = if h0 == 0 {
        sh as int
    } else {
        h0
    };
    let x1: int = if x0 + w1 > sw as int {
        0
    } else {
        x0
    };
    let y1: int = if y0 + h1 > sh as int {
        0
    } else {
        y0
    };
    ExposureArea { x: x1 as usize, y: y1 as usize, width: w1 as usize, height: h1 as usize }
}

/// The image parameters after the normalized region is written back into
/// the stored request.
pub open spec fn roi_written_back(ip: ImageParams, a: ExposureArea) -> ImageParams {
    ImageParams {
        x: a.x as u16,
        y: a.y as u16,
        w: a.width as u16,
        h: a.height as u16,
        ..ip
    }
}

/// A request with zero width or height normalizes to the full sensor
/// dimension before it reaches the device.
pub proof fn lemma_roi_zero_size_full_frame(ip: ImageParams, sw: usize, sh: usize)
    requires
        1 <= sw,
        1 <= sh,
    ensures
        ip.w == 0 ==> normalized_area(ip, sw, sh).width == sw,
        ip.h == 0 ==> normalized_area(ip, sw, sh).height == sh,
{
}

/// The normalized region always lies entirely within the sensor.
pub proof fn lemma_roi_within_sensor(ip: ImageParams, sw: usize, sh: usize)
    requires
        1 <= sw,
        1 <= sh,
    ensures
        normalized_area(ip, sw, sh).within(sw, sh),
{
}

/// A request whose clamped offset plus normalized extent would exceed the
/// sensor gets that offset reset to zero rather than left out of bounds; for
/// a request whose offset already lies on the sensor the same holds of the
/// request's own offset.
pub proof fn lemma_roi_offset_reset(ip: ImageParams, sw: usize, sh: usize)
    requires
        1 <= sw,
        1 <= sh,
    ensures
        ({
            let cx: int = if ip.x as int <= sw - 1 {
                ip.x as int
            } else {
                sw - 1
            };
            cx + normalized_area(ip, sw, sh).width > sw ==> normalized_area(ip, sw, sh).x == 0
        }),
        ({
            let cy: int = if ip.y as int <= sh - 1 {
                ip.y as int
            } else {
                sh - 1
            };
            cy + normalized_area(ip, sw, sh).height > sh ==> normalized_area(ip, sw, sh).y == 0
        }),
        ip.x < sw && ip.x + normalized_area(ip, sw, sh).width > sw ==> normalized_area(
            ip,
            sw,
            sh,
        ).x == 0,
        ip.y < sh && ip.y + normalized_area(ip, sw, sh).height > sh ==> normalized_area(
            ip,
            sw,
            sh,
        ).y == 0,
{
}

/// Messages produced by one periodic step of the exposure state machine:
/// a finished frame fans out to the storage loop and the conversion loop,
/// and a failed auto-exposure calculation surfaces as a warning.
#[derive(PartialEq, Debug)]
pub struct ExposureStep {
    pub storage: Vec<StorageMessage>,
    pub process: Vec<ProcessMessage>,
    pub warning: Option<String>,
}

/// The exposure state machine.  It is `Idle` when `current_exposure` is
/// `None` and `Exposing` when the parameters of the in-flight exposure are
/// stored there.
pub struct ExposureController {
    pub properties: BasicProperties,
    pub image_params: ImageParams,
    pub camera_params: CameraParams,
    pub current_exposure: Option<ExposureParams>,
    pub trigger_active: bool,
    pub save_active: bool,
    /// Exposure time suggested by the last successful auto-exposure
    /// calculation, in microseconds.
    pub autoexp_time_us: Option<u64>,
}

impl ExposureController {
    /// The sensor dimensions are non-trivial and fit the region encoding.
    pub open spec fn wf(self) -> bool {
        &&& 1 <= self.properties.width <= u16::MAX
        &&& 1 <= self.properties.height <= u16::MAX
    }

    /// An exposure is in flight.
    pub open spec fn exposing(self) -> bool {
        self.current_exposure is Some
    }

    /// Loop/trigger policy: re-arm when the loop is enabled and the trigger
    /// is active or not required.
    pub open spec fn wants_rearm(self) -> bool {
        self.camera_params.loop_enabled && (self.trigger_active
            || !self.camera_params.trigger_required)
    }

    /// The exposure time the next exposure will request: the latest
    /// auto-exposure suggestion when auto-exposure is on, the user setting
    /// otherwise.
    pub open spec fn next_time_us(self) -> u64 {
        if self.camera_params.autoexp && self.autoexp_time_us is Some {
            self.autoexp_time_us->0
        } else {
            self.camera_params.time_us
        }
    }

    /// The exposure parameters built from the current settings.
    pub open spec fn exposure_desc(self) -> ExposureParams {
        ExposureParams {
            gain: self.camera_params.gain,
            time_us: self.next_time_us(),
            area: normalized_area(self.image_params, self.properties.width, self.properties.height),
            autoexp: self.camera_params.autoexp,
            flipx: self.image_params.flipx,
            flipy: self.image_params.flipy,
            percentile_pix_ppm: self.image_params.percentile_pix_ppm,
            pixel_tgt: self.image_params.pixel_tgt,
            pixel_tol: self.image_params.pixel_tol,
            save: self.save_active,
        }
    }

    /// All fields except `image_params`, `current_exposure` and
    /// `autoexp_time_us` are those of `other`.
    pub open spec fn same_settings(self, other: Self) -> bool {
        &&& self.properties == other.properties
        &&& self.camera_params == other.camera_params
        &&& self.trigger_active == other.trigger_active
        &&& self.save_active == other.save_active
    }

    pub fn new(render_size: ImgSize, properties: BasicProperties) -> (r: Self)
        requires
            1 <= properties.width <= u16::MAX,
            1 <= properties.height <= u16::MAX,
        ensures
            r.wf(),
            r.properties == properties,
            r.image_params == ImageParams::new_spec(
                render_size,
                ExposureArea { x: 0, y: 0, width: 0, height: 0 },
                OptExposureConfig::default_spec(),
            ),
            r.camera_params == CameraParams::new_spec(),
            !r.exposing(),
            !r.trigger_active,
            !r.save_active,
            r.autoexp_time_us is None,
    {
        ExposureController {
            properties,
            image_params: ImageParams::new(
                render_size,
                ExposureArea { x: 0, y: 0, width: 0, height: 0 },
                OptExposureConfig::default(),
            ),
            camera_params: CameraParams::new(),
            current_exposure: None,
            trigger_active: false,
            save_active: false,
            autoexp_time_us: None,
        }
    }

    pub fn update_image_params(&mut self, params: ImageParams)
        ensures
            *final(self) == (ExposureController { image_params: params, ..*old(self) }),
    {
        self.image_params = params;
    }

    pub fn update_camera_params(&mut self, params: CameraParams)
        ensures
            *final(self) == (ExposureController { camera_params: params, ..*old(self) }),
    {
        self.camera_params = params;
    }

    pub fn update_trigger_status(&mut self, value: bool)
        ensures
            *final(self) == (ExposureController { trigger_active: value, ..*old(self) }),
    {
        self.trigger_active = value;
    }

    pub fn exposure_active(&self) -> (r: bool)
        ensures
            r == self.exposing(),
    {
        self.current_exposure.is_some()
    }

    /// Starts one exposure.  Rejected while one is already in flight; a
    /// device failure leaves the machine idle and surfaces the error.
    pub fn start_exposure<D: ImagerDevice>(&mut self, device: &mut D) -> (r: Result<(), String>)
        requires
            old(self).wf(),
        ensures
            final(self).wf(),
            final(self).same_settings(*old(self)),
            final(self).image_params.render_size == old(self).image_params.render_size,
            final(self).autoexp_time_us == old(self).autoexp_time_us,
            old(self).exposing() ==> {
                &&& *final(self) == *old(self)
                &&& r matches Err(m) && m@ == "Exposure already in progress."@
            },
            !old(self).exposing() ==> {
                let desc = old(self).exposure_desc();
                &&& final(self).image_params == roi_written_back(old(self).image_params, desc.area)
                &&& (r is Ok ==> final(self).current_exposure == Some(desc))
                &&& (r is Err ==> !final(self).exposing())
                &&& (old(self).image_params.w == 0 ==> desc.area.width == old(
                    self,
                ).properties.width)
                &&& (old(self).image_params.h == 0 ==> desc.area.height == old(
                    self,
                ).properties.height)
                &&& desc.area.within(old(self).properties.width, old(self).properties.height)
            },
    {
        if self.current_exposure.is_some() {
            return Err(String::from_str("Exposure already in progress."));
        }
        let params = self.make_exposure_description();
        let result = device.start_exposure(&params);
        if result.is_ok() {
            self.current_exposure = Some(params);
        }
        result
    }

    /// One tick of the state machine, called from the control loop while the
    /// camera is connected.  Downloads a ready frame, runs the auto-exposure
    /// policy on it, fans the frame out to the storage and conversion loops,
    /// and re-arms when the loop/trigger policy says so.
    pub fn periodic<D: ImagerDevice, A: AutoExposure>(
        &mut self,
        device: &mut D,
        solver: Option<&A>,
    ) -> (r: Result<ExposureStep, String>)
        requires
            old(self).wf(),
        ensures
            final(self).wf(),
            final(self).same_settings(*old(self)),
            final(self).image_params.render_size == old(self).image_params.render_size,
            r matches Ok(step) ==> {
                &&& step.storage@.len() == step.process@.len()
                &&& step.storage@.len() <= 1
                &&& (step.storage@.len() == 1 ==> {
                    &&& old(self).exposing()
                    &&& step.storage@[0] matches StorageMessage::ProcessImage(ri) && {
                        &&& ri.wf()
                        &&& (old(self).current_exposure matches Some(p) && {
                            &&& ri.params.gain == p.gain
                            &&& ri.params.autoexp == p.autoexp
                            &&& ri.params.flipx == p.flipx
                            &&& ri.params.flipy == p.flipy
                            &&& ri.params.percentile_pix_ppm == p.percentile_pix_ppm
                            &&& ri.params.pixel_tgt == p.pixel_tgt
                            &&& ri.params.pixel_tol == p.pixel_tol
                            &&& ri.params.save == p.save
                            &&& (ri.params.time_us == p.time_us || final(self).autoexp_time_us
                                == Some(ri.params.time_us))
                            &&& (step.warning is Some ==> ri.params.time_us == p.time_us)
                        })
                        &&& step.process@[0] matches ProcessMessage::ConvertRawImage(c) && {
                            &&& c.image.eqv(ri)
                            &&& c.size == old(self).image_params.render_size
                        }
                    }
                })
                &&& (step.warning is Some ==> final(self).autoexp_time_us == old(
                    self,
                ).autoexp_time_us)
                &&& (step.storage@.len() == 1 && !old(self).wants_rearm()
                    ==> !final(self).exposing())
                &&& (old(self).exposing() && step.storage@.len() == 0
                    ==> *final(self) == *old(self))
                &&& (!old(self).exposing() && !old(self).wants_rearm() ==> {
                    &&& *final(self) == *old(self)
                    &&& step.storage@.len() == 0
                })
            },
            r is Err ==> (final(self).current_exposure == old(self).current_exposure
                || !final(self).exposing()),
            !old(self).exposing() && !old(self).wants_rearm() ==> r is Ok,
    {
        let mut step = ExposureStep { storage: Vec::new(), process: Vec::new(), warning: None };

        if let Some(stored) = self.current_exposure {
            let ready = match device.image_ready() {
                Ok(v) => v,
                Err(e) => {
                    return Err(e);
                },
            };
            if ready {
                // The frame is taken out before the download, so a failed
                // download drops the exposure rather than repeating it.
                self.current_exposure = None;
                let mut reported = stored;
                let data = match device.download_image(&mut reported) {
                    Ok(d) => d,
                    Err(e) => {
                        return Err(e);
                    },
                };
                if !data.is_wf() {
                    return Err(String::from_str("downloaded frame does not match its dimensions"));
                }
                // The stored parameters describe the dispatched frame; only
                // the actual region the device reported replaces them, its
                // dimensions pinned to the downloaded buffer, since the
                // device may have clipped the request.
                let mut params = stored;
                params.area = reported.area;
                params.area.width = data.width;
                params.area.height = data.height;
                if params.autoexp {
                    if let Some(s) = solver {
                        match s.calculate(&data.pixels, params.time_us, 1) {
                            Ok(t) => {
                                self.autoexp_time_us = Some(t);
                                params.time_us = t;
                            },
                            Err(e) => {
                                step.warning = Some(e);
                            },
                        }
                    }
                }
                let raw = RawImage { params, data };
                let size = self.image_params.render_size;
                step.process.push(
                    ProcessMessage::ConvertRawImage(ConvertRawImage { image: raw.clone(), size }),
                );
                step.storage.push(StorageMessage::ProcessImage(raw));
            }
        }
        if self.current_exposure.is_none() && self.camera_params.loop_enabled && (
        self.trigger_active || !self.camera_params.trigger_required) {
            match self.start_exposure(device) {
                Ok(_) => {},
                Err(e) => {
                    return Err(e);
                },
            }
        }
        Ok(step)
    }

    /// Handles an explicit exposure command.  `Update` and `Cancel` forward
    /// to the device and never change the `Idle`/`Exposing` state field.
    pub fn exposure_command<D: ImagerDevice>(
        &mut self,
        device: &mut D,
        command: &ExposureCommand,
    ) -> (r: Result<(), String>)
        requires
            old(self).wf(),
        ensures
            final(self).wf(),
            final(self).same_settings(*old(self)),
            final(self).image_params.render_size == old(self).image_params.render_size,
            !(command is Start) ==> *final(self) == *old(self),
            command is Start && old(self).exposing() ==> {
                &&& *final(self) == *old(self)
                &&& r matches Err(m) && m@ == "Exposure already in progress."@
            },
            command is Start && !old(self).exposing() ==> {
                let desc = old(self).exposure_desc();
                &&& final(self).image_params == roi_written_back(old(self).image_params, desc.area)
                &&& (r is Ok ==> final(self).current_exposure == Some(desc))
                &&& (r is Err ==> !final(self).exposing())
            },
    {
        match command {
            ExposureCommand::Start => self.start_exposure(device),
            ExposureCommand::Update(config) => {
                device.update_opt_config(
                    OptConfigCmd {
                        percentile_pix_ppm: config.percentile_pix_ppm,
                        pixel_tgt: config.pixel_tgt,
                        pixel_tol: config.pixel_tol,
                        max_exp_us: config.max_exposure_us,
                    },
                );
                Ok(())
            },
            ExposureCommand::Cancel => device.cancel_capture(),
        }
    }
}

impl ExposureController {
    /// Builds the parameters of the next exposure from the current settings,
    /// normalizing the region of interest, and writes the normalized region
    /// back into the stored image parameters.
    fn make_exposure_description(&mut self) -> (p: ExposureParams)
        requires
            old(self).wf(),
        ensures
            p == old(self).exposure_desc(),
            *final(self) == (ExposureController {
                image_params: roi_written_back(old(self).image_params, p.area),
                ..*old(self)
            }),
            old(self).image_params.w == 0 ==> p.area.width == old(self).properties.width,
            old(self).image_params.h == 0 ==> p.area.height == old(self).properties.height,
            p.area.within(old(self).properties.width, old(self).properties.height),
            ({
                let cx: int = if old(self).image_params.x as int <= old(self).properties.width
                    - 1 {
                    old(self).image_params.x as int
                } else {
                    old(self).properties.width - 1
                };
                cx + p.area.width > old(self).properties.width ==> p.area.x == 0
            }),
            ({
                let cy: int = if old(self).image_params.y as int <= old(self).properties.height
                    - 1 {
                    old(self).image_params.y as int
                } else {
                    old(self).properties.height - 1
                };
                cy + p.area.height > old(self).properties.height ==> p.area.y == 0
            }),
    {
        proof {
            lemma_roi_zero_size_full_frame(
                self.image_params,
                self.properties.width,
                self.properties.height,
            );
            lemma_roi_within_sensor(
                self.image_params,
                self.properties.width,
                self.properties.height,
            );
            lemma_roi_offset_reset(
                self.image_params,
                self.properties.width,
                self.properties.height,
            );
        }
        let sw = self.properties.width;
        let sh = self.properties.height;
        let mut x: usize = self.image_params.x as usize;
        if x > sw - 1 {
            x = sw - 1;
        }
        let mut y: usize = self.image_params.y as usize;
        if y > sh - 1 {
            y = sh - 1;
        }
        let mut w: usize = self.image_params.w as usize;
        if w > sw {
            w = sw;
        }
        let mut h: usize = self.image_params.h as usize;
        if h > sh {
            h = sh;
        }
        if w == 0 {
            w = sw;
        }
        if h == 0 {
            h = sh;
        }
        if x + w > sw {
            x = 0;
        }
        if y + h > sh {
            y = 0;
        }
        self.image_params.x = x as u16;
        self.image_params.y = y as u16;
        self.image_params.w = w as u16;
        self.image_params.h = h as u16;

        let time_us = if self.camera_params.autoexp {
            match self.autoexp_time_us {
                Some(t) => t,
                None => self.camera_params.time_us,
            }
        } else {
            self.camera_params.time_us
        };

        ExposureParams {
            gain: self.camera_params.gain,
            time_us,
            area: ExposureArea { x, y, width: w, height: h },
            autoexp: self.camera_params.autoexp,
            flipx: self.image_params.flipx,
            flipy: self.image_params.flipy,
            percentile_pix_ppm: self.image_params.percentile_pix_ppm,
            pixel_tgt: self.image_params.pixel_tgt,
            pixel_tol: self.image_params.pixel_tol,
            save: self.save_active,
        }
    }
}

} // verus!
