//! User-editable session settings: camera parameters, image/preview
//! parameters and the auto-exposure tuning block.
//!
//! All physical quantities are plain integers: exposure times in
//! microseconds, temperatures in millidegrees Celsius, heating power in
//! per-mille of full power, percentiles in parts per million, pixel targets
//! and tolerances as raw sample intensities.

use vstd::prelude::*;

use crate::geom::{ExposureArea, ImgSize};

verus! {

/// Auto-exposure tuning as it appears in the service configuration.
#[derive(Clone, Copy, PartialEq, Eq, Structural, Debug)]
pub struct OptExposureConfig {
    pub percentile_pix_ppm: u32,
    pub pixel_tgt: u16,
    pub pixel_tol: u16,
    pub pixel_exclusion: u32,
    pub min_exposure_us: u64,
    pub max_exposure_us: u64,
    pub max_bin: u16,
}

impl Default for OptExposureConfig {
    fn default() -> (r: Self)
        ensures
            r == OptExposureConfig::default_spec(),
    {
        OptExposureConfig {
            percentile_pix_ppm: 0,
            pixel_tgt: 0,
            pixel_tol: 0,
            pixel_exclusion: 0,
            min_exposure_us: 0,
            max_exposure_us: 0,
            max_bin: 0,
        }
    }
}

impl OptExposureConfig {
    /// The all-zero configuration returned by `default`.
    pub open spec fn default_spec() -> Self {
        OptExposureConfig {
            percentile_pix_ppm: 0,
            pixel_tgt: 0,
            pixel_tol: 0,
            pixel_exclusion: 0,
            min_exposure_us: 0,
            max_exposure_us: 0,
            max_bin: 0,
        }
    }
}

/// Preview rendering and region-of-interest settings.
#[derive(Clone, Copy, PartialEq, Eq, Structural, Debug)]
pub struct ImageParams {
    pub render_size: ImgSize,
    pub percentile_pix_ppm: u32,
    pub pixel_tgt: u16,
    pub pixel_tol: u16,
    pub max_exp_us: u64,
    pub x: u16,
    pub y: u16,
    pub w: u16,
    pub h: u16,
    pub flipx: bool,
    pub flipy: bool,
}

impl ImageParams {
    /// The parameters built from a render size, a region of interest and an
    /// auto-exposure tuning block, with both flips off.
    pub open spec fn new_spec(render_size: ImgSize, roi: ExposureArea, opt: OptExposureConfig) -> Self {
        ImageParams {
            render_size,
            percentile_pix_ppm: opt.percentile_pix_ppm,
            pixel_tgt: opt.pixel_tgt,
            pixel_tol: opt.pixel_tol,
            max_exp_us: opt.max_exposure_us,
            x: roi.x as u16,
            y: roi.y as u16,
            w: roi.width as u16,
            h: roi.height as u16,
            flipx: false,
            flipy: false,
        }
    }

    pub fn new(render_size: ImgSize, roi: ExposureArea, opt: OptExposureConfig) -> (r: Self)
        requires
            roi.x <= u16::MAX,
            roi.y <= u16::MAX,
            roi.width <= u16::MAX,
            roi.height <= u16::MAX,
        ensures
            r == ImageParams::new_spec(render_size, roi, opt),
    {
        ImageParams {
            render_size,
            percentile_pix_ppm: opt.percentile_pix_ppm,
            pixel_tgt: opt.pixel_tgt,
            pixel_tol: opt.pixel_tol,
            max_exp_us: opt.max_exposure_us,
            x: roi.x as u16,
            y: roi.y as u16,
            w: roi.width as u16,
            h: roi.height as u16,
            flipx: false,
            flipy: false,
        }
    }
}

impl Default for ImageParams {
    fn default() -> (r: Self)
        ensures
            r == ImageParams::new_spec(
                ImgSize { x: 900, y: 600 },
                ExposureArea { x: 0, y: 0, width: 0, height: 0 },
                OptExposureConfig::default_spec(),
            ),
    {
        ImageParams::new(
            ImgSize { x: 900, y: 600 },
            ExposureArea { x: 0, y: 0, width: 0, height: 0 },
            OptExposureConfig {
                percentile_pix_ppm: 0,
                pixel_tgt: 0,
                pixel_tol: 0,
                pixel_exclusion: 0,
                min_exposure_us: 0,
                max_exposure_us: 0,
                max_bin: 0,
            },
        )
    }
}

/// Camera session settings.
#[derive(Clone, Copy, PartialEq, Eq, Structural, Debug)]
pub struct CameraParams {
    pub loop_enabled: bool,
    pub gain: u16,
    pub time_us: u64,
    pub temperature_mc: i64,
    pub trigger_required: bool,
    pub heating_pwm_pm: u16,
    pub autoexp: bool,
}

impl CameraParams {
    /// The initial session settings: one second of exposure, a target of
    /// -10 degrees Celsius, free-running loop off, auto-exposure on.
    pub open spec fn new_spec() -> Self {
        CameraParams {
            loop_enabled: false,
            gain: 0,
            time_us: 1_000_000,
            temperature_mc: -10_000i64,
            trigger_required: false,
            heating_pwm_pm: 0,
            autoexp: true,
        }
    }

    pub fn new() -> (r: Self)
        ensures
            r == CameraParams::new_spec(),
    {
        CameraParams {
            loop_enabled: false,
            gain: 0,
            time_us: 1_000_000,
            temperature_mc: -10_000i64,
            trigger_required: false,
            heating_pwm_pm: 0,
            autoexp: true,
        }
    }
}

impl Default for CameraParams {
    fn default() -> (r: Self)
        ensures
            r == CameraParams::new_spec(),
    {
        CameraParams::new()
    }
}

} // verus!
