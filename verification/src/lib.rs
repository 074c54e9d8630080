//! Control plane of a scientific camera controller: camera/exposure state
//! machines, storage cadence and capacity logic, the raw-to-preview
//! debayer/resize pipeline, and the message vocabulary that ties the four
//! worker loops together.

pub mod backend;
pub mod camera;
pub mod capacity;
pub mod config;
pub mod device;
pub mod exposure;
pub mod frame;
pub mod fanout;
pub mod geom;
pub mod io;
pub mod messages;
pub mod params;
pub mod preview;
pub mod scale;
pub mod stats;
pub mod status;
pub mod storage;
pub mod textnum;

pub use geom::{ExposureArea, ImgSize, Vec2d};
