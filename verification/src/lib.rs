//! Integer and byte-level core of the eye tracker: capture settings,
//! the configuration-path rule, and the calibration-fit input checks.

pub mod config;
pub mod decimal;
pub mod homography;

pub use config::{config_path_from_env, CaptureConfig};
pub use homography::{check_correspondences, HomographyError, MIN_CORRESPONDENCES};
