//! Bulk rescaling of the image files of one directory.
//!
//! The library holds every rule of such a job: which entries of a listing count
//! as files and what the directory's size is, what a payload asks for, which
//! size an image is scaled to, and what the final report says. Reading and
//! writing the directory is left to the caller, who hands over listings and
//! file contents and gets back inventories, new contents and the report.

pub mod decimal;
pub mod elapsed;
pub mod inventory;
pub mod report;
pub mod request;
pub mod text;
pub mod transform;

pub use elapsed::Elapsed;
pub use inventory::{walk_efs, DirData, DirEntryInfo};
pub use report::{dispatch, root_dir, Dispatch, Response};
pub use request::{FilterKind, ScaleOp, ScaleRequest, Size, TransformError, MAX_SIDE};
pub use transform::{rescale, scale_down, scale_image, scale_up, Rescaled};
