//! Conversion of decoded medical-imaging datasets into JSON-safe metadata,
//! grouped into a patient/study/series hierarchy and projected into one of
//! four output shapes.

pub mod discovery;
pub mod extract;
pub mod hierarchy;
pub mod model;
pub mod options;
pub mod render;
pub mod scheduler;
pub mod study_output;
pub mod summary;
pub mod tag;
pub mod value;
