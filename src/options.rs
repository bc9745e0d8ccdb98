//! Run configuration.
use vstd::prelude::*;

verus! {

/// The output shape of a run.
#[derive(Clone, Copy, Debug, PartialEq, Eq, Structural)]
pub enum OutputFormat {
    Basic,
    Comprehensive,
    Medical,
    Raw,
}

impl OutputFormat {
    /// Only the comprehensive and medical shapes carry dictionary names.
    pub open spec fn spec_uses_names(self) -> bool {
        self == OutputFormat::Comprehensive || self == OutputFormat::Medical
    }

    pub fn uses_names(&self) -> (r: bool)
        ensures
            r == self.spec_uses_names(),
    {
        match self {
            OutputFormat::Comprehensive | OutputFormat::Medical => true,
            OutputFormat::Basic | OutputFormat::Raw => false,
        }
    }
}

/// What the extractor needs to know of a run.
#[derive(Clone, Copy, Debug, PartialEq, Eq, Structural)]
pub struct ProcessorConfig {
    pub include_private: bool,
    pub format: OutputFormat,
}

} // verus!
