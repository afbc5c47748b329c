//! Metadata shared by every metric instrument, and the decision whether a
//! recording attempt may proceed.

use vstd::prelude::*;

pub mod common_metric_data;

verus! {

/// The telemetry state that a recording decision consults.
///
/// A metric never owns this state. It is handed a reference whenever it has
/// to decide, so the decision always reflects the flag as it is at that
/// moment.
pub struct Glean {
    upload_enabled: bool,
}

impl Glean {
    /// The upload flag held by this state.
    pub closed spec fn upload_enabled(&self) -> bool {
        self.upload_enabled
    }

    /// Creates a telemetry state with the given upload flag.
    pub fn new(upload_enabled: bool) -> (glean: Self)
        ensures
            glean.upload_enabled() == upload_enabled,
    {
        Glean { upload_enabled }
    }

    /// Whether upload is currently permitted.
    pub fn is_upload_enabled(&self) -> (enabled: bool)
        ensures
            enabled == self.upload_enabled(),
    {
        self.upload_enabled
    }

    /// Permits or forbids upload from now on.
    pub fn set_upload_enabled(&mut self, flag: bool)
        ensures
            final(self).upload_enabled() == flag,
    {
        self.upload_enabled = flag;
    }
}

} // verus!
