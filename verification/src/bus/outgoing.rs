//! Topics that the daemon publishes on.

use vstd::prelude::*;

verus! {

/// Transcript of speech that still goes on.
pub const PARTIAL: &'static str = "wm.stt.partial";

/// Finished transcript whose confidence reaches the threshold.
pub const FINAL: &'static str = "wm.stt.final";

/// Finished transcript whose confidence is below the threshold.
pub const UNCERTAIN: &'static str = "wm.stt.uncertain";

/// Failure, with its kind and a message.
pub const ERROR: &'static str = "wm.stt.error";

/// The active model has changed.
pub const MODEL_LOADED: &'static str = "wm.stt.model_loaded";

} // verus!
