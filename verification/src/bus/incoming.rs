//! Topics that the daemon handles.

use vstd::prelude::*;

verus! {

/// A speech segment started.
pub const SPEECH_START: &'static str = "wm.audio.speech.start";

/// A chunk of speech PCM.
pub const SPEECH_CHUNK: &'static str = "wm.audio.speech.chunk";

/// A speech segment ended.
pub const SPEECH_END: &'static str = "wm.audio.speech.end";

/// Command to change the active model.
pub const RELOAD_MODEL: &'static str = "wm.stt.reload_model";

} // verus!
