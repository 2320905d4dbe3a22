//! Coordination of one external transcription worker per job: choosing and
//! resolving the backend runtime, building the job manifest, reading the
//! worker's event stream, single-slot admission and stopping, and the records
//! kept of each finished session. Around that core: the audio files taken,
//! the managed models, and the naming of transcript exports.
pub mod text;
pub mod json;
pub mod registry;
pub mod capabilities;
pub mod probe;
pub mod resolver;
pub mod outcome;
pub mod protocol;
pub mod manifest;
pub mod history;
pub mod session;
pub mod media;
pub mod export;
pub mod models;
pub mod probe_metadata;
