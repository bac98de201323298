//! A client-side engine that keeps a narration playing while its segments
//! are synthesised remotely: a sliding window of synthesis tasks against one
//! playback cursor, reconciled with acknowledgements and push notifications.

pub mod api;
pub mod state;
pub mod engine;
pub mod audio;
pub mod laws;
