//! Sampling and aggregation core of a single-host resource monitor: rate and
//! percentage arithmetic, bounded metric histories, the top-N process list,
//! threshold alerts, the snapshot hand-off between the collector and its
//! readers, and the release-version check of the updater.
pub mod alerts;
pub mod history;
pub mod metrics;
pub mod processes;
pub mod sample;
pub mod sampler;
pub mod settings;
pub mod snapshot;
pub mod text;
pub mod updater;
