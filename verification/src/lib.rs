//! Verified core of the hilaw RAW photo service: file classification,
//! edit merging, listing order, pagination, device addressing and the
//! image codec boundary.

pub mod text;
pub mod paths;
pub mod error;
pub mod formats;
pub mod models;
pub mod storage;
pub mod salita_client;
pub mod browse;
pub mod media;
pub mod pipeline;
