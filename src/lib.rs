//! Bridge between a sensor device that pushes readings and a metrics
//! scraper: the reading model, payload parsing, the single-slot reading
//! store and the translation of a reading into labelled gauge samples.

pub mod decimal;
pub mod reading;
pub mod store;
pub mod ingest;
pub mod exporter;
