//! Receipt ingestion guard: turns raw request bytes into a validated
//! `Receipt`, or says precisely why it will not.
//!
//! The guard checks the declared media type, enforces a byte-size ceiling,
//! parses the body as JSON, and extracts the receipt fields structurally.
//! Every step's behaviour is stated in its contract.

pub mod guard;
pub mod json;
pub mod receipt;
pub mod render;
