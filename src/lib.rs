//! An S3-compatible front end over AWS S3, Azure Blob Storage and Google Cloud
//! Storage: configuration, credential resolution, key-prefix remapping and the
//! translation of storage results into S3 wire responses.
pub mod aws;
pub mod azure;
pub mod config;
pub mod errors;
pub mod gcp;
pub mod metrics;
pub mod protocol;
pub mod s3;
pub mod storage;
pub mod text;
