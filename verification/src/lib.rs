//! A client library for Huawei OBS (Object Storage Service), which is S3-compatible.
//!
//! This crate holds the verified part: the client's configuration, error classification
//! and messages, the conversion of lifecycle and CORS rules to and from the S3 API, the
//! `Content-MD5` value of CORS requests, the Object Lock and retention request bodies, and
//! what each operation makes of the replies it gets.

pub mod client;
pub mod cors;
pub mod error;
pub mod lifecycle;
pub mod objects;
pub mod policy;
pub mod text;
pub mod types;
pub mod worm;

pub use client::{ObsClient, ObsClientBuilder};
pub use error::{ObsError, Result};
pub use types::{
    BucketInfo, BucketPolicy, CorsRule, DefaultWormRetention, LifecycleRule, LifecycleTag,
    ListOptions, ListResult, ObjectInfo, ObjectLockConfiguration, ObjectMetadata, ObjectVersion,
    PublicAccessConfig, UploadOptions, VersionListOptions, VersionListResult, VersioningStatus,
    WormRetention, WormRetentionMode,
};
