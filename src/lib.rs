//! Turns analytics events (page views, custom tracks, user identifies) into
//! HTTP request descriptors for a PostHog-style ingestion endpoint.

pub mod component;
pub mod error;
pub mod event;
pub mod json;
pub mod laws;
pub mod number;
pub mod page;
pub mod posthog_payload;
pub mod props;
pub mod text;
