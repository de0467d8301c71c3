//! The nl80211 client: wire codec, command catalog and event classification.

pub mod codec;
pub mod eventstream;
pub mod nl80211_stream;
pub mod query;
