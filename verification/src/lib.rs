//! A verified model of a minimal score-tracking service: a single table of
//! game results that supports inserting one submitted result and listing the
//! stored results up to a fixed page limit, together with the JSON wire
//! rendering of records and the handlers that turn storage outcomes into
//! HTTP replies.

pub mod handler;
pub mod score;
pub mod wire;
