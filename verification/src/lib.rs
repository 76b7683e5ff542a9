//! Derivation of labelled metric samples from the results of remote network
//! probes (DNS lookups, ICMP pings, HLS streaming tests, HTTP checks), and
//! the per-probe execution cycle that drives it.
//!
//! A collector turns one response of the measurement service into a list of
//! samples for a metric sink, and one failure into a failure sample; what it
//! returns is stated by a contract and proved. Nothing here sends a request,
//! sleeps or writes to a sink: [`collectors::runner::step`] decides what is
//! to be done next, and the caller does it.
//!
//! Measured quantities are held in fixed point, as whole millionths of their
//! unit ([`reading::Reading`]); a caller that measures in floating point
//! converts at the boundary.
//!
//! - [`text`]: phrases, splitting, trimming, numerals.
//! - [`reading`]: measured quantities and their arithmetic.
//! - [`metric`]: samples, label sets, descriptors.
//! - [`config`]: the description of the configured probes.
//! - [`collectors`]: the four collectors, the requests they build, the
//!   fingerprint of a record set, the classification of resolvers, and the
//!   execution cycle.
//! - [`collector`]: the DNS metric families of a registry kept by prefix.
//! - [`web`]: the error of the endpoint that serves the metrics.

pub mod collector;
pub mod collectors;
pub mod config;
pub mod metric;
pub mod reading;
pub mod text;
pub mod web;
