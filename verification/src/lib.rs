//! Verified support for computing the mean and the variance of a sample.
//!
//! The estimators themselves run in floating point, which rounds at every
//! step and is outside what is proved here. This crate holds everything
//! around them that is decided over integers, and proves it:
//!
//! * [`statistic`]: on how many observations each statistic has a value;
//! * [`lanes`]: how a sequence is cut into groups of four for the
//!   vectorized accumulation;
//! * [`staging`]: the resizable buffer through which a host hands a
//!   sequence over;
//! * [`algebra`]: the exact identities that make the simple, the shifted and
//!   the two-pass method compute the same quantity.
pub mod algebra;
pub mod lanes;
pub mod staging;
pub mod statistic;
