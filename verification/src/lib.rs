//! Integer core of a YIN pitch analyzer.
//!
//! YIN estimates the fundamental frequency of a mono signal by sliding a
//! fixed-size window across the sample buffer and, per window, locating the
//! lag (candidate period) at which a normalized difference curve first dips
//! below a threshold and stops decreasing.
//!
//! The per-frame numeric curves are floating point and live with the caller;
//! this crate verifies everything the algorithm decides with integers and
//! comparison outcomes alone:
//!
//! - [`frames`]: how many frames a buffer yields and where each frame starts,
//!   so that result storage and the analysis loop always agree.
//! - [`search`]: the threshold search over a curve's comparison structure,
//!   and the boundary guard for parabolic refinement.
//! - [`results`]: the flat output sequence, three entries per frame in frame
//!   order.

pub mod frames;
pub mod results;
pub mod search;
