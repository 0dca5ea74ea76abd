//! Runtime core of an enhanced ground proximity warning computer.
//!
//! Every physical quantity is a scaled integer, as the words of an avionics
//! data bus are: lengths in thousandths of a foot, vertical speeds in
//! thousandths of a foot per minute, airspeeds in thousandths of a knot,
//! angles in thousandths of a degree, deviation ratios in millionths, and
//! time in nanoseconds.

pub mod arith;
pub mod interpolation;
pub mod logic_nodes;
pub mod rate_limiter;
pub mod derivative;
pub mod low_pass_filter;
pub mod arinc429;
pub mod sensors;
pub mod taws;
pub mod state;
pub mod aural;
pub mod lamps;
pub mod validation;
pub mod phase;
pub mod mode_1;
pub mod mode_2;
pub mod mode_3;
pub mod mode_4;
pub mod mode_5;
pub mod runtime;
pub mod timing;
pub mod ths;
pub mod lgciu;
