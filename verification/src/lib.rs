//! The Gauss hypergeometric function 2F1(a,b,c;x) over IEEE-754 doubles
//! carried as their 64-bit patterns: a direct power-series evaluator, the
//! analytic continuation around 1-x of Abramowitz & Stegun 15.3.6, and a
//! fitted piecewise-cubic threshold that picks between the two per call.

pub mod fp;
pub mod ops;
pub mod series;
pub mod spline;
pub mod hyp;

pub use fp::{POS_ZERO_BITS, NEG_ZERO_BITS, ONE_BITS, POS_INF_BITS, NAN_BITS};
pub use series::series;
pub use spline::{thresh_factor, threshold};
pub use hyp::{abr_ste_15_3_6, hyp2f1};
