//! A one-shot random-sampling service core.
//!
//! Given a tagged description of a probability distribution — uniform over an
//! integer range, normal, or Bernoulli — the library decodes it, validates its
//! parameters, and turns one random draw into a single numeric response.
//!
//! Floating-point values never enter the verified core: every `f64` is carried
//! as its IEEE-754 bit pattern in a `u64`, and the comparisons and conversions
//! the logic needs are implemented and proved over those bit patterns
//! ([`fbits`]). The host performs the floating-point draws for the normal and
//! Bernoulli kinds and hands the raw outcome back; the uniform integer draw is
//! made here through `rand`.

pub mod fbits;
pub mod request;
pub mod sampler;
