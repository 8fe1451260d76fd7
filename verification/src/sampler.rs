//! The sampler: one validated request, one random draw, one normalized
//! numeric response.
//!
//! The uniform integer draw is made here, through `rand`'s uniform
//! distribution over `[low, high)`. The normal and Bernoulli draws are
//! floating-point work that the verified core cannot hold, so the host makes
//! them against the validated parameters and hands the raw outcome back as a
//! [`Draw`]; [`respond`] then checks the outcome against the request's kind
//! and applies the one centralized normalization rule.

use vstd::prelude::*;
use crate::fbits::{encodes_int, is_finite_bits, i32_to_f64_bits, BITS_ONE, BITS_ZERO};
use crate::request::{DistributionRequest, ValidatedRequest};

verus! {

/// The single-field response: the drawn sample, normalized to a
/// floating-point value and carried as its IEEE-754 bit pattern.
#[derive(Clone, Copy, Debug, PartialEq, Eq, Structural)]
pub struct SampleResponse {
    pub value: u64,
}

/// A raw random outcome, as the distribution for a request's kind hands it
/// out: an integer for a uniform draw, an indicator for a Bernoulli draw, or
/// a floating-point bit pattern for a normal draw.
#[derive(Clone, Copy, Debug)]
pub enum Draw {
    Int(i32),
    Indicator(bool),
    Real(u64),
}

/// Whether a raw draw is one that the request's distribution can produce:
/// the kinds agree, and a uniform draw lies within the requested range.
pub open spec fn draw_matches(req: DistributionRequest, d: Draw) -> bool {
    match (req, d) {
        (DistributionRequest::Uniform { low, high }, Draw::Int(v)) => low <= v < high,
        (DistributionRequest::Normal { .. }, Draw::Real(_)) => true,
        (DistributionRequest::Bernoulli { .. }, Draw::Indicator(_)) => true,
        _ => false,
    }
}

/// The one normalization rule for every kind: an integer becomes its exact
/// double encoding, an indicator becomes exactly 1.0 or 0.0, and a real draw
/// passes through unchanged.
pub open spec fn normalizes(d: Draw, bits: u64) -> bool {
    match d {
        Draw::Int(v) => encodes_int(bits, v as int),
        Draw::Indicator(b) => bits == if b {
            BITS_ONE
        } else {
            BITS_ZERO
        },
        Draw::Real(x) => bits == x,
    }
}

/// The process-wide random generator of `rand`, opaque to the verifier.
#[verifier::external_type_specification]
#[verifier::external_body]
pub struct ExThreadRng(rand::rngs::ThreadRng);

/// Relies on `rand`: `Uniform::from(low..high)` is the uniform distribution
/// over the half-open range `[low, high)` — it panics unless `low < high`,
/// which the precondition rules out — and `Rng::sample` draws one value from
/// it, so the result lies in `[low, high)`.
#[verifier::external_body]
fn draw_uniform(rng: &mut rand::rngs::ThreadRng, low: i32, high: i32) -> (r: i32)
    requires
        low < high,
    ensures
        low <= r < high,
{
    rand::Rng::sample(rng, rand::distributions::Uniform::from(low..high))
}

/// Draws the one sample for a uniform request and normalizes it: the
/// response is the exact double encoding of an integer from the requested
/// `[low, high)` range — an integer-valued, finite float.
pub fn sample_uniform(rng: &mut rand::rngs::ThreadRng, v: &ValidatedRequest) -> (r: SampleResponse)
    requires
        v@ is Uniform,
    ensures
        v@ matches DistributionRequest::Uniform { low, high } ==> exists|n: int|
            low <= n < high && encodes_int(r.value, n),
        is_finite_bits(r.value),
{
    proof {
        use_type_invariant(v);
    }
    match v.request() {
        DistributionRequest::Uniform { low, high } => {
            let d: i32 = draw_uniform(rng, low, high);
            let bits: u64 = i32_to_f64_bits(d);
            let resp = SampleResponse { value: bits };
            proof {
                assert(encodes_int(resp.value, d as int));
                assert(exists|n: int| low <= n < high && encodes_int(resp.value, n));
            }
            resp
        },
        _ => vstd::pervasive::unreached(),
    }
}

/// Builds the response from a raw draw, centralizing the numeric
/// normalization: `Some` exactly when the draw is one the request's
/// distribution can produce. A Bernoulli outcome maps to exactly 1.0 or
/// 0.0 and never anything else, a uniform outcome to the exact double
/// encoding of the drawn integer, and a normal outcome passes through
/// unchanged, so a finite normal draw yields a finite response.
pub fn respond(v: &ValidatedRequest, d: Draw) -> (r: Option<SampleResponse>)
    ensures
        r is Some <==> draw_matches(v@, d),
        r matches Some(resp) ==> normalizes(d, resp.value),
        r matches Some(resp) ==> (v@ is Bernoulli ==> resp.value == BITS_ONE || resp.value
            == BITS_ZERO),
        r matches Some(resp) ==> (d matches Draw::Real(x) && is_finite_bits(x) ==> is_finite_bits(
            resp.value,
        )),
{
    match (v.request(), d) {
        (DistributionRequest::Uniform { low, high }, Draw::Int(n)) => {
            if low <= n && n < high {
                Some(SampleResponse { value: i32_to_f64_bits(n) })
            } else {
                None
            }
        },
        (DistributionRequest::Normal { .. }, Draw::Real(x)) => Some(SampleResponse { value: x }),
        (DistributionRequest::Bernoulli { .. }, Draw::Indicator(b)) => Some(
            SampleResponse {
                value: if b {
                    BITS_ONE
                } else {
                    BITS_ZERO
                },
            },
        ),
        _ => None,
    }
}

} // verus!
