//! The request model: the closed set of distribution kinds, decoding a
//! host-supplied structured value into one of them, and validating its
//! parameters.
//!
//! Decoding works on a [`RawRequest`]: a discriminant string naming the kind
//! and a list of named numeric fields, as a host obtains them from the wire.
//! A malformed shape — unknown discriminant, missing field, or a field of the
//! wrong numeric kind — is rejected as [`Error::InvalidRequest`]; a
//! well-formed request with illegal parameters is rejected as
//! [`Error::InvalidParameters`]. A [`ValidatedRequest`] can only be built by
//! [`validate`], so anything downstream may rely on its parameters being
//! legal.

use vstd::prelude::*;
use crate::fbits::{f64_le_bits, f64_lt_bits, le_bits, lt_bits, BITS_ZERO, BITS_ONE};

verus! {

/// A numeric field value as decoded from the wire: either an integer or a
/// floating-point number, the latter carried as its IEEE-754 bit pattern.
#[derive(Clone, Copy, Debug, PartialEq, Eq, Structural)]
pub enum RawValue {
    Int(i64),
    Float(u64),
}

/// One named numeric field of a raw request's parameter payload.
#[derive(Debug)]
pub struct RawField {
    pub name: String,
    pub value: RawValue,
}

/// A request as the host hands it over: the distribution discriminant and the
/// parameter fields, still unchecked.
#[derive(Debug)]
pub struct RawRequest {
    pub distribution: String,
    pub parameters: Vec<RawField>,
}

/// One sampling request: the distribution kind with its parameters. The
/// floating-point parameters are carried as IEEE-754 bit patterns.
#[derive(Clone, Copy, Debug, PartialEq, Eq, Structural)]
pub enum DistributionRequest {
    /// An integer drawn uniformly from `[low, high)`; `low < high` required.
    Uniform { low: i32, high: i32 },
    /// A normal draw with the given mean and standard deviation;
    /// `std_dev > 0` required.
    Normal { mean: u64, std_dev: u64 },
    /// A Bernoulli draw that is true with probability `p`; `0 <= p <= 1`
    /// required.
    Bernoulli { p: u64 },
}

/// Why a request was turned away.
#[derive(Clone, Copy, Debug, PartialEq, Eq, Structural)]
pub enum Error {
    /// Malformed shape: unknown discriminant, missing or mistyped field.
    InvalidRequest,
    /// Well-formed shape, but a parameter breaks its kind's constraint.
    InvalidParameters,
}

/// The first value in `params` carried under the name `key`, if any.
pub open spec fn spec_lookup(params: Seq<RawField>, key: Seq<char>) -> Option<RawValue>
    decreases params.len(),
{
    if params.len() == 0 {
        None
    } else if params[0].name@ == key {
        Some(params[0].value)
    } else {
        spec_lookup(params.skip(1), key)
    }
}

/// The integer field named `key`, if present and integer-typed.
pub open spec fn spec_int_field(params: Seq<RawField>, key: Seq<char>) -> Option<i64> {
    match spec_lookup(params, key) {
        Some(RawValue::Int(n)) => Some(n),
        _ => None,
    }
}

/// The floating-point field named `key` as its bit pattern, if present and
/// float-typed.
pub open spec fn spec_float_field(params: Seq<RawField>, key: Seq<char>) -> Option<u64> {
    match spec_lookup(params, key) {
        Some(RawValue::Float(bits)) => Some(bits),
        _ => None,
    }
}

/// What decoding a raw request yields: the variant picked by the
/// discriminant, its fields read under their wire names, with every shape
/// fault mapped to `InvalidRequest`. The uniform bounds travel under the
/// names of the range they describe, `start` and `end`, and must fit in
/// `i32`.
pub open spec fn spec_decode(raw: RawRequest) -> Result<DistributionRequest, Error> {
    if raw.distribution@ == "uniform"@ {
        match (spec_int_field(raw.parameters@, "start"@), spec_int_field(raw.parameters@, "end"@)) {
            (Some(low), Some(high)) => {
                if i32::MIN as int <= low as int <= i32::MAX as int && i32::MIN as int <= high
                    as int <= i32::MAX as int {
                    Ok(DistributionRequest::Uniform { low: low as i32, high: high as i32 })
                } else {
                    Err(Error::InvalidRequest)
                }
            },
            _ => Err(Error::InvalidRequest),
        }
    } else if raw.distribution@ == "normal"@ {
        match (spec_float_field(raw.parameters@, "mean"@), spec_float_field(raw.parameters@, "std_dev"@)) {
            (Some(mean), Some(std_dev)) => Ok(DistributionRequest::Normal { mean, std_dev }),
            _ => Err(Error::InvalidRequest),
        }
    } else if raw.distribution@ == "bernoulli"@ {
        match spec_float_field(raw.parameters@, "p"@) {
            Some(p) => Ok(DistributionRequest::Bernoulli { p }),
            None => Err(Error::InvalidRequest),
        }
    } else {
        Err(Error::InvalidRequest)
    }
}

/// The per-kind parameter constraints: a nonempty integer range, a positive
/// standard deviation, a probability within `[0, 1]`. A NaN parameter fails
/// its comparison and is rejected.
pub open spec fn params_valid(req: DistributionRequest) -> bool {
    match req {
        DistributionRequest::Uniform { low, high } => low < high,
        DistributionRequest::Normal { mean, std_dev } => f64_lt_bits(BITS_ZERO, std_dev),
        DistributionRequest::Bernoulli { p } => f64_le_bits(BITS_ZERO, p) && f64_le_bits(p, BITS_ONE),
    }
}

/// Finds the first field named `key`, scanning in order.
fn lookup(params: &Vec<RawField>, key: &str) -> (r: Option<RawValue>)
    ensures
        r == spec_lookup(params@, key@),
{
    let mut i: usize = 0;
    assert(params@.skip(0) =~= params@);
    while i < params.len()
        invariant
            i <= params.len(),
            spec_lookup(params@, key@) == spec_lookup(params@.skip(i as int), key@),
        decreases params.len() - i,
    {
        assert(params@.skip(i as int)[0] == params@[i as int]);
        let name: &String = &params[i].name;
        if name.eq(&key.to_owned()) {
            return Some(params[i].value);
        }
        assert(params@.skip(i as int).skip(1) =~= params@.skip(i as int + 1));
        i = i + 1;
    }
    assert(params@.skip(params@.len() as int).len() == 0);
    None
}

/// Reads the integer field named `key`; `None` if absent or float-typed.
fn int_field(params: &Vec<RawField>, key: &str) -> (r: Option<i64>)
    ensures
        r == spec_int_field(params@, key@),
{
    match lookup(params, key) {
        Some(RawValue::Int(n)) => Some(n),
        _ => None,
    }
}

/// Reads the floating-point field named `key`; `None` if absent or
/// integer-typed.
fn float_field(params: &Vec<RawField>, key: &str) -> (r: Option<u64>)
    ensures
        r == spec_float_field(params@, key@),
{
    match lookup(params, key) {
        Some(RawValue::Float(bits)) => Some(bits),
        _ => None,
    }
}

/// Resolves a raw request into a distribution kind, rejecting every
/// malformed shape as `InvalidRequest`.
pub fn decode(raw: &RawRequest) -> (r: Result<DistributionRequest, Error>)
    ensures
        r == spec_decode(*raw),
{
    let d: &String = &raw.distribution;
    if d.eq(&"uniform".to_owned()) {
        let low_field = int_field(&raw.parameters, "start");
        let high_field = int_field(&raw.parameters, "end");
        match (low_field, high_field) {
            (Some(low), Some(high)) => {
                if i32::MIN as i64 <= low && low <= i32::MAX as i64 && i32::MIN as i64 <= high
                    && high <= i32::MAX as i64 {
                    Ok(DistributionRequest::Uniform { low: low as i32, high: high as i32 })
                } else {
                    Err(Error::InvalidRequest)
                }
            },
            _ => Err(Error::InvalidRequest),
        }
    } else if d.eq(&"normal".to_owned()) {
        let mean_field = float_field(&raw.parameters, "mean");
        let sd_field = float_field(&raw.parameters, "std_dev");
        match (mean_field, sd_field) {
            (Some(mean), Some(std_dev)) => Ok(DistributionRequest::Normal { mean, std_dev }),
            _ => Err(Error::InvalidRequest),
        }
    } else if d.eq(&"bernoulli".to_owned()) {
        match float_field(&raw.parameters, "p") {
            Some(p) => Ok(DistributionRequest::Bernoulli { p }),
            None => Err(Error::InvalidRequest),
        }
    } else {
        Err(Error::InvalidRequest)
    }
}

/// A request whose parameters have passed [`validate`]. It cannot be built
/// any other way, so holding one is proof that the constraints of
/// [`params_valid`] hold.
pub struct ValidatedRequest {
    req: DistributionRequest,
}

impl View for ValidatedRequest {
    type V = DistributionRequest;

    closed spec fn view(&self) -> DistributionRequest {
        self.req
    }
}

impl ValidatedRequest {
    /// The validated request always satisfies its kind's constraints; as a
    /// type invariant, this holds of every value of the type ever built.
    #[verifier::type_invariant]
    pub open spec fn wf(&self) -> bool {
        params_valid(self@)
    }

    /// The underlying request, for the host to dispatch on.
    pub fn request(&self) -> (r: DistributionRequest)
        ensures
            r == self@,
    {
        self.req
    }
}

/// Enforces the per-kind constraints: accepts exactly the requests that
/// [`params_valid`] allows, wrapping them untouched; everything else is
/// turned away as `InvalidParameters`.
pub fn validate(req: DistributionRequest) -> (r: Result<ValidatedRequest, Error>)
    ensures
        r is Ok <==> params_valid(req),
        r matches Ok(v) ==> v@ == req && v.wf(),
        r matches Err(e) ==> e == Error::InvalidParameters,
{
    let ok: bool = match req {
        DistributionRequest::Uniform { low, high } => low < high,
        DistributionRequest::Normal { mean: _, std_dev } => lt_bits(BITS_ZERO, std_dev),
        DistributionRequest::Bernoulli { p } => le_bits(BITS_ZERO, p) && le_bits(p, BITS_ONE),
    };
    if ok {
        Ok(ValidatedRequest { req })
    } else {
        Err(Error::InvalidParameters)
    }
}

/// Decodes and validates in one step: the request-model pipeline as a host
/// uses it. Shape faults come back as `InvalidRequest`, parameter faults as
/// `InvalidParameters`, and a success carries exactly the decoded request.
pub fn prepare(raw: &RawRequest) -> (r: Result<ValidatedRequest, Error>)
    ensures
        r is Ok <==> (spec_decode(*raw) matches Ok(req) && params_valid(req)),
        r matches Ok(v) ==> spec_decode(*raw) == Ok::<DistributionRequest, Error>(v@) && v.wf(),
        r matches Err(e) ==> (spec_decode(*raw) matches Err(de) && e == de) || (
        spec_decode(*raw) is Ok && e == Error::InvalidParameters),
{
    match decode(raw) {
        Ok(req) => validate(req),
        Err(e) => Err(e),
    }
}

/// Validation is a pure function of the request: the same request, validated
/// any number of times, meets the same accept-or-reject outcome, since
/// [`validate`] accepts exactly when [`params_valid`] holds and nothing else
/// enters the decision.
pub proof fn lemma_validation_idempotent(a: DistributionRequest, b: DistributionRequest)
    requires
        a == b,
    ensures
        params_valid(a) == params_valid(b),
{
}

} // verus!
