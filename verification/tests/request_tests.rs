use random_num_lambda::request::{
    decode, prepare, validate, DistributionRequest, Error, RawField, RawRequest, RawValue,
};

fn raw(kind: &str, fields: &[(&str, RawValue)]) -> RawRequest {
    RawRequest {
        distribution: kind.to_string(),
        parameters: fields
            .iter()
            .map(|(n, v)| RawField { name: n.to_string(), value: *v })
            .collect(),
    }
}

#[test]
fn decode_uniform_request() {
    let r = raw("uniform", &[("start", RawValue::Int(1)), ("end", RawValue::Int(10))]);
    assert_eq!(decode(&r), Ok(DistributionRequest::Uniform { low: 1, high: 10 }));
}

#[test]
fn decode_normal_request() {
    let r = raw(
        "normal",
        &[
            ("mean", RawValue::Float(2.5f64.to_bits())),
            ("std_dev", RawValue::Float(0.75f64.to_bits())),
        ],
    );
    assert_eq!(
        decode(&r),
        Ok(DistributionRequest::Normal {
            mean: 2.5f64.to_bits(),
            std_dev: 0.75f64.to_bits(),
        })
    );
}

#[test]
fn decode_bernoulli_request() {
    let r = raw("bernoulli", &[("p", RawValue::Float(0.25f64.to_bits()))]);
    assert_eq!(decode(&r), Ok(DistributionRequest::Bernoulli { p: 0.25f64.to_bits() }));
}

#[test]
fn decode_unknown_discriminant() {
    let r = raw("poisson", &[("lambda", RawValue::Float(3.0f64.to_bits()))]);
    assert_eq!(decode(&r), Err(Error::InvalidRequest));
}

#[test]
fn decode_missing_field() {
    let r = raw("normal", &[("mean", RawValue::Float(0.0f64.to_bits()))]);
    assert_eq!(decode(&r), Err(Error::InvalidRequest));
    let r = raw("uniform", &[("start", RawValue::Int(0))]);
    assert_eq!(decode(&r), Err(Error::InvalidRequest));
    let r = raw("bernoulli", &[]);
    assert_eq!(decode(&r), Err(Error::InvalidRequest));
}

#[test]
fn decode_mistyped_field() {
    let r = raw(
        "uniform",
        &[("start", RawValue::Float(1.0f64.to_bits())), ("end", RawValue::Int(10))],
    );
    assert_eq!(decode(&r), Err(Error::InvalidRequest));
    let r = raw("bernoulli", &[("p", RawValue::Int(1))]);
    assert_eq!(decode(&r), Err(Error::InvalidRequest));
}

#[test]
fn decode_bound_beyond_i32() {
    let r = raw(
        "uniform",
        &[("start", RawValue::Int(0)), ("end", RawValue::Int(1 << 40))],
    );
    assert_eq!(decode(&r), Err(Error::InvalidRequest));
}

#[test]
fn validate_rejects_empty_range() {
    let r = validate(DistributionRequest::Uniform { low: 5, high: 5 });
    assert_eq!(r.err(), Some(Error::InvalidParameters));
    let r = validate(DistributionRequest::Uniform { low: 7, high: 3 });
    assert_eq!(r.err(), Some(Error::InvalidParameters));
}

#[test]
fn validate_rejects_bad_std_dev() {
    let r = validate(DistributionRequest::Normal {
        mean: 0.0f64.to_bits(),
        std_dev: (-1.0f64).to_bits(),
    });
    assert_eq!(r.err(), Some(Error::InvalidParameters));
    let r = validate(DistributionRequest::Normal {
        mean: 0.0f64.to_bits(),
        std_dev: 0.0f64.to_bits(),
    });
    assert_eq!(r.err(), Some(Error::InvalidParameters));
    let r = validate(DistributionRequest::Normal {
        mean: 0.0f64.to_bits(),
        std_dev: f64::NAN.to_bits(),
    });
    assert_eq!(r.err(), Some(Error::InvalidParameters));
}

#[test]
fn validate_rejects_bad_probability() {
    let r = validate(DistributionRequest::Bernoulli { p: 1.5f64.to_bits() });
    assert_eq!(r.err(), Some(Error::InvalidParameters));
    let r = validate(DistributionRequest::Bernoulli { p: (-0.1f64).to_bits() });
    assert_eq!(r.err(), Some(Error::InvalidParameters));
    let r = validate(DistributionRequest::Bernoulli { p: f64::NAN.to_bits() });
    assert_eq!(r.err(), Some(Error::InvalidParameters));
}

#[test]
fn validate_accepts_legal_parameters() {
    let req = DistributionRequest::Uniform { low: -3, high: 9 };
    assert_eq!(validate(req).unwrap().request(), req);
    let req = DistributionRequest::Normal {
        mean: (-4.5f64).to_bits(),
        std_dev: 0.25f64.to_bits(),
    };
    assert_eq!(validate(req).unwrap().request(), req);
    let req = DistributionRequest::Bernoulli { p: 0.5f64.to_bits() };
    assert_eq!(validate(req).unwrap().request(), req);
}

#[test]
fn validate_accepts_probability_bounds() {
    let req = DistributionRequest::Bernoulli { p: 0.0f64.to_bits() };
    assert!(validate(req).is_ok());
    let req = DistributionRequest::Bernoulli { p: 1.0f64.to_bits() };
    assert!(validate(req).is_ok());
    let req = DistributionRequest::Bernoulli { p: (-0.0f64).to_bits() };
    assert!(validate(req).is_ok());
}

#[test]
fn validation_is_idempotent() {
    let cases = [
        DistributionRequest::Uniform { low: 5, high: 5 },
        DistributionRequest::Uniform { low: 0, high: 1 },
        DistributionRequest::Normal { mean: 0, std_dev: (-1.0f64).to_bits() },
        DistributionRequest::Normal { mean: 0, std_dev: 1.0f64.to_bits() },
        DistributionRequest::Bernoulli { p: 1.5f64.to_bits() },
        DistributionRequest::Bernoulli { p: 1.0f64.to_bits() },
    ];
    for req in cases {
        let first = validate(req).map(|v| v.request());
        let second = validate(req).map(|v| v.request());
        assert_eq!(first, second);
    }
}

#[test]
fn prepare_runs_the_whole_pipeline() {
    let r = raw("uniform", &[("start", RawValue::Int(2)), ("end", RawValue::Int(4))]);
    let v = prepare(&r).unwrap();
    assert_eq!(v.request(), DistributionRequest::Uniform { low: 2, high: 4 });

    let r = raw("uniform", &[("start", RawValue::Int(4)), ("end", RawValue::Int(4))]);
    assert_eq!(prepare(&r).err(), Some(Error::InvalidParameters));

    let r = raw("gamma", &[]);
    assert_eq!(prepare(&r).err(), Some(Error::InvalidRequest));
}
