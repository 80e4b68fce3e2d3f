use restate_core::identifiers::{
    DeploymentId, IdDecodeError, InvocationId, InvocationUuid, LeaderEpoch, ServiceId,
    SubscriptionId, WithPartitionKey,
};
use restate_core::lambda::{InvalidLambdaARN, LambdaARN};

#[test]
fn roundtrip_invocation_id() {
    let expected = InvocationId::new(92, InvocationUuid::new());
    assert_eq!(
        expected,
        InvocationId::from_slice(&expected.to_bytes()).unwrap()
    )
}

#[test]
fn invocation_codec_capacity() {
    assert_eq!(38, InvocationId::new(92, InvocationUuid::new()).to_string().len())
}

#[test]
fn roundtrip_invocation_id_str() {
    // torture test (poor man's property check)
    for i in 0..100000u64 {
        let partition_key = i.wrapping_mul(0x9E37_79B9_7F4A_7C15).wrapping_add(i);
        let expected = InvocationId::new(partition_key, InvocationUuid::new());
        let serialized = expected.to_string();
        assert_eq!(38, serialized.len(), "{} => {:?}", serialized, expected);
        let parsed = InvocationId::from_str(&serialized).unwrap();
        assert_eq!(expected, parsed, "serialized: {}", serialized);
    }
}

#[test]
fn bad_invocation_id_str() {
    let bad_strs = [
        ("", IdDecodeError::Length),
        (
            "mxvgUOrwIb8cYrGPHkAAKSKY3O!6IEy_g",
            IdDecodeError::UnrecognizedType("mxvgUOrwIb8cYrGPHkAAKSKY3O!6IEy".to_string()),
        ),
        ("mxvgUOrwIb8", IdDecodeError::Format),
        (
            "inv_ub23411ba", // wrong version
            IdDecodeError::Version,
        ),
        ("inv_1b234d1ba", IdDecodeError::Length),
    ];

    for (bad, error) in bad_strs {
        assert_eq!(
            error,
            InvocationId::from_str(bad).unwrap_err(),
            "invocation id: '{}' fails with {:?}",
            bad,
            error
        )
    }
}

#[test]
fn roundtrip_lambda_arn() {
    let good = "arn:aws:lambda:eu-central-1:1234567890:function:e2e-node-services:version";

    let expected = LambdaARN::from_str(good).unwrap();
    let parsed = expected.to_string();

    assert_eq!(good, parsed)
}

#[test]
fn missing_version_lambda_arn() {
    for bad in [
        "arn:aws:lambda:eu-central-1:1234567890:function:e2e-node-services",
        "arn:aws:lambda:eu-central-1:1234567890:function:e2e-node-services:",
    ] {
        assert_eq!(
            LambdaARN::from_str(bad).unwrap_err(),
            InvalidLambdaARN::MissingVersionSuffix
        );
    }
}

#[test]
fn lambda_arn_error_kinds() {
    assert_eq!(
        LambdaARN::from_str("arn:aws:lambda:region").unwrap_err(),
        InvalidLambdaARN::InvalidFormat
    );
    assert_eq!(
        LambdaARN::from_str("x:aws:lambda:r:a:function:n:v").unwrap_err(),
        InvalidLambdaARN::InvalidPrefix
    );
    assert_eq!(
        LambdaARN::from_str("arn:aws:lambda:r:a:layer:n:v").unwrap_err(),
        InvalidLambdaARN::InvalidResourceType
    );
    assert_eq!(
        LambdaARN::from_str("arn:aws:s3:r:a:function:n:v").unwrap_err(),
        InvalidLambdaARN::InvalidService
    );
    assert_eq!(
        LambdaARN::from_str("arn:aws:lambda::a:function:n:v").unwrap_err(),
        InvalidLambdaARN::InvalidComponent
    );
    assert_eq!(
        LambdaARN::from_str("arn:aws:lambda:r:a:function:n:$LATEST").unwrap().region(),
        "r"
    );
}

#[test]
fn roundtrip_invocation_uuid_bytes() {
    let uuid = InvocationUuid::from_parts(1693000000000, 0x1234_5678_9ABC_DEF0_1122);
    let bytes = uuid.to_bytes();
    assert_eq!(16, bytes.len());
    assert_eq!(uuid, InvocationUuid::from_slice(&bytes).unwrap());
    assert_eq!(
        IdDecodeError::Length,
        InvocationUuid::from_slice(&bytes[1..]).unwrap_err()
    );
}

#[test]
fn invocation_uuid_parts() {
    let uuid = InvocationUuid::from_parts(5000, 77);
    let (ts, random) = uuid.as_raw_parts();
    assert_eq!(5000, ts);
    assert_eq!(77, random);
    assert_eq!(5000, uuid.timestamp_ms());
    assert_eq!(uuid.0 + 1, uuid.increment_random().0);
    let (ts2, random2) = uuid.increment_timestamp().as_raw_parts();
    assert_eq!(5001, ts2);
    assert_eq!(77, random2);
    assert_eq!(22, uuid.to_string().len());
}

#[test]
fn roundtrip_invocation_uuid_str() {
    let uuid = InvocationUuid::from_parts(1693000000000, 0x1234_5678_9ABC_DEF0_1122);
    let serialized = uuid.to_string();
    assert_eq!(22, serialized.len());
    assert_eq!(uuid, InvocationUuid::from_str(&serialized).unwrap());
    // wrong length, bad digit, and an overflowing value
    assert_eq!(
        IdDecodeError::Length,
        InvocationUuid::from_str("0123456789").unwrap_err()
    );
    assert_eq!(
        IdDecodeError::Format,
        InvocationUuid::from_str("01234567890123456789!x").unwrap_err()
    );
    assert_eq!(
        IdDecodeError::Format,
        InvocationUuid::from_str("zzzzzzzzzzzzzzzzzzzzzz").unwrap_err()
    );
}

#[test]
fn invocation_id_string_form_is_prefix_searchable() {
    // ids with the same partition key share the first 16 characters
    let a = InvocationId::new(42, InvocationUuid::from_parts(1, 2)).to_string();
    let b = InvocationId::new(42, InvocationUuid::from_parts(3, 4)).to_string();
    let c = InvocationId::new(43, InvocationUuid::from_parts(1, 2)).to_string();
    assert_eq!(&a[..16], &b[..16]);
    assert_ne!(&a[..16], &c[..16]);
    assert!(a.starts_with("inv_1"));
}

#[test]
fn service_id_partition_key_is_deterministic() {
    // one service key always routes to the same partition
    let key_bytes = b"some-key".to_vec();
    let first = ServiceId::new("greeter".to_string(), key_bytes.clone());
    let second = ServiceId::new("greeter".to_string(), key_bytes);
    assert_eq!(first.partition_key(), second.partition_key());
    // and through the trait as well as the field
    assert_eq!(first.partition_key, second.partition_key);
}

#[test]
fn partition_key_is_the_xxh3_digest() {
    // the reference vector: the xxh3 digest of the empty input
    let empty = ServiceId::new("svc".to_string(), Vec::new());
    assert_eq!(0x2d06800538d394c2, empty.partition_key);
    // and different keys route differently
    let a = ServiceId::new("svc".to_string(), b"a".to_vec());
    let b = ServiceId::new("svc".to_string(), b"b".to_vec());
    assert_ne!(a.partition_key, b.partition_key);
}

#[test]
fn ids_from_parts_are_deterministic() {
    assert_eq!(DeploymentId::from_parts(7, 9), DeploymentId::from_parts(7, 9));
    assert_eq!(SubscriptionId::from_parts(7, 9), SubscriptionId::from_parts(7, 9));
    assert_eq!(LeaderEpoch::initial(), LeaderEpoch(1));
}
