use pyfalcon::schema::SchemaGeneration;
use pyfalcon::version::{
    classify_input, generation_of_version, parse_python_version, InputKind, VersionError,
};

#[test]
fn version_text_parses() {
    assert_eq!(parse_python_version(b"3.10"), Ok((3, 10)));
    assert_eq!(parse_python_version(b"3.9"), Ok((3, 9)));
    assert_eq!(parse_python_version(b"255.255"), Ok((255, 255)));
}

#[test]
fn malformed_version_text_is_rejected() {
    assert_eq!(parse_python_version(b"3"), Err(VersionError::MalformedVersion));
    assert_eq!(parse_python_version(b"3.10.1"), Err(VersionError::MalformedVersion));
    assert_eq!(parse_python_version(b"a.b"), Err(VersionError::MalformedVersion));
    assert_eq!(parse_python_version(b".10"), Err(VersionError::MalformedVersion));
    assert_eq!(parse_python_version(b"3."), Err(VersionError::MalformedVersion));
    assert_eq!(parse_python_version(b"3.256"), Err(VersionError::MalformedVersion));
    assert_eq!(parse_python_version(b""), Err(VersionError::MalformedVersion));
}

#[test]
fn supported_generations_resolve() {
    assert_eq!(generation_of_version(3, 10), Ok(SchemaGeneration::Gen1));
    assert_eq!(generation_of_version(3, 11), Ok(SchemaGeneration::Gen2));
    assert_eq!(generation_of_version(3, 13), Ok(SchemaGeneration::Gen3));
}

#[test]
fn unsupported_generations_are_refused_at_the_boundary() {
    assert_eq!(generation_of_version(3, 12), Err(VersionError::UnsupportedSchemaGeneration));
    assert_eq!(generation_of_version(3, 9), Err(VersionError::UnsupportedSchemaGeneration));
    assert_eq!(generation_of_version(2, 7), Err(VersionError::UnsupportedSchemaGeneration));
}

#[test]
fn input_extension_classification() {
    assert_eq!(classify_input(b"pyc"), InputKind::SelfDescribing);
    assert_eq!(classify_input(b"PYC"), InputKind::SelfDescribing);
    assert_eq!(classify_input(b"py"), InputKind::SourceText);
    assert_eq!(classify_input(b"Py"), InputKind::SourceText);
    assert_eq!(classify_input(b"txt"), InputKind::RawPayload);
    assert_eq!(classify_input(b""), InputKind::RawPayload);
    assert_eq!(classify_input(b"pycx"), InputKind::RawPayload);
}
