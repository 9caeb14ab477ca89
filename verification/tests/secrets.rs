use usage_dash::secrets::gcp::GcpSecretManagerResolver;
use usage_dash::secrets::SecretError;

#[test]
fn splits_a_full_reference() {
    let version = GcpSecretManagerResolver::parse_reference("projects/p1/secrets/KEY/versions/latest").unwrap();
    assert_eq!(version.project, "p1");
    assert_eq!(version.secret, "KEY");
    assert_eq!(version.version, "latest");
}

#[test]
fn rejects_other_references() {
    for bad in [
        "",
        "KEY",
        "projects/p1/secrets/KEY",
        "projects//secrets/KEY/versions/1",
        "projects/p1/secrets/KEY/versions/",
        "project/p1/secrets/KEY/versions/1",
        "projects/p1/secret/KEY/versions/1",
        "projects/p1/secrets/KEY/version/1",
        "projects/p1/secrets/KEY/versions/1/extra",
    ] {
        assert!(
            matches!(GcpSecretManagerResolver::parse_reference(bad), Err(SecretError::InvalidReference)),
            "{bad}"
        );
    }
}

#[test]
fn passes_the_names_to_gcloud() {
    let version = GcpSecretManagerResolver::parse_reference("projects/p1/secrets/KEY/versions/3").unwrap();
    assert_eq!(
        GcpSecretManagerResolver::access_arguments(&version),
        vec!["secrets", "versions", "access", "3", "--secret", "KEY", "--project", "p1", "--quiet"]
    );
}

#[test]
fn strips_trailing_line_endings_from_the_secret() {
    let secret = GcpSecretManagerResolver::secret_from_output(b"sk-abc\r\n\n".to_vec()).unwrap();
    assert_eq!(secret, "sk-abc");
    let inner = GcpSecretManagerResolver::secret_from_output(b"a\nb\n".to_vec()).unwrap();
    assert_eq!(inner, "a\nb");
    let spaced = GcpSecretManagerResolver::secret_from_output(b" key \n".to_vec()).unwrap();
    assert_eq!(spaced, " key ");
    let unicode = GcpSecretManagerResolver::secret_from_output("clé\n".as_bytes().to_vec()).unwrap();
    assert_eq!(unicode, "clé");
}

#[test]
fn rejects_output_that_is_not_utf8() {
    assert!(matches!(
        GcpSecretManagerResolver::secret_from_output(vec![0xff, 0xfe, b'\n']),
        Err(SecretError::InvalidPayload)
    ));
}

#[test]
fn secret_error_messages() {
    assert_eq!(
        SecretError::InvalidReference.message(),
        "secret reference must use projects/<project>/secrets/<secret>/versions/<version>"
    );
    assert_eq!(
        SecretError::AuthenticationFailed.message(),
        "Application Default Credentials could not produce an access token"
    );
    assert_eq!(
        SecretError::AccessFailed.message(),
        "Google Secret Manager could not access this secret reference"
    );
    assert_eq!(
        SecretError::InvalidPayload.message(),
        "Google Secret Manager returned an invalid secret payload"
    );
}

#[test]
fn normalized_references_resolve() {
    let reference = usage_dash::web::routes::normalize_secret_reference("usage-project", "KEY").unwrap();
    let version = GcpSecretManagerResolver::parse_reference(&reference).unwrap();
    assert_eq!(version.project, "usage-project");
}
