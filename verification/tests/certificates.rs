use nmos_core::certificates::{
    choose_ca_certificate_file, choose_server_certificate_files, CertificateError,
    CertificateFiles, ServerCertificate,
};

fn cert(key: Option<&str>, chain: Option<&str>) -> ServerCertificate {
    ServerCertificate {
        private_key_file: key.map(|s| s.to_string()),
        certificate_chain_file: chain.map(|s| s.to_string()),
    }
}

fn files(key: &str, chain: &str) -> CertificateFiles {
    CertificateFiles { private_key_file: key.to_string(), certificate_chain_file: chain.to_string() }
}

fn missing(what: &str) -> CertificateError {
    CertificateError::NoFileSpecified(what.to_string())
}

#[test]
fn the_ca_certificate_needs_a_file() {
    assert_eq!(choose_ca_certificate_file(Some(&"ca.pem".to_string())), Ok("ca.pem".to_string()));
    assert_eq!(choose_ca_certificate_file(None), Err(missing("CA certificate")));
}

#[test]
fn each_certificate_takes_its_own_files_or_the_first_of_all() {
    let certificates = vec![
        cert(Some("a.key"), Some("a.pem")),
        cert(None, Some("b.pem")),
        cert(Some("c.key"), None),
        cert(None, None),
    ];
    let keys = vec!["first.key".to_string(), "second.key".to_string()];
    let chains = vec!["first.pem".to_string()];
    assert_eq!(
        choose_server_certificate_files(&certificates, &keys, &chains),
        Ok(vec![
            files("a.key", "a.pem"),
            files("first.key", "b.pem"),
            files("c.key", "first.pem"),
            files("first.key", "first.pem"),
        ])
    );
}

#[test]
fn no_certificates_at_all() {
    assert_eq!(
        choose_server_certificate_files(&vec![], &vec!["k".to_string()], &vec!["c".to_string()]),
        Err(missing("server certificates"))
    );
}

#[test]
fn the_first_certificate_that_lacks_a_file_decides() {
    let none: Vec<String> = vec![];
    assert_eq!(
        choose_server_certificate_files(&vec![cert(None, None)], &none, &none),
        Err(missing("private key"))
    );
    assert_eq!(
        choose_server_certificate_files(&vec![cert(Some("k"), None)], &none, &none),
        Err(missing("certificate chain"))
    );
    assert_eq!(
        choose_server_certificate_files(
            &vec![cert(Some("k"), Some("c")), cert(Some("k"), None), cert(None, Some("c"))],
            &none,
            &none
        ),
        Err(missing("certificate chain"))
    );
    assert_eq!(
        choose_server_certificate_files(
            &vec![cert(Some("k"), Some("c")), cert(None, Some("c")), cert(Some("k"), None)],
            &none,
            &vec!["all.pem".to_string()]
        ),
        Err(missing("private key"))
    );
}
