//! Which files the certificates of the server are read from.

use vstd::prelude::*;
use vstd::string::*;

verus! {

/// Why certificates cannot be loaded.
#[derive(Debug, Clone, PartialEq, Eq)]
pub enum CertificateError {
    /// The settings name no file for what the text says.
    NoFileSpecified(String),
}

/// The files that the settings name for one certificate of the server.
#[derive(Debug, Clone, PartialEq, Eq)]
pub struct ServerCertificate {
    pub private_key_file: Option<String>,
    pub certificate_chain_file: Option<String>,
}

/// The files that one certificate of the server is read from.
#[derive(Debug, Clone, PartialEq, Eq)]
pub struct CertificateFiles {
    pub private_key_file: String,
    pub certificate_chain_file: String,
}

/// The file to read: the one named for the certificate, or else the first of
/// the files named for all certificates.
pub open spec fn chosen_file(specific: Option<String>, fallback: Seq<String>) -> Option<Seq<char>> {
    match specific {
        Some(file) => Some(file@),
        None => if fallback.len() > 0 {
            Some(fallback[0]@)
        } else {
            None
        },
    }
}

/// What the first `n` certificates lack, if any of them lacks a file: the
/// first certificate that lacks one decides, and its private key comes first.
pub open spec fn first_missing(
    certificates: Seq<ServerCertificate>,
    private_key_files: Seq<String>,
    certificate_chain_files: Seq<String>,
    n: int,
) -> Option<Seq<char>>
    decreases n,
{
    if n <= 0 {
        None
    } else {
        match first_missing(certificates, private_key_files, certificate_chain_files, n - 1) {
            Some(what) => Some(what),
            None => if chosen_file(certificates[n - 1].private_key_file, private_key_files)
                is None {
                Some("private key"@)
            } else if chosen_file(
                certificates[n - 1].certificate_chain_file,
                certificate_chain_files,
            ) is None {
                Some("certificate chain"@)
            } else {
                None
            },
        }
    }
}

/// The file of the CA certificate, or the error that says that none is named.
pub fn choose_ca_certificate_file(ca_certificate_file: Option<&String>) -> (r: Result<
    String,
    CertificateError,
>)
    ensures
        match ca_certificate_file {
            Some(file) => r is Ok && r->Ok_0@ == file@,
            None => r is Err && r->Err_0->NoFileSpecified_0@ == "CA certificate"@,
        },
{
    match ca_certificate_file {
        Some(file) => Ok(file.clone()),
        None => Err(CertificateError::NoFileSpecified("CA certificate".to_owned())),
    }
}

fn choose_file(specific: &Option<String>, fallback: &Vec<String>) -> (r: Option<String>)
    ensures
        r is Some == chosen_file(*specific, fallback@) is Some,
        r is Some ==> r->0@ == chosen_file(*specific, fallback@)->0,
{
    match specific {
        Some(file) => Some(file.clone()),
        None => if fallback.len() > 0 {
            Some(fallback[0].clone())
        } else {
            None
        },
    }
}

/// The files of the certificates of the server, one pair for each certificate
/// that the settings list, or the error that says what the settings do not name.
pub fn choose_server_certificate_files(
    server_certificates: &Vec<ServerCertificate>,
    private_key_files: &Vec<String>,
    certificate_chain_files: &Vec<String>,
) -> (r: Result<Vec<CertificateFiles>, CertificateError>)
    ensures
        match r {
            Ok(files) => server_certificates@.len() > 0 && first_missing(
                server_certificates@,
                private_key_files@,
                certificate_chain_files@,
                server_certificates@.len() as int,
            ) is None && files@.len() == server_certificates@.len() && forall|i: int|
                0 <= i < files@.len() ==> Some((#[trigger] files@[i]).private_key_file@)
                    == chosen_file(server_certificates@[i].private_key_file, private_key_files@)
                    && Some(files@[i].certificate_chain_file@) == chosen_file(
                    server_certificates@[i].certificate_chain_file,
                    certificate_chain_files@,
                ),
            Err(CertificateError::NoFileSpecified(what)) => if server_certificates@.len() == 0 {
                what@ == "server certificates"@
            } else {
                Some(what@) == first_missing(
                    server_certificates@,
                    private_key_files@,
                    certificate_chain_files@,
                    server_certificates@.len() as int,
                )
            },
        },
{
    if server_certificates.len() == 0 {
        return Err(CertificateError::NoFileSpecified("server certificates".to_owned()));
    }
    let mut files: Vec<CertificateFiles> = Vec::new();
    let mut i: usize = 0;
    while i < server_certificates.len()
        invariant
            i <= server_certificates@.len(),
            files@.len() == i,
            first_missing(
                server_certificates@,
                private_key_files@,
                certificate_chain_files@,
                i as int,
            ) is None,
            forall|k: int|
                0 <= k < i ==> Some((#[trigger] files@[k]).private_key_file@) == chosen_file(
                    server_certificates@[k].private_key_file,
                    private_key_files@,
                ) && Some(files@[k].certificate_chain_file@) == chosen_file(
                    server_certificates@[k].certificate_chain_file,
                    certificate_chain_files@,
                ),
        decreases server_certificates@.len() - i,
    {
        let certificate = &server_certificates[i];
        let private_key_file = match choose_file(&certificate.private_key_file, private_key_files) {
            Some(file) => file,
            None => {
                proof {
                    lemma_missing_stays(
                        server_certificates@,
                        private_key_files@,
                        certificate_chain_files@,
                        i + 1,
                        server_certificates@.len() as int,
                    );
                }
                return Err(CertificateError::NoFileSpecified("private key".to_owned()));
            },
        };
        let certificate_chain_file = match choose_file(
            &certificate.certificate_chain_file,
            certificate_chain_files,
        ) {
            Some(file) => file,
            None => {
                proof {
                    lemma_missing_stays(
                        server_certificates@,
                        private_key_files@,
                        certificate_chain_files@,
                        i + 1,
                        server_certificates@.len() as int,
                    );
                }
                return Err(CertificateError::NoFileSpecified("certificate chain".to_owned()));
            },
        };
        files.push(CertificateFiles { private_key_file, certificate_chain_file });
        i = i + 1;
    }
    Ok(files)
}

/// What the first certificates lack, all of them lack.
proof fn lemma_missing_stays(
    certificates: Seq<ServerCertificate>,
    private_key_files: Seq<String>,
    certificate_chain_files: Seq<String>,
    n: int,
    m: int,
)
    requires
        0 <= n <= m,
        first_missing(certificates, private_key_files, certificate_chain_files, n) is Some,
    ensures
        first_missing(certificates, private_key_files, certificate_chain_files, m)
            == first_missing(certificates, private_key_files, certificate_chain_files, n),
    decreases m - n,
{
    if n < m {
        lemma_missing_stays(certificates, private_key_files, certificate_chain_files, n, m - 1);
    }
}

} // verus!
