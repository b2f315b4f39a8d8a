//! What a client needs to trust a server: the certificates of its authority and its name.

use vstd::prelude::*;

verus! {

#[verifier::external_type_specification]
#[verifier::external_body]
pub struct ExIoError(std::io::Error);

#[verifier::external_type_specification]
#[verifier::external_body]
pub struct ExTlsError(rustls::Error);

/// The certificates in a PEM file in their order, with a gap for each section that cannot be read.
pub uninterp spec fn pem_certificates(pem: Seq<u8>) -> Seq<Option<Seq<u8>>>;

/// What the sections of a file hold, where they can be read.
pub open spec fn sections(v: Seq<Result<Vec<u8>, std::io::Error>>) -> Seq<Option<Seq<u8>>> {
    v.map_values(
        |r: Result<Vec<u8>, std::io::Error>|
            match r {
                Ok(b) => Some(b@),
                Err(_) => None,
            },
    )
}

/// `rustls_pemfile::certs`: the certificates of a file in their order, and an error for each section
/// that cannot be read; which of the two, and the bytes, are told by the file alone.
#[verifier::external_body]
fn pem_certs(pem: &[u8]) -> (r: Vec<Result<Vec<u8>, std::io::Error>>)
    ensures
        sections(r@) == pem_certificates(pem@),
{
    let mut rest: &[u8] = pem;
    rustls_pemfile::certs(&mut rest).map(|c| c.map(|der| der.as_ref().to_vec())).collect()
}

/// Whether a certificate can be trusted as the root of others.
pub uninterp spec fn is_root(der: Seq<u8>) -> bool;

/// `rustls::RootCertStore::add`: an error where the store does not take the certificate, which is
/// told by its bytes alone.
#[verifier::external_body]
fn parse_root(der: &[u8]) -> (r: Result<(), rustls::Error>)
    ensures
        r is Ok == is_root(der@),
{
    let cert = rustls_pki_types::CertificateDer::from(der);
    rustls::RootCertStore::empty().add(cert)
}

/// Whether a name can be the name of a server.
pub uninterp spec fn names_a_server(name: Seq<char>) -> bool;

/// `rustls_pki_types::ServerName::try_from`: whether the text is a DNS name or an address, which is
/// told by the text alone.
#[verifier::external_body]
fn server_name_parses(name: &str) -> (r: bool)
    ensures
        r == names_a_server(name@),
{
    rustls_pki_types::ServerName::try_from(name.to_string()).is_ok()
}

/// What keeps a client from being set up.
#[derive(Debug)]
pub enum TlsFault {
    /// A section of the authority's file, by its position, cannot be read.
    BadPem(usize, std::io::Error),
    /// A certificate of the authority's file, by its position, cannot be a root.
    BadRoot(usize, rustls::Error),
    /// The name is none of a server.
    BadName,
}

/// What is said of a name that no server can have.
pub open spec fn bad_name(name: Seq<char>) -> Seq<char> {
    "Invalid server name '"@ + name + "': invalid dns name"@
}

/// What a client trusts that shows no certificate of its own.
#[derive(Debug)]
pub struct AnonymousTls {
    pub roots: Vec<Vec<u8>>,
    pub server_name: String,
}

/// The bytes of each of `v`, none of which is missing.
pub open spec fn contents(v: Seq<Vec<u8>>) -> Seq<Option<Seq<u8>>> {
    v.map_values(|b: Vec<u8>| Some(b@))
}

/// Whether every section of a file holds a certificate that can be a root.
pub open spec fn all_roots(certs: Seq<Option<Seq<u8>>>) -> bool {
    forall|i: int|
        0 <= i < certs.len() ==> (#[trigger] certs[i] matches Some(der) && is_root(der))
}

/// The certificates that a client of `server_name` trusts, from its authority's file. The file is
/// taken from front to back, and the name after it: the first fault is the one that is told.
pub fn build_anonymous_tls(ca_pem: &[u8], server_name: &str) -> (r: Result<AnonymousTls, TlsFault>)
    ensures
        ({
            let certs = pem_certificates(ca_pem@);
            match r {
                Ok(tls) => {
                    &&& all_roots(certs)
                    &&& names_a_server(server_name@)
                    &&& contents(tls.roots@) == certs
                    &&& tls.server_name@ == server_name@
                },
                Err(TlsFault::BadPem(k, _)) => {
                    &&& k < certs.len()
                    &&& certs[k as int] is None
                    &&& all_roots(certs.take(k as int))
                },
                Err(TlsFault::BadRoot(k, _)) => {
                    &&& k < certs.len()
                    &&& certs[k as int] matches Some(der) && !is_root(der)
                    &&& all_roots(certs.take(k as int))
                },
                Err(TlsFault::BadName) => all_roots(certs) && !names_a_server(server_name@),
            }
        }),
{
    let mut rest: Vec<Result<Vec<u8>, std::io::Error>> = pem_certs(ca_pem);
    let ghost certs = pem_certificates(ca_pem@);
    let mut roots: Vec<Vec<u8>> = Vec::new();
    assert(certs.skip(0) =~= certs);
    assert(contents(roots@) =~= certs.take(0));
    while rest.len() > 0
        invariant
            roots@.len() <= certs.len(),
            certs == pem_certificates(ca_pem@),
            sections(rest@) == certs.skip(roots@.len() as int),
            contents(roots@) == certs.take(roots@.len() as int),
            all_roots(certs.take(roots@.len() as int)),
        decreases rest@.len(),
    {
        let k: usize = roots.len();
        let ghost before = rest@;
        assert(sections(before).len() == before.len());
        assert(certs.skip(k as int)[0] == certs[k as int]);
        match rest.remove(0) {
            Err(e) => {
                return Err(TlsFault::BadPem(k, e));
            },
            Ok(der) => match parse_root(der.as_slice()) {
                Err(e) => {
                    return Err(TlsFault::BadRoot(k, e));
                },
                Ok(_) => {
                    roots.push(der);
                    assert(certs.take(k + 1) =~= certs.take(k as int).push(certs[k as int]));
                    assert(contents(roots@) =~= certs.take(k + 1));
                    assert(sections(rest@) =~= certs.skip(k + 1)) by {
                        assert forall|i: int| 0 <= i < rest@.len() implies sections(rest@)[i]
                            == certs.skip(k + 1)[i] by {
                            assert(rest@[i] == before[i + 1]);
                            assert(sections(before)[i + 1] == certs.skip(k as int)[i + 1]);
                        }
                    }
                },
            },
        }
    }
    assert(roots@.len() == certs.len()) by {
        assert(sections(rest@).len() == 0);
    }
    assert(certs.take(certs.len() as int) =~= certs);
    if server_name_parses(server_name) {
        Ok(AnonymousTls { roots, server_name: server_name.to_owned() })
    } else {
        Err(TlsFault::BadName)
    }
}

/// The name itself, or what is said of it where no server can have it.
pub fn check_server_name(server_name: &str) -> (r: Result<String, String>)
    ensures
        match r {
            Ok(name) => names_a_server(server_name@) && name@ == server_name@,
            Err(message) => !names_a_server(server_name@) && message@ == bad_name(server_name@),
        },
{
    if server_name_parses(server_name) {
        Ok(server_name.to_owned())
    } else {
        let mut message: String = "Invalid server name '".to_owned();
        message.append(server_name);
        message.append("': invalid dns name");
        Err(message)
    }
}

} // verus!
