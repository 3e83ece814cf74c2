//! Certificate material for the TLS acceptor: where it comes from, and what
//! is taken from the PEM files that hold it.

use crate::config::{Config, TLS};
use crate::http::{ascii, ascii_bytes};
use std::path::PathBuf;
use vstd::prelude::*;
use vstd::slice::slice_to_vec;

verus! {

broadcast use vstd::string::group_string_axioms;

/// `std::io::Error`, as the PEM parser returns it.
#[verifier::external_type_specification]
#[verifier::external_body]
pub struct ExIoError(std::io::Error);

/// `rcgen::RcgenError`, as certificate generation returns it.
#[verifier::external_type_specification]
#[verifier::external_body]
pub struct ExRcgenError(rcgen::RcgenError);

/// Why no certificate material could be had.
#[derive(Clone, Copy, Debug, PartialEq, Eq, Structural)]
pub enum CertError {
    /// TLS is switched off.
    TlsDisabled,
    /// The certificate file is no well-formed PEM.
    BadCertificateFile,
    /// The key file is no well-formed PEM.
    BadKeyFile,
    /// The key file does not hold exactly one section, a PKCS#8 private key.
    KeyNotFound,
    /// No self-signed certificate could be generated.
    Generation,
}

/// What a PEM section holds.
#[derive(Clone, Copy, Debug, PartialEq, Eq, Structural)]
pub enum PemKind {
    Certificate,
    RsaKey,
    Pkcs8Key,
    EcKey,
    Crl,
    /// A section of a kind that has no name here; its content is not kept.
    Other,
}

/// One section of a PEM file: its kind and its decoded content.
#[derive(Clone, Debug, PartialEq, Eq)]
pub struct PemItem {
    pub kind: PemKind,
    pub der: Vec<u8>,
}

/// The mathematical content of a [`PemItem`].
pub ghost struct PemItemView {
    pub kind: PemKind,
    pub der: Seq<u8>,
}

impl View for PemItem {
    type V = PemItemView;

    open spec fn view(&self) -> PemItemView {
        PemItemView { kind: self.kind, der: self.der@ }
    }
}

/// The views of a run of sections, in order.
pub open spec fn items_view(items: Seq<PemItem>) -> Seq<PemItemView> {
    Seq::new(items.len(), |i: int| items[i]@)
}

/// The views of a run of byte strings, in order.
pub open spec fn chain_view(chain: Seq<Vec<u8>>) -> Seq<Seq<u8>> {
    Seq::new(chain.len(), |i: int| chain[i]@)
}

/// The certificates that a PEM file holds, in order, or `None` where the
/// file is not well formed.
pub uninterp spec fn pem_certs(input: Seq<u8>) -> Option<Seq<Seq<u8>>>;

/// All the sections that a PEM file holds, in order, or `None` where the
/// file is not well formed.
pub uninterp spec fn pem_items(input: Seq<u8>) -> Option<Seq<PemItemView>>;

/// `rustls_pemfile::certs` on a reader over `input`: the decoded content of
/// each `CERTIFICATE` section, in the order of the file, and an error where a
/// section does not end or its base64 text does not decode. The grammar is
/// not restated here; the result is known only as [`pem_certs`] of the input.
#[verifier::external_body]
fn read_certs(input: &[u8]) -> (outcome: Result<Vec<Vec<u8>>, std::io::Error>)
    ensures
        match pem_certs(input@) {
            Some(certs) => outcome matches Ok(chain) && chain_view(chain@) == certs,
            None => outcome is Err,
        },
{
    let mut reader = input;
    rustls_pemfile::certs(&mut reader)
}

/// `rustls_pemfile::read_all` on a reader over `input`: every section of a
/// kind that the parser knows, in the order of the file, and an error where a
/// section does not end or its base64 text does not decode. The result is
/// known only as [`pem_items`] of the input.
#[verifier::external_body]
fn read_items(input: &[u8]) -> (outcome: Result<Vec<PemItem>, std::io::Error>)
    ensures
        match pem_items(input@) {
            Some(items) => outcome matches Ok(found) && items_view(found@) == items,
            None => outcome is Err,
        },
{
    let mut reader = input;
    let items = rustls_pemfile::read_all(&mut reader)?;
    Ok(items.into_iter().map(|item| match item {
        rustls_pemfile::Item::X509Certificate(der) => PemItem { kind: PemKind::Certificate, der },
        rustls_pemfile::Item::RSAKey(der) => PemItem { kind: PemKind::RsaKey, der },
        rustls_pemfile::Item::PKCS8Key(der) => PemItem { kind: PemKind::Pkcs8Key, der },
        rustls_pemfile::Item::ECKey(der) => PemItem { kind: PemKind::EcKey, der },
        rustls_pemfile::Item::Crl(der) => PemItem { kind: PemKind::Crl, der },
        _ => PemItem { kind: PemKind::Other, der: Vec::new() },
    }).collect())
}

/// `rcgen::generate_simple_self_signed` for the name `*`, with the
/// certificate and its private key serialised to DER by
/// `Certificate::serialize_der` and `Certificate::serialize_private_key_der`.
/// The key pair is drawn at random, so nothing is claimed of the result. The
/// key is generated here and not a remote one, which is where the last of the
/// three calls would panic.
#[verifier::external_body]
fn generate_self_signed() -> (outcome: Result<(Vec<u8>, Vec<u8>), rcgen::RcgenError>) {
    let cert = rcgen::generate_simple_self_signed(vec![String::from("*")])?;
    let der = cert.serialize_der()?;
    Ok((der, cert.serialize_private_key_der()))
}

/// Where the certificate material is taken from.
#[derive(Clone, Copy, Debug, PartialEq, Eq, Structural)]
pub enum CertSource {
    /// Nowhere: TLS is switched off.
    Disabled,
    /// A certificate that is generated at startup.
    SelfSigned,
    /// The certificate and key files that the settings name.
    Files,
}

/// The source that the settings ask for; self-signed where they are silent.
pub open spec fn source_of(config: Config) -> CertSource {
    match config.tls {
        None => CertSource::SelfSigned,
        Some(TLS::SelfSigned) => CertSource::SelfSigned,
        Some(TLS::Disabled) => CertSource::Disabled,
        Some(TLS::Certificate { .. }) => CertSource::Files,
    }
}

/// The source that the settings ask for.
pub fn cert_source(config: &Config) -> (source: CertSource)
    ensures
        source == source_of(*config),
{
    match &config.tls {
        None => CertSource::SelfSigned,
        Some(TLS::SelfSigned) => CertSource::SelfSigned,
        Some(TLS::Disabled) => CertSource::Disabled,
        Some(TLS::Certificate { .. }) => CertSource::Files,
    }
}

/// The certificate and key files that the settings name, if they name any.
pub fn cert_files(config: &Config) -> (files: Option<(&PathBuf, &PathBuf)>)
    ensures
        match config.tls {
            Some(TLS::Certificate { cert_path, private_key_path }) => files == Some(
                (&cert_path, &private_key_path),
            ),
            _ => files is None,
        },
{
    match &config.tls {
        Some(TLS::Certificate { cert_path, private_key_path }) => Some(
            (cert_path, private_key_path),
        ),
        _ => None,
    }
}

/// What the TLS acceptor is configured with: the certificate chain, the
/// private key, and the protocols it offers, in order of preference.
#[derive(Clone, Debug, PartialEq, Eq)]
pub struct TlsMaterial {
    pub cert_chain: Vec<Vec<u8>>,
    pub private_key: Vec<u8>,
    pub alpn_protocols: Vec<Vec<u8>>,
}

/// The mathematical content of a [`TlsMaterial`].
pub ghost struct TlsMaterialView {
    pub cert_chain: Seq<Seq<u8>>,
    pub private_key: Seq<u8>,
    pub alpn_protocols: Seq<Seq<u8>>,
}

impl View for TlsMaterial {
    type V = TlsMaterialView;

    open spec fn view(&self) -> TlsMaterialView {
        TlsMaterialView {
            cert_chain: chain_view(self.cert_chain@),
            private_key: self.private_key@,
            alpn_protocols: chain_view(self.alpn_protocols@),
        }
    }
}

/// The protocols that are offered during negotiation: `h2` first, then
/// `http/1.1`.
pub open spec fn alpn_view() -> Seq<Seq<u8>> {
    seq![ascii("h2"@), ascii("http/1.1"@)]
}

/// The material made of a chain and a key.
pub open spec fn material_view(cert_chain: Seq<Seq<u8>>, private_key: Seq<u8>) -> TlsMaterialView {
    TlsMaterialView { cert_chain, private_key, alpn_protocols: alpn_view() }
}

/// The private key among the sections of a key file: the file must hold
/// exactly one section, and that a PKCS#8 key.
pub open spec fn selected_key(items: Seq<PemItemView>) -> Option<Seq<u8>> {
    if items.len() == 1 && items[0].kind == PemKind::Pkcs8Key {
        Some(items[0].der)
    } else {
        None
    }
}

/// The material that a certificate file and a key file give.
pub open spec fn pem_material(cert_pem: Seq<u8>, key_pem: Seq<u8>) -> Result<
    TlsMaterialView,
    CertError,
> {
    match pem_certs(cert_pem) {
        None => Err(CertError::BadCertificateFile),
        Some(chain) => match pem_items(key_pem) {
            None => Err(CertError::BadKeyFile),
            Some(items) => match selected_key(items) {
                None => Err(CertError::KeyNotFound),
                Some(key) => Ok(material_view(chain, key)),
            },
        },
    }
}

/// The view of material that may be missing.
pub open spec fn outcome_view(outcome: Result<TlsMaterial, CertError>) -> Result<
    TlsMaterialView,
    CertError,
> {
    match outcome {
        Ok(material) => Ok(material@),
        Err(why) => Err(why),
    }
}

/// The protocols that are offered during negotiation.
pub fn alpn_protocols() -> (protocols: Vec<Vec<u8>>)
    ensures
        chain_view(protocols@) == alpn_view(),
{
    proof {
        reveal_strlit("h2");
        reveal_strlit("http/1.1");
    }
    let mut protocols: Vec<Vec<u8>> = Vec::new();
    protocols.push(slice_to_vec(ascii_bytes("h2")));
    protocols.push(slice_to_vec(ascii_bytes("http/1.1")));
    assert(chain_view(protocols@) =~= alpn_view());
    protocols
}

/// The private key among the sections of a key file.
pub fn select_key(items: Vec<PemItem>) -> (key: Result<Vec<u8>, CertError>)
    ensures
        match selected_key(items_view(items@)) {
            Some(der) => key matches Ok(found) && found@ == der,
            None => key == Err::<Vec<u8>, CertError>(CertError::KeyNotFound),
        },
{
    let mut items = items;
    if items.len() != 1 {
        return Err(CertError::KeyNotFound);
    }
    let ghost first = items@[0]@;
    assert(items_view(items@)[0] == first);
    let item = items.remove(0);
    match item.kind {
        PemKind::Pkcs8Key => Ok(item.der),
        _ => Err(CertError::KeyNotFound),
    }
}

/// The material made of a chain and a key.
pub fn assemble(cert_chain: Vec<Vec<u8>>, private_key: Vec<u8>) -> (material: TlsMaterial)
    ensures
        material@ == material_view(chain_view(cert_chain@), private_key@),
{
    TlsMaterial { cert_chain, private_key, alpn_protocols: alpn_protocols() }
}

/// The material that the content of a certificate file and of a key file
/// give.
pub fn material_from_pem(cert_pem: &[u8], key_pem: &[u8]) -> (outcome: Result<
    TlsMaterial,
    CertError,
>)
    ensures
        outcome_view(outcome) == pem_material(cert_pem@, key_pem@),
{
    let chain = match read_certs(cert_pem) {
        Ok(chain) => chain,
        Err(_) => {
            return Err(CertError::BadCertificateFile);
        },
    };
    let items = match read_items(key_pem) {
        Ok(items) => items,
        Err(_) => {
            return Err(CertError::BadKeyFile);
        },
    };
    match select_key(items) {
        Ok(key) => Ok(assemble(chain, key)),
        Err(why) => Err(why),
    }
}

/// The material made of a generated certificate and its key, where there are
/// any.
pub open spec fn generated_material(generated: Option<(Vec<u8>, Vec<u8>)>) -> Result<
    TlsMaterialView,
    CertError,
> {
    match generated {
        Some((cert, key)) => Ok(material_view(seq![cert@], key@)),
        None => Err(CertError::Generation),
    }
}

/// The material made of a generated certificate and its key: the chain holds
/// that one certificate. Without them, generation has failed.
pub fn material_of_generated(generated: Option<(Vec<u8>, Vec<u8>)>) -> (outcome: Result<
    TlsMaterial,
    CertError,
>)
    ensures
        outcome_view(outcome) == generated_material(generated),
{
    match generated {
        Some((cert, key)) => {
            let mut chain: Vec<Vec<u8>> = Vec::new();
            chain.push(cert);
            assert(chain_view(chain@) =~= seq![cert@]);
            Ok(assemble(chain, key))
        },
        None => Err(CertError::Generation),
    }
}

/// Material with a certificate that is generated now, for any host name.
/// Whatever was generated, the chain holds that one certificate.
pub fn self_signed_material() -> (outcome: Result<TlsMaterial, CertError>)
    ensures
        match outcome {
            Ok(material) => material@.cert_chain.len() == 1 && material@.alpn_protocols
                == alpn_view(),
            Err(why) => why == CertError::Generation,
        },
{
    match generate_self_signed() {
        Ok(pair) => material_of_generated(Some(pair)),
        Err(_) => material_of_generated(None),
    }
}

} // verus!
