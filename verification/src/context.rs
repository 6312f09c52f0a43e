//! Security contexts: the certificate chain, the private key and the
//! protocol table that a secure transport terminates connections with.
//!
//! The files are read by the caller. Their PEM text is decoded here, the key
//! is held against the first certificate of the chain, and each way in which
//! this can fail gives an error of its own.

use vstd::prelude::*;
use rustls::crypto::ring::default_provider;
use rustls::pki_types::pem::PemObject;
use rustls::pki_types::CertificateDer;
use rustls::pki_types::PrivateKeyDer;
use rustls::sign::CertifiedKey;
use crate::alpn::quic_protocols;
use crate::alpn::quic_table;
use crate::alpn::tls_protocols;
use crate::alpn::tls_table;
use crate::alpn::tokens;
use crate::alpn::ProtocolId;
use crate::bootstrap::Transport;
use crate::error::FileFault;
use crate::error::StartupError;

verus! {

/// A transport that needs a security context.
#[derive(Debug, Clone, Copy, PartialEq, Eq, Hash, Structural)]
pub enum SecureTransport {
    /// TLS over a stream.
    Tls,
    /// QUIC over datagrams.
    Quic,
}

/// The container format of a private key.
#[derive(Debug, Clone, Copy, PartialEq, Eq, Hash, Structural)]
pub enum KeyEncoding {
    /// An RSA key, PEM label `RSA PRIVATE KEY`.
    Pkcs1,
    /// An elliptic-curve key, PEM label `EC PRIVATE KEY`.
    Sec1,
    /// Any key in PKCS#8, PEM label `PRIVATE KEY`.
    Pkcs8,
}

/// A private key in DER.
#[derive(Debug, Clone, PartialEq, Eq)]
pub struct PrivateKey {
    pub encoding: KeyEncoding,
    pub der: Vec<u8>,
}

/// What a [`PrivateKey`] holds.
pub struct PrivateKeyView {
    pub encoding: KeyEncoding,
    pub der: Seq<u8>,
}

impl View for PrivateKey {
    type V = PrivateKeyView;

    open spec fn view(&self) -> PrivateKeyView {
        PrivateKeyView { encoding: self.encoding, der: self.der@ }
    }
}

/// What holding a private key against a certificate chain gave.
#[derive(Debug, Clone, Copy, PartialEq, Eq, Hash, Structural)]
pub enum KeyCheck {
    /// The key was loaded and is not known to differ from the certificate's.
    Consistent,
    /// The key is not the one that the first certificate names.
    Mismatch,
    /// The key could not be loaded as an RSA, ECDSA or Ed25519 key.
    UnsupportedKey,
    /// The first certificate could not be read.
    InvalidCertificate,
}

/// A file as the caller read it: its path, and its bytes or the reason why
/// there are none.
#[derive(Debug, PartialEq, Eq)]
pub struct FileRead {
    pub path: String,
    pub outcome: Result<Vec<u8>, String>,
}

/// All that terminating a secure connection needs. The contexts of two
/// transports share nothing, also where they come from the same files.
#[derive(Debug, Clone, PartialEq, Eq)]
pub struct SecureContext {
    pub transport: SecureTransport,
    /// The certificates in DER, the server's own first.
    pub certificate_chain: Vec<Vec<u8>>,
    pub private_key: PrivateKey,
    /// The protocols offered in the handshake, most preferred first.
    pub protocols: Vec<ProtocolId>,
}

/// The certificates that a PEM text holds, each in DER and in the order of
/// the text; nothing where a section of the text cannot be decoded.
pub uninterp spec fn pem_certificates(pem: Seq<u8>) -> Option<Seq<Seq<u8>>>;

/// The first private key that a PEM text holds, in one of the three
/// container formats; nothing where it holds none, or where the text before
/// it cannot be decoded.
pub uninterp spec fn pem_private_key(pem: Seq<u8>) -> Option<PrivateKeyView>;

/// The byte strings of a chain.
pub open spec fn chain_view(chain: Seq<Vec<u8>>) -> Seq<Seq<u8>> {
    chain.map_values(|der: Vec<u8>| der@)
}

/// The protocol table of a transport.
pub open spec fn table_of(transport: SecureTransport) -> Seq<Seq<u8>> {
    match transport {
        SecureTransport::Tls => tls_table(),
        SecureTransport::Quic => quic_table(),
    }
}

/// The failure of a chain that was decoded from the file at `path`: a text
/// that cannot be decoded and a text without a certificate are both a
/// malformed file.
pub open spec fn chain_failure(path: String, chain: Option<Seq<Seq<u8>>>) -> Option<StartupError> {
    match chain {
        Some(certificates) if certificates.len() > 0 => None,
        _ => Some(StartupError::CertificateLoad(FileFault::Malformed { path })),
    }
}

/// The failure of a key that was decoded from the file at `path`.
pub open spec fn key_failure(path: String, key: Option<PrivateKeyView>) -> Option<StartupError> {
    match key {
        Some(_) => None,
        None => Some(StartupError::KeyFormat { path }),
    }
}

/// The failure that a check of key against chain stands for.
pub open spec fn check_failure(certificate: String, key: String, check: KeyCheck) -> Option<
    StartupError,
> {
    match check {
        KeyCheck::Consistent => None,
        KeyCheck::Mismatch => Some(StartupError::CertificateKeyMismatch { certificate, key }),
        KeyCheck::UnsupportedKey => Some(StartupError::KeyFormat { path: key }),
        KeyCheck::InvalidCertificate => Some(
            StartupError::CertificateLoad(FileFault::Malformed { path: certificate }),
        ),
    }
}

/// The failure that is known before the key is checked: first a
/// certificate file that was not read, then a key file that was not read,
/// then a certificate file without a certificate, then a key file without
/// a key.
pub open spec fn early_failure(certificate: FileRead, key: FileRead) -> Option<StartupError> {
    match certificate.outcome {
        Err(cause) => Some(
            StartupError::CertificateLoad(FileFault::Unreadable { path: certificate.path, cause }),
        ),
        Ok(certificate_pem) => match key.outcome {
            Err(cause) => Some(
                StartupError::KeyLoad(FileFault::Unreadable { path: key.path, cause }),
            ),
            Ok(key_pem) => match chain_failure(
                certificate.path,
                pem_certificates(certificate_pem@),
            ) {
                Some(error) => Some(error),
                None => key_failure(key.path, pem_private_key(key_pem@)),
            },
        },
    }
}

/// `outcome` is what building the context of `transport` from the two
/// files gives where the check of the key ended in `check`.
pub open spec fn concluded(
    outcome: Result<SecureContext, StartupError>,
    transport: SecureTransport,
    certificate: FileRead,
    key: FileRead,
    check: KeyCheck,
) -> bool {
    match check_failure(certificate.path, key.path, check) {
        Some(error) => outcome == Err::<SecureContext, StartupError>(error),
        None => {
            &&& outcome matches Ok(context)
            &&& context.transport == transport
            &&& certificate.outcome matches Ok(certificate_pem)
            &&& pem_certificates(certificate_pem@) == Some(chain_view(context.certificate_chain@))
            &&& key.outcome matches Ok(key_pem)
            &&& pem_private_key(key_pem@) == Some(context.private_key@)
            &&& tokens(context.protocols@) == table_of(transport)
        },
    }
}

impl SecureTransport {
    /// The transport as a listener names it.
    pub fn transport(&self) -> (transport: Transport)
        ensures
            transport == match *self {
                SecureTransport::Tls => Transport::Tls,
                SecureTransport::Quic => Transport::Quic,
            },
    {
        match self {
            SecureTransport::Tls => Transport::Tls,
            SecureTransport::Quic => Transport::Quic,
        }
    }
}

impl SecureContext {
    /// A context has at least one certificate and the protocol table of its
    /// transport.
    pub open spec fn well_formed(&self) -> bool {
        &&& self.certificate_chain@.len() > 0
        &&& tokens(self.protocols@) == table_of(self.transport)
    }
}

/// Decodes every certificate of a PEM text with
/// `rustls::pki_types::CertificateDer::pem_slice_iter`. The contract claims
/// that the outcome depends on the bytes alone, and gives it a name: the
/// certificates in the order of the text, or nothing if the iterator
/// reported an error for a section.
#[verifier::external_body]
fn decode_certificates(pem: &[u8]) -> (chain: Option<Vec<Vec<u8>>>)
    ensures
        match chain {
            Some(certificates) => pem_certificates(pem@) == Some(chain_view(certificates@)),
            None => pem_certificates(pem@) is None,
        },
{
    CertificateDer::pem_slice_iter(pem)
        .map(|section| section.map(|der| der.to_vec()))
        .collect::<Result<Vec<Vec<u8>>, _>>()
        .ok()
}

/// Decodes the first private key of a PEM text with
/// `rustls::pki_types::PrivateKeyDer::from_pem_slice`. The contract claims
/// that the outcome depends on the bytes alone, and gives it a name: the
/// key with the container format that its PEM label tells, or nothing
/// where the call reported an error or gave a key in a fourth format.
#[verifier::external_body]
fn decode_private_key(pem: &[u8]) -> (key: Option<PrivateKey>)
    ensures
        match key {
            Some(found) => pem_private_key(pem@) == Some(found@),
            None => pem_private_key(pem@) is None,
        },
{
    match PrivateKeyDer::from_pem_slice(pem) {
        Ok(PrivateKeyDer::Pkcs1(k)) => Some(
            PrivateKey { encoding: KeyEncoding::Pkcs1, der: k.secret_pkcs1_der().to_vec() },
        ),
        Ok(PrivateKeyDer::Sec1(k)) => Some(
            PrivateKey { encoding: KeyEncoding::Sec1, der: k.secret_sec1_der().to_vec() },
        ),
        Ok(PrivateKeyDer::Pkcs8(k)) => Some(
            PrivateKey { encoding: KeyEncoding::Pkcs8, der: k.secret_pkcs8_der().to_vec() },
        ),
        _ => None,
    }
}

/// Holds a key against a chain with `rustls::sign::CertifiedKey::from_der`
/// and the *ring* provider. Loading a key draws on the system's random
/// source, so nothing is claimed of the outcome; the body only tells the
/// variants of `rustls::Error` apart.
#[verifier::external_body]
fn check_key_pair(chain: &Vec<Vec<u8>>, key: &PrivateKey) -> (check: KeyCheck) {
    let certificates = chain.iter().map(|der| CertificateDer::from(der.clone())).collect();
    let der = match key.encoding {
        KeyEncoding::Pkcs1 => PrivateKeyDer::Pkcs1(key.der.clone().into()),
        KeyEncoding::Sec1 => PrivateKeyDer::Sec1(key.der.clone().into()),
        KeyEncoding::Pkcs8 => PrivateKeyDer::Pkcs8(key.der.clone().into()),
    };
    match CertifiedKey::from_der(certificates, der, &default_provider()) {
        Ok(_) => KeyCheck::Consistent,
        Err(rustls::Error::InconsistentKeys(_)) => KeyCheck::Mismatch,
        Err(rustls::Error::General(_)) => KeyCheck::UnsupportedKey,
        Err(_) => KeyCheck::InvalidCertificate,
    }
}

/// The protocol table that a transport offers: `h2` then `http/1.1` on
/// TLS, `h3` alone on QUIC.
pub fn protocol_table(transport: SecureTransport) -> (table: Vec<ProtocolId>)
    ensures
        tokens(table@) == table_of(transport),
{
    match transport {
        SecureTransport::Tls => tls_protocols(),
        SecureTransport::Quic => quic_protocols(),
    }
}

/// Takes what decoding the certificate file gave: the chain, or the error
/// for a file that holds no certificate.
pub fn chain_from(path: &String, decoded: Option<Vec<Vec<u8>>>) -> (chain: Result<
    Vec<Vec<u8>>,
    StartupError,
>)
    ensures
        match chain_failure(
            *path,
            match decoded {
                Some(certificates) => Some(chain_view(certificates@)),
                None => None,
            },
        ) {
            Some(error) => chain == Err::<Vec<Vec<u8>>, StartupError>(error),
            None => decoded matches Some(certificates) && chain == Ok::<
                Vec<Vec<u8>>,
                StartupError,
            >(certificates),
        },
{
    match decoded {
        Some(certificates) => {
            if certificates.len() > 0 {
                Ok(certificates)
            } else {
                Err(StartupError::CertificateLoad(FileFault::Malformed { path: path.clone() }))
            }
        },
        None => Err(StartupError::CertificateLoad(FileFault::Malformed { path: path.clone() })),
    }
}

/// Takes what decoding the key file gave: the key, or the error for a file
/// that holds no key in a supported format.
pub fn key_from(path: &String, decoded: Option<PrivateKey>) -> (key: Result<
    PrivateKey,
    StartupError,
>)
    ensures
        match decoded {
            Some(found) => key == Ok::<PrivateKey, StartupError>(found),
            None => key == Err::<PrivateKey, StartupError>(
                StartupError::KeyFormat { path: *path },
            ),
        },
{
    match decoded {
        Some(found) => Ok(found),
        None => Err(StartupError::KeyFormat { path: path.clone() }),
    }
}

/// Ends the build once the key was held against the chain: the context
/// with the protocol table of its transport, or the error that the check
/// stands for.
pub fn conclude(
    transport: SecureTransport,
    certificate_path: &String,
    key_path: &String,
    chain: Vec<Vec<u8>>,
    key: PrivateKey,
    check: KeyCheck,
) -> (outcome: Result<SecureContext, StartupError>)
    ensures
        match check_failure(*certificate_path, *key_path, check) {
            Some(error) => outcome == Err::<SecureContext, StartupError>(error),
            None => {
                &&& outcome matches Ok(context)
                &&& context.transport == transport
                &&& context.certificate_chain == chain
                &&& context.private_key == key
                &&& tokens(context.protocols@) == table_of(transport)
            },
        },
{
    match check {
        KeyCheck::Consistent => Ok(
            SecureContext {
                transport,
                certificate_chain: chain,
                private_key: key,
                protocols: protocol_table(transport),
            },
        ),
        KeyCheck::Mismatch => Err(
            StartupError::CertificateKeyMismatch {
                certificate: certificate_path.clone(),
                key: key_path.clone(),
            },
        ),
        KeyCheck::UnsupportedKey => Err(StartupError::KeyFormat { path: key_path.clone() }),
        KeyCheck::InvalidCertificate => Err(
            StartupError::CertificateLoad(FileFault::Malformed { path: certificate_path.clone() }),
        ),
    }
}

/// Builds the security context of a transport from the certificate file
/// and the key file as they were read.
///
/// Every failure before the check of the key is decided by the files
/// alone. The check itself is the work of the TLS library: whatever it
/// answers, the outcome is the one that [`conclude`] gives for the answer.
pub fn build_context(transport: SecureTransport, certificate: FileRead, key: FileRead) -> (outcome:
    Result<SecureContext, StartupError>)
    ensures
        match early_failure(certificate, key) {
            Some(error) => outcome == Err::<SecureContext, StartupError>(error),
            None => exists|check: KeyCheck| concluded(outcome, transport, certificate, key, check),
        },
        outcome matches Ok(context) ==> context.well_formed(),
{
    let certificate_pem: Vec<u8> = match certificate.outcome {
        Ok(bytes) => bytes,
        Err(cause) => {
            return Err(
                StartupError::CertificateLoad(
                    FileFault::Unreadable { path: certificate.path, cause },
                ),
            );
        },
    };
    let key_pem: Vec<u8> = match key.outcome {
        Ok(bytes) => bytes,
        Err(cause) => {
            return Err(StartupError::KeyLoad(FileFault::Unreadable { path: key.path, cause }));
        },
    };
    let chain: Vec<Vec<u8>> = match chain_from(
        &certificate.path,
        decode_certificates(certificate_pem.as_slice()),
    ) {
        Ok(chain) => chain,
        Err(error) => {
            return Err(error);
        },
    };
    let found: PrivateKey = match key_from(&key.path, decode_private_key(key_pem.as_slice())) {
        Ok(found) => found,
        Err(error) => {
            return Err(error);
        },
    };
    let check: KeyCheck = check_key_pair(&chain, &found);
    let outcome = conclude(transport, &certificate.path, &key.path, chain, found, check);
    assert(concluded(outcome, transport, certificate, key, check));
    outcome
}

} // verus!
