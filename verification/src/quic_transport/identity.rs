//! This machine's certificate, and the pinning of the certificates of peers.
//!
//! The advertised public key of a machine is its certificate in base64. Peers
//! pin exactly that certificate, so it has to stay the same across restarts.

use vstd::prelude::*;
use vstd::string::StringExecFns;
use crate::quic_transport::connections::PeerEndpoint;
use crate::text;

verus! {

/// The version of the input protocol. Peers of another version are refused, so
/// that no event is sent that an older receiver cannot decode.
pub const PROTOCOL_VERSION: u16 = 2;

/// The name in every transport certificate.
pub const SERVER_NAME: &'static str = "mykvm.local";

/// The other name in a transport certificate.
pub const LOCAL_NAME: &'static str = "localhost";

/// The file that keeps the certificate.
pub const QUIC_CERT_FILE: &'static str = "quic-transport-cert.der";

/// The file that keeps the private key.
pub const QUIC_KEY_FILE: &'static str = "quic-transport-key.der";

/// The standard base64 text of `bytes`.
pub uninterp spec fn base64_text(bytes: Seq<u8>) -> Seq<char>;

/// What standard base64 decoding makes of `text`: the bytes, or what is said
/// against it.
pub uninterp spec fn base64_bytes(text: Seq<char>) -> Result<Seq<u8>, Seq<char>>;

/// Whether standard base64 decoding makes `bytes` of `text`.
pub open spec fn decodes_to(text: Seq<char>, bytes: Seq<u8>) -> bool {
    base64_bytes(text) matches Ok(decoded) && decoded == bytes
}

/// The public key in a certificate, as the DER of its description, or `None` if
/// the bytes are no certificate.
pub uninterp spec fn certificate_key(cert: Seq<u8>) -> Option<Seq<u8>>;

/// The kinds of private key that a transport can sign with.
#[derive(Clone, Copy, Debug, PartialEq, Eq, Structural)]
pub enum KeyKind {
    EcdsaP256,
    EcdsaP384,
    Ed25519,
    Rsa,
}

/// The public half of a private key of this kind, as the DER of its description,
/// or `None` if the bytes are no such key.
pub uninterp spec fn private_key_half(key: Seq<u8>, kind: KeyKind) -> Option<Seq<u8>>;

/// The public half of a private key of whatever kind, or `None` if the bytes are
/// no private key.
pub open spec fn key_half(key: Seq<u8>) -> Option<Seq<u8>> {
    if private_key_half(key, KeyKind::EcdsaP256) is Some {
        private_key_half(key, KeyKind::EcdsaP256)
    } else if private_key_half(key, KeyKind::EcdsaP384) is Some {
        private_key_half(key, KeyKind::EcdsaP384)
    } else if private_key_half(key, KeyKind::Ed25519) is Some {
        private_key_half(key, KeyKind::Ed25519)
    } else {
        private_key_half(key, KeyKind::Rsa)
    }
}

/// Whether the bytes are a certificate and a private key.
pub open spec fn readable(cert: Seq<u8>, key: Seq<u8>) -> bool {
    certificate_key(cert) is Some && key_half(key) is Some
}

/// Whether the bytes are a certificate and the private key that belongs to it.
pub open spec fn fit_together(cert: Seq<u8>, key: Seq<u8>) -> bool {
    readable(cert, key) && certificate_key(cert) == key_half(key)
}

/// Whether the base64 text of so many bytes fits in memory.
pub open spec fn encodable(len: nat) -> bool {
    (len + 2) / 3 * 4 <= isize::MAX
}

/// Calls `base64::Engine::encode` of the standard engine. Claimed: the text
/// depends on the bytes alone, has four characters for every three bytes begun,
/// and is decoded to the same bytes by the same engine.
#[verifier::external_body]
fn encode_base64(bytes: &[u8]) -> (encoded: String)
    requires
        encodable(bytes@.len()),
    ensures
        encoded@ == base64_text(bytes@),
        encoded@.len() == (bytes@.len() + 2) / 3 * 4,
        decodes_to(encoded@, bytes@),
{
    base64::Engine::encode(&base64::engine::general_purpose::STANDARD, bytes)
}

/// Calls `base64::Engine::decode` of the standard engine on the bytes of `text`,
/// and renders the error. Claimed: the bytes, or the text of the error, depend
/// on `text` alone.
#[verifier::external_body]
fn decode_base64(text: &str) -> (bytes: Result<Vec<u8>, String>)
    ensures
        match bytes {
            Ok(b) => base64_bytes(text@) matches Ok(named) && named == b@,
            Err(e) => base64_bytes(text@) matches Err(named) && named == e@,
        },
{
    base64::Engine::decode(&base64::engine::general_purpose::STANDARD, text.as_bytes())
        .map_err(|error| error.to_string())
}

/// Whether `result` is the bytes that `named` stands for, if there are any.
pub open spec fn same_option(named: Option<Seq<u8>>, result: Option<Vec<u8>>) -> bool {
    match result {
        Some(bytes) => named == Some(bytes@),
        None => named is None,
    }
}

/// Calls `rustls::server::ParsedCertificate::try_from` and takes the public key
/// out with `subject_public_key_info`. Claimed: what comes back depends on the
/// certificate alone.
#[verifier::external_body]
fn read_certificate(cert: &[u8]) -> (public_key: Option<Vec<u8>>)
    ensures
        same_option(certificate_key(cert@), public_key),
{
    let cert = quinn::rustls::pki_types::CertificateDer::from(cert);
    match quinn::rustls::server::ParsedCertificate::try_from(&cert) {
        Ok(parsed) => Some(parsed.subject_public_key_info().as_ref().to_vec()),
        Err(_) => None,
    }
}

/// What came of reading a private key.
pub enum KeyReading {
    /// Its public half.
    Public(Vec<u8>),
    /// The bytes are no such key.
    Rejected,
    /// The bytes are such a key, but it could not be set up for want of random
    /// bytes.
    Unread,
}

/// Whether `reading` can come of bytes whose public half is `half`.
pub open spec fn reads(half: Option<Seq<u8>>, reading: KeyReading) -> bool {
    match reading {
        KeyReading::Public(bytes) => half == Some(bytes@),
        KeyReading::Rejected => half is None,
        KeyReading::Unread => half is Some,
    }
}

/// Calls `rcgen::KeyPair::from_pkcs8_der_and_sign_algo` and takes the public half
/// out with `public_key_der`. Setting an ECDSA key up draws random bytes; this is
/// done last, for a key that has been found sound, and a failure of it has a text
/// of its own. Claimed: apart from that failure, what comes back depends on the
/// key and the kind alone, and that failure comes only of bytes that are a key
/// of the kind.
#[verifier::external_body]
fn read_private_key(key: &[u8], kind: KeyKind) -> (reading: KeyReading)
    ensures
        reads(private_key_half(key@, kind), reading),
{
    let algorithm = match kind {
        KeyKind::EcdsaP256 => &rcgen::PKCS_ECDSA_P256_SHA256,
        KeyKind::EcdsaP384 => &rcgen::PKCS_ECDSA_P384_SHA384,
        KeyKind::Ed25519 => &rcgen::PKCS_ED25519,
        KeyKind::Rsa => &rcgen::PKCS_RSA_SHA256,
    };
    let key = quinn::rustls::pki_types::PrivatePkcs8KeyDer::from(key);
    match rcgen::KeyPair::from_pkcs8_der_and_sign_algo(&key, algorithm) {
        Ok(pair) => KeyReading::Public(pair.public_key_der()),
        Err(rcgen::Error::RingKeyRejected(reason)) if reason == "RNG failed" => KeyReading::Unread,
        Err(_) => KeyReading::Rejected,
    }
}

/// Calls `rcgen::generate_simple_self_signed` and takes the certificate and the
/// private key out as DER. The key is random, so of a pair that comes back only
/// this is claimed: neither part is empty. It is called for the names of a
/// transport certificate and no others.
#[verifier::external_body]
fn generate_certificate(names: Vec<String>) -> (pair: Result<(Vec<u8>, Vec<u8>), String>)
    requires
        names@.len() == 2,
        names@[0]@ == SERVER_NAME@,
        names@[1]@ == LOCAL_NAME@,
    ensures
        match pair {
            Ok(p) => p.0@.len() > 0 && p.1@.len() > 0,
            Err(_) => true,
        },
{
    let generated =
        rcgen::generate_simple_self_signed(names).map_err(|error| error.to_string())?;
    Ok((generated.cert.der().to_vec(), generated.key_pair.serialize_der()))
}

/// This machine's transport identity.
#[derive(Clone, Debug)]
pub struct TransportIdentity {
    pub cert_der: Vec<u8>,
    pub key_der: Vec<u8>,
    pub public_key: String,
}

impl TransportIdentity {
    /// The public key is the certificate in base64.
    pub open spec fn keyed(&self) -> bool {
        &&& self.public_key@ == base64_text(self.cert_der@)
        &&& self.public_key@.len() == (self.cert_der@.len() + 2) / 3 * 4
        &&& decodes_to(self.public_key@, self.cert_der@)
    }

    /// There is a certificate and a key, and the public key is the certificate
    /// in base64.
    pub open spec fn wf(&self) -> bool {
        &&& self.cert_der@.len() > 0
        &&& self.key_der@.len() > 0
        &&& encodable(self.cert_der@.len())
        &&& self.keyed()
    }

    /// The key is that of the certificate.
    pub open spec fn fits(&self) -> bool {
        fit_together(self.cert_der@, self.key_der@)
    }

    /// The identity of a certificate and its key.
    fn of(cert_der: Vec<u8>, key_der: Vec<u8>) -> (identity: Self)
        requires
            encodable(cert_der@.len()),
        ensures
            identity.keyed(),
            identity.cert_der@ == cert_der@,
            identity.key_der@ == key_der@,
    {
        let public_key = encode_base64(cert_der.as_slice());
        TransportIdentity { cert_der, key_der, public_key }
    }
}

/// An identity, and whether it is new and has to be written to disk.
#[derive(Clone, Debug)]
pub struct LoadedIdentity {
    pub identity: TransportIdentity,
    pub fresh: bool,
}

/// The bytes of a file that could be read.
pub open spec fn file_bytes(file: Option<Vec<u8>>) -> Option<Seq<u8>> {
    match file {
        Some(bytes) => Some(bytes@),
        None => None,
    }
}

/// Whether both files are there, and neither is empty.
pub open spec fn both_stored(cert: Option<Seq<u8>>, key: Option<Seq<u8>>) -> bool {
    &&& cert matches Some(c) && c.len() > 0
    &&& key matches Some(k) && k.len() > 0
}

/// Whether what is on disk makes an identity: both files are there, neither is
/// empty or corrupt, and the key is that of the certificate.
pub open spec fn usable(cert: Option<Seq<u8>>, key: Option<Seq<u8>>) -> bool {
    &&& both_stored(cert, key)
    &&& fit_together(cert->0, key->0)
}

/// Whether `loaded` is an identity that comes of the files `cert` and `key`. A
/// stored one that is usable is always kept, and what is corrupt never is; a new
/// one is a certificate with its own key. A stored key that is sound but not that
/// of the certificate is given up too, unless it could not be read out.
pub open spec fn loaded_from(
    cert: Option<Seq<u8>>,
    key: Option<Seq<u8>>,
    loaded: LoadedIdentity,
) -> bool {
    &&& loaded.identity.wf()
    &&& if loaded.fresh {
        !usable(cert, key) && loaded.identity.fits()
    } else {
        &&& both_stored(cert, key)
        &&& readable(cert->0, key->0)
        &&& Some(loaded.identity.cert_der@) == cert
        &&& Some(loaded.identity.key_der@) == key
    }
}

/// What is said when no certificate could be made.
pub open spec fn generation_failure(reason: Seq<char>) -> Seq<char> {
    "failed to generate QUIC certificate: "@ + reason
}

/// What is known of a certificate and a private key.
#[derive(Clone, Copy, Debug, PartialEq, Eq, Structural)]
pub enum PairVerdict {
    /// The key is that of the certificate.
    Fits,
    /// One of them cannot be read, or the key is not that of the certificate.
    Corrupt,
    /// Both are sound, but the key could not be read out to be compared.
    Unread,
}

/// Whether `verdict` can be given on a certificate and a private key.
pub open spec fn judges(cert: Seq<u8>, key: Seq<u8>, verdict: PairVerdict) -> bool {
    match verdict {
        PairVerdict::Fits => fit_together(cert, key),
        PairVerdict::Corrupt => !fit_together(cert, key),
        PairVerdict::Unread => readable(cert, key),
    }
}

fn read_key_half(key: &[u8]) -> (reading: KeyReading)
    ensures
        reads(key_half(key@), reading),
{
    match read_private_key(key, KeyKind::EcdsaP256) {
        KeyReading::Rejected => {},
        reading => return reading,
    }
    match read_private_key(key, KeyKind::EcdsaP384) {
        KeyReading::Rejected => {},
        reading => return reading,
    }
    match read_private_key(key, KeyKind::Ed25519) {
        KeyReading::Rejected => {},
        reading => return reading,
    }
    read_private_key(key, KeyKind::Rsa)
}

/// What there is to know of a certificate whose public key is `public` and of a
/// private key that was read as `reading`.
pub open spec fn verdict_on(public: Option<Vec<u8>>, reading: KeyReading) -> PairVerdict {
    match (public, reading) {
        (None, _) => PairVerdict::Corrupt,
        (Some(_), KeyReading::Rejected) => PairVerdict::Corrupt,
        (Some(_), KeyReading::Unread) => PairVerdict::Unread,
        (Some(public), KeyReading::Public(half)) => if public@ == half@ {
            PairVerdict::Fits
        } else {
            PairVerdict::Corrupt
        },
    }
}

/// What there is to know of a certificate and a private key, given what came of
/// reading them.
pub fn pair_verdict(certificate: &Option<Vec<u8>>, reading: &KeyReading) -> (verdict: PairVerdict)
    ensures
        verdict == verdict_on(*certificate, *reading),
{
    match (certificate, reading) {
        (None, _) => PairVerdict::Corrupt,
        (Some(_), KeyReading::Rejected) => PairVerdict::Corrupt,
        (Some(_), KeyReading::Unread) => PairVerdict::Unread,
        (Some(public), KeyReading::Public(half)) => {
            if same_bytes(public.as_slice(), half.as_slice()) {
                PairVerdict::Fits
            } else {
                PairVerdict::Corrupt
            }
        },
    }
}

fn check_pair(cert: &[u8], key: &[u8]) -> (verdict: PairVerdict)
    ensures
        judges(cert@, key@, verdict),
{
    let certificate = read_certificate(cert);
    let reading = read_key_half(key);
    pair_verdict(&certificate, &reading)
}

/// Whether `stored` is what is kept of the files `cert` and `key`; `verdict` is
/// what is known of what they hold.
pub open spec fn kept_from(
    cert: Option<Seq<u8>>,
    key: Option<Seq<u8>>,
    verdict: PairVerdict,
    stored: Option<TransportIdentity>,
) -> bool {
    match stored {
        Some(identity) => verdict != PairVerdict::Corrupt && both_stored(cert, key)
            && identity.keyed() && Some(identity.cert_der@) == cert && Some(identity.key_der@)
            == key,
        None => verdict == PairVerdict::Corrupt || !both_stored(cert, key),
    }
}

/// The identity in the files that keep it, if there is one; `verdict` is what is
/// known of what they hold. It is kept unless it is known to be corrupt.
pub fn stored_identity(
    cert_file: Option<Vec<u8>>,
    key_file: Option<Vec<u8>>,
    verdict: PairVerdict,
) -> (stored: Option<TransportIdentity>)
    requires
        both_stored(file_bytes(cert_file), file_bytes(key_file)) ==> encodable(
            cert_file->0@.len(),
        ),
    ensures
        kept_from(file_bytes(cert_file), file_bytes(key_file), verdict, stored),
{
    if verdict != PairVerdict::Corrupt {
        if let Some(cert_der) = cert_file {
            if let Some(key_der) = key_file {
                if cert_der.len() > 0 && key_der.len() > 0 {
                    return Some(TransportIdentity::of(cert_der, key_der));
                }
            }
        }
    }
    None
}

/// Whether `created` is what comes of a generated certificate and key; `verdict`
/// is what is known of the pair.
pub open spec fn created_from(
    generated: Result<(Vec<u8>, Vec<u8>), String>,
    verdict: PairVerdict,
    created: Result<LoadedIdentity, String>,
) -> bool {
    match (generated, created) {
        (Ok(p), Ok(l)) => verdict == PairVerdict::Fits && encodable(p.0@.len()) && l.fresh
            && l.identity.keyed() && l.identity.cert_der@ == p.0@ && l.identity.key_der@ == p.1@,
        (Ok(p), Err(e)) => match verdict {
            PairVerdict::Fits => !encodable(p.0@.len()) && e@ == generation_failure(
                "certificate is too large"@,
            ),
            PairVerdict::Corrupt => e@ == generation_failure("key does not fit the certificate"@),
            PairVerdict::Unread => e@ == generation_failure("key could not be read back"@),
        },
        (Err(reason), Err(e)) => e@ == generation_failure(reason@),
        (Err(_), Ok(_)) => false,
    }
}

/// The identity of a newly generated certificate and key; `verdict` is what is
/// known of the pair. One that is not known to fit together is turned down, since
/// no transport could serve with it, and so is a certificate that could not be
/// advertised, because its base64 text would not fit in memory.
pub fn created_identity(generated: Result<(Vec<u8>, Vec<u8>), String>, verdict: PairVerdict) -> (
    created: Result<LoadedIdentity, String>)
    ensures
        created_from(generated, verdict, created),
{
    match generated {
        Ok((cert_der, key_der)) => {
            let reason = match verdict {
                PairVerdict::Fits => {
                    if fits_base64(cert_der.len()) {
                        let identity = TransportIdentity::of(cert_der, key_der);
                        return Ok(LoadedIdentity { identity, fresh: true });
                    }
                    "certificate is too large"
                },
                PairVerdict::Corrupt => "key does not fit the certificate",
                PairVerdict::Unread => "key could not be read back",
            };
            Err("failed to generate QUIC certificate: ".to_owned().concat(reason))
        },
        Err(reason) => Err(
            "failed to generate QUIC certificate: ".to_owned().concat(reason.as_str()),
        ),
    }
}

/// Whether the base64 text of `len` bytes fits in memory.
pub fn fits_base64(len: usize) -> (fits: bool)
    ensures
        fits == encodable(len as nat),
{
    let quads: usize = len / 3 + if len % 3 > 0 {
        1
    } else {
        0
    };
    let limit: usize = isize::MAX as usize;
    assert(quads == (len + 2) / 3);
    quads <= limit / 4
}

fn check_files(cert_file: &Option<Vec<u8>>, key_file: &Option<Vec<u8>>) -> (verdict: PairVerdict)
    ensures
        both_stored(file_bytes(*cert_file), file_bytes(*key_file)) ==> judges(
            cert_file->0@,
            key_file->0@,
            verdict,
        ),
{
    if let Some(cert_der) = cert_file {
        if let Some(key_der) = key_file {
            return check_pair(cert_der.as_slice(), key_der.as_slice());
        }
    }
    PairVerdict::Corrupt
}

/// This machine's identity, from the files that keep it (`None` for one that
/// could not be read): the stored one, so that the advertised key does not
/// change between runs, or a newly generated one if a file is missing, empty or
/// corrupt. A new certificate comes with its own new key.
pub fn load_or_create_identity(cert_file: Option<Vec<u8>>, key_file: Option<Vec<u8>>) -> (loaded:
    Result<LoadedIdentity, String>)
    requires
        both_stored(file_bytes(cert_file), file_bytes(key_file)) ==> encodable(
            cert_file->0@.len(),
        ),
    ensures
        usable(file_bytes(cert_file), file_bytes(key_file)) ==> loaded is Ok,
        match loaded {
            Ok(l) => loaded_from(file_bytes(cert_file), file_bytes(key_file), l),
            Err(e) => exists|reason: Seq<char>| e@ == #[trigger] generation_failure(reason),
        },
{
    let verdict: PairVerdict = check_files(&cert_file, &key_file);
    if let Some(identity) = stored_identity(cert_file, key_file, verdict) {
        return Ok(LoadedIdentity { identity, fresh: false });
    }
    let mut names: Vec<String> = Vec::new();
    names.push(SERVER_NAME.to_owned());
    names.push(LOCAL_NAME.to_owned());
    let generated = generate_certificate(names);
    let verdict: PairVerdict = match &generated {
        Ok(pair) => check_pair(pair.0.as_slice(), pair.1.as_slice()),
        Err(_) => PairVerdict::Corrupt,
    };
    created_identity(generated, verdict)
}

/// An identity that was written to disk is the one that the next run loads: the
/// certificate, the key and the advertised public key stay the same. So it is of
/// every new identity, and of every stored one whose key is that of its
/// certificate.
pub proof fn identity_survives_a_reload(
    cert: Option<Seq<u8>>,
    key: Option<Seq<u8>>,
    first: LoadedIdentity,
    second: LoadedIdentity,
)
    requires
        loaded_from(cert, key, first),
        first.fresh || usable(cert, key),
        loaded_from(
            Some(first.identity.cert_der@),
            Some(first.identity.key_der@),
            second,
        ),
    ensures
        !second.fresh,
        second.identity.cert_der@ == first.identity.cert_der@,
        second.identity.key_der@ == first.identity.key_der@,
        second.identity.public_key@ == first.identity.public_key@,
        second.identity.public_key@.len() > 0,
{
}

/// Whether a peer that has to show the certificate `pinned` may show `shown`.
pub open spec fn accepts(pinned: Seq<u8>, shown: Seq<u8>) -> bool {
    shown == pinned
}

/// A certificate that a peer has to show, byte for byte. That the peer also
/// holds its key is for the handshake signature to prove.
#[derive(Clone, Debug)]
pub struct PinnedCertVerifier {
    pub pinned: Vec<u8>,
}

impl PinnedCertVerifier {
    pub fn new(pinned: Vec<u8>) -> (verifier: Self)
        ensures
            verifier.pinned@ == pinned@,
    {
        PinnedCertVerifier { pinned }
    }

    /// Accepts the pinned certificate and no other.
    pub fn verify_server_cert(&self, end_entity: &[u8]) -> (verdict: Result<(), String>)
        ensures
            match verdict {
                Ok(_) => accepts(self.pinned@, end_entity@),
                Err(e) => !accepts(self.pinned@, end_entity@) && e@
                    == "peer certificate does not match the pinned transport certificate"@,
            },
    {
        if same_bytes(end_entity, self.pinned.as_slice()) {
            Ok(())
        } else {
            Err("peer certificate does not match the pinned transport certificate".to_owned())
        }
    }
}

/// Whether `a` and `b` hold the same bytes.
fn same_bytes(a: &[u8], b: &[u8]) -> (same: bool)
    ensures
        same == (a@ == b@),
{
    if a.len() != b.len() {
        return false;
    }
    for i in 0..a.len()
        invariant
            a@.len() == b@.len(),
            forall|j: int| 0 <= j < i ==> a@[j] == b@[j],
    {
        if a[i] != b[i] {
            return false;
        }
    }
    assert(a@ =~= b@);
    true
}

/// Whether `verifier` is that for a decoded public key.
pub open spec fn pins(
    decoded: Result<Vec<u8>, String>,
    verifier: Result<PinnedCertVerifier, String>,
) -> bool {
    match (decoded, verifier) {
        (Ok(cert), Ok(v)) => v.pinned@ == cert@,
        (Err(reason), Err(e)) => e@ == "invalid peer transport public key: "@ + reason@,
        _ => false,
    }
}

/// The verifier for a decoded public key, or what is said of one that could not
/// be decoded.
pub fn pin_certificate(decoded: Result<Vec<u8>, String>) -> (verifier: Result<
    PinnedCertVerifier,
    String,
>)
    ensures
        pins(decoded, verifier),
{
    match decoded {
        Ok(cert) => Ok(PinnedCertVerifier::new(cert)),
        Err(reason) => Err(
            "invalid peer transport public key: ".to_owned().concat(reason.as_str()),
        ),
    }
}

/// Whom a connection to a peer of this version and public key trusts: the bytes
/// of the pinned certificate, or what is said against dialling the peer.
pub open spec fn trusted_certificate(protocol_version: u16, public_key: Seq<char>) -> Result<
    Seq<u8>,
    Seq<char>,
> {
    if protocol_version != PROTOCOL_VERSION {
        Err("unsupported peer transport protocol version "@ + text::decimal(protocol_version as nat))
    } else {
        match base64_bytes(public_key) {
            Ok(cert) => Ok(cert),
            Err(reason) => Err("invalid peer transport public key: "@ + reason),
        }
    }
}

/// How `peer` is told from an impostor: by the certificate that it advertised.
/// A peer of another protocol version is refused.
pub fn client_config(peer: &PeerEndpoint) -> (verifier: Result<PinnedCertVerifier, String>)
    ensures
        match verifier {
            Ok(v) => trusted_certificate(peer.protocol_version, peer.public_key@) matches Ok(cert)
                && v.pinned@ == cert,
            Err(e) => trusted_certificate(peer.protocol_version, peer.public_key@) matches Err(text)
                && e@ == text,
        },
{
    if peer.protocol_version != PROTOCOL_VERSION {
        let version = text::decimal_text(peer.protocol_version as u64);
        return Err(
            "unsupported peer transport protocol version ".to_owned().concat(version.as_str()),
        );
    }
    pin_certificate(decode_base64(peer.public_key.as_str()))
}

/// How making the configuration of a connection went wrong.
pub enum ConfigFailure {
    /// The cryptography could not be set up.
    Crypto(String),
    /// The cryptography does not do for the transport.
    Config(String),
}

/// What is said of a configuration that could not be made.
pub open spec fn config_failure_text(failure: ConfigFailure) -> Seq<char> {
    match failure {
        ConfigFailure::Crypto(e) => "failed to build QUIC client crypto: "@ + e@,
        ConfigFailure::Config(e) => "failed to build QUIC client config: "@ + e@,
    }
}

/// The outcome of making the configuration of a connection: the configuration,
/// or what is said of the failure.
pub fn client_config_outcome<C>(built: Result<C, ConfigFailure>) -> (outcome: Result<C, String>)
    ensures
        match (built, outcome) {
            (Ok(c), Ok(kept)) => kept == c,
            (Err(failure), Err(e)) => e@ == config_failure_text(failure),
            _ => false,
        },
{
    match built {
        Ok(config) => Ok(config),
        Err(ConfigFailure::Crypto(error)) => Err(
            "failed to build QUIC client crypto: ".to_owned().concat(error.as_str()),
        ),
        Err(ConfigFailure::Config(error)) => Err(
            "failed to build QUIC client config: ".to_owned().concat(error.as_str()),
        ),
    }
}

/// A peer that advertises the public key of an identity, and speaks this
/// protocol version, is recognised by exactly the certificate of that identity.
pub proof fn advertised_key_pins_the_certificate(identity: TransportIdentity)
    requires
        identity.keyed(),
    ensures
        trusted_certificate(PROTOCOL_VERSION, identity.public_key@) matches Ok(cert) && cert
            == identity.cert_der@,
{
}

/// A peer of another protocol version is refused, whatever key it advertises.
pub proof fn other_versions_are_refused(protocol_version: u16, public_key: Seq<char>)
    requires
        protocol_version != PROTOCOL_VERSION,
    ensures
        trusted_certificate(protocol_version, public_key) is Err,
{
}

/// Settings of every connection, in both directions.
#[derive(Clone, Copy, Debug, PartialEq, Eq, Structural)]
pub struct TransportTuning {
    pub max_concurrent_bidi_streams: u32,
    /// Seconds between signs of life on an idle connection.
    pub keep_alive_secs: u64,
    /// Seconds of silence after which a connection is given up.
    pub max_idle_secs: u64,
}

/// The settings of every connection: signs of life come well within the idle
/// timeout, so a healthy link never drops; and the timeout is short, so that a
/// peer that vanished is noticed within seconds.
pub fn tuned_transport_config() -> (tuning: TransportTuning)
    ensures
        tuning.max_concurrent_bidi_streams == 64,
        tuning.keep_alive_secs == 3,
        tuning.max_idle_secs == 10,
        2 * tuning.keep_alive_secs < tuning.max_idle_secs,
{
    TransportTuning { max_concurrent_bidi_streams: 64, keep_alive_secs: 3, max_idle_secs: 10 }
}

/// A peer is trusted by the bytes that its key decodes to, if it speaks version
/// two; of any other version, and of a key that cannot be decoded, it is said why
/// not, the version first.
pub proof fn peers_are_trusted_by_their_key(
    protocol_version: u16,
    public_key: Seq<char>,
    cert: Seq<u8>,
    reason: Seq<char>,
)
    ensures
        protocol_version == 2 && base64_bytes(public_key) == Ok::<Seq<u8>, Seq<char>>(cert)
            ==> trusted_certificate(protocol_version, public_key) == Ok::<Seq<u8>, Seq<char>>(cert),
        protocol_version == 2 && base64_bytes(public_key) == Err::<Seq<u8>, Seq<char>>(reason)
            ==> trusted_certificate(protocol_version, public_key) == Err::<Seq<u8>, Seq<char>>(
            "invalid peer transport public key: "@ + reason,
        ),
        protocol_version != 2 ==> trusted_certificate(protocol_version, public_key) == Err::<
            Seq<u8>,
            Seq<char>,
        >(
            "unsupported peer transport protocol version "@ + text::decimal(
                protocol_version as nat,
            ),
        ),
{
}

/// What could not be made is named, with the reason.
pub proof fn failures_to_make_are_named(error: String, reason: Seq<char>)
    ensures
        config_failure_text(ConfigFailure::Crypto(error)) == "failed to build QUIC client crypto: "@
            + error@,
        config_failure_text(ConfigFailure::Config(error)) == "failed to build QUIC client config: "@
            + error@,
        generation_failure(reason) == "failed to generate QUIC certificate: "@ + reason,
{
}

/// A certificate and a key fit together exactly if both can be read and have the
/// same public key. A key of any of the kinds can be read, and as a key of one of
/// them.
pub proof fn pairs_fit_by_their_public_key(cert: Seq<u8>, key: Seq<u8>, kind: KeyKind)
    ensures
        private_key_half(key, kind) is Some ==> key_half(key) is Some,
        key_half(key) is Some ==> exists|k: KeyKind|
            #[trigger] private_key_half(key, k) == key_half(key),
        fit_together(cert, key) <==> (certificate_key(cert) matches Some(public) && key_half(key)
            == Some(public)),
{
    assert(private_key_half(key, KeyKind::EcdsaP384) == key_half(key) || private_key_half(
        key,
        KeyKind::EcdsaP256,
    ) == key_half(key) || private_key_half(key, KeyKind::Ed25519) == key_half(key)
        || private_key_half(key, KeyKind::Rsa) == key_half(key));
}

/// Files that hold a certificate and its key are loaded as they are. Where a file
/// is missing, empty or cannot be read as what it should be, the identity is new,
/// and its key is that of its certificate. Either way the advertised key is the
/// certificate in base64.
pub proof fn files_decide_the_identity(
    cert: Option<Seq<u8>>,
    key: Option<Seq<u8>>,
    loaded: LoadedIdentity,
)
    requires
        loaded_from(cert, key, loaded),
    ensures
        cert is Some && key is Some && cert->0.len() > 0 && key->0.len() > 0 && fit_together(
            cert->0,
            key->0,
        ) ==> !loaded.fresh,
        cert is None || key is None ==> loaded.fresh,
        (cert matches Some(c) && (c.len() == 0 || certificate_key(c) is None)) ==> loaded.fresh,
        (key matches Some(k) && (k.len() == 0 || key_half(k) is None)) ==> loaded.fresh,
        loaded.fresh ==> certificate_key(loaded.identity.cert_der@) is Some && key_half(
            loaded.identity.key_der@,
        ) == certificate_key(loaded.identity.cert_der@),
        !loaded.fresh ==> Some(loaded.identity.cert_der@) == cert && Some(
            loaded.identity.key_der@,
        ) == key,
        loaded.identity.public_key@ == base64_text(loaded.identity.cert_der@),
        loaded.identity.cert_der@.len() > 0 && loaded.identity.key_der@.len() > 0,
{
}

/// A verdict of a fit, and one of corruption, is the truth; where there is none,
/// both can be read.
pub proof fn verdicts_are_true(cert: Seq<u8>, key: Seq<u8>, verdict: PairVerdict)
    requires
        judges(cert, key, verdict),
    ensures
        verdict == PairVerdict::Fits ==> certificate_key(cert) is Some && key_half(key)
            == certificate_key(cert),
        verdict == PairVerdict::Corrupt ==> certificate_key(cert) is None || key_half(key)
            != certificate_key(cert),
        certificate_key(cert) is None || key_half(key) is None ==> verdict == PairVerdict::Corrupt,
        certificate_key(cert) is Some && key_half(key) == certificate_key(cert) ==> verdict
            != PairVerdict::Corrupt,
{
}

/// A pinned certificate is accepted, and of two certificates that are accepted
/// neither differs from the other. What is pinned is what was decoded, so what
/// was not decoded accepts nothing.
pub proof fn one_certificate_is_accepted(
    pinned: Seq<u8>,
    a: Seq<u8>,
    b: Seq<u8>,
    cert: Vec<u8>,
    reason: String,
    verifier: Result<PinnedCertVerifier, String>,
)
    ensures
        accepts(pinned, pinned),
        accepts(pinned, a) && accepts(pinned, b) ==> a == b,
        accepts(pinned, a) ==> accepts(a, pinned),
        pins(Ok(cert), verifier) ==> (verifier matches Ok(v) && accepts(v.pinned@, cert@)),
        pins(Err(reason), verifier) ==> (verifier matches Err(e) && e@
            == "invalid peer transport public key: "@ + reason@),
{
}

/// A pair whose public keys were read and are the same fits; one that was read
/// and found different, or not read for what it is, is corrupt; and a sound key
/// that could not be read out leaves the question open. Where the readings are
/// true, so is the verdict.
pub proof fn verdicts_follow_the_readings(
    cert: Seq<u8>,
    key: Seq<u8>,
    public: Option<Vec<u8>>,
    reading: KeyReading,
)
    ensures
        verdict_on(public, reading) == PairVerdict::Fits <==> (public is Some && reading is Public
            && public->0@ == reading->Public_0@),
        verdict_on(public, reading) == PairVerdict::Unread <==> public is Some && reading is Unread,
        same_option(certificate_key(cert), public) && reads(key_half(key), reading) ==> judges(
            cert,
            key,
            verdict_on(public, reading),
        ),
{
}

/// Files that are both there and not empty are kept as they are unless they are
/// known to be corrupt, and nothing else is.
pub proof fn sound_files_are_kept(
    cert: Option<Seq<u8>>,
    key: Option<Seq<u8>>,
    verdict: PairVerdict,
    stored: Option<TransportIdentity>,
)
    requires
        kept_from(cert, key, verdict, stored),
    ensures
        stored is Some <==> cert is Some && key is Some && cert->0.len() > 0 && key->0.len() > 0
            && (verdict == PairVerdict::Fits || verdict == PairVerdict::Unread),
        stored is Some ==> stored->0.cert_der@ == cert->0 && stored->0.key_der@ == key->0
            && stored->0.public_key@ == base64_text(cert->0),
{
}

/// A generated pair becomes an identity exactly if it fits together and its
/// certificate can be advertised; it is then new, and made of that pair. If not,
/// it is said that no certificate could be generated, and why.
pub proof fn only_fitting_pairs_become_identities(
    cert: Vec<u8>,
    key: Vec<u8>,
    reason: String,
    verdict: PairVerdict,
    created: Result<LoadedIdentity, String>,
)
    ensures
        created_from(Ok((cert, key)), verdict, created) ==> {
            &&& created is Ok <==> verdict == PairVerdict::Fits && (cert@.len() + 2) / 3 * 4
                <= isize::MAX
            &&& created is Ok ==> created->Ok_0.fresh && created->Ok_0.identity.cert_der@ == cert@
                && created->Ok_0.identity.key_der@ == key@
                && created->Ok_0.identity.public_key@ == base64_text(cert@)
            &&& verdict == PairVerdict::Corrupt ==> created->Err_0@
                == "failed to generate QUIC certificate: "@ + "key does not fit the certificate"@
            &&& verdict == PairVerdict::Unread ==> created->Err_0@
                == "failed to generate QUIC certificate: "@ + "key could not be read back"@
            &&& created is Err && verdict == PairVerdict::Fits ==> created->Err_0@
                == "failed to generate QUIC certificate: "@ + "certificate is too large"@
        },
        created_from(Err(reason), verdict, created) ==> created is Err && created->Err_0@
            == "failed to generate QUIC certificate: "@ + reason@,
{
}

} // verus!
