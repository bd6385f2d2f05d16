//! What a server needs to know to listen.

use crate::addr::first_of;
use crate::addr::first_resolved;
use crate::addr::PeerAddr;
use crate::setup::SetupError;
use crate::trusted::pem_certificates;
use crate::trusted::pem_certs;
use crate::trusted::pem_first_item;
use crate::trusted::pem_first_section;
use std::path::PathBuf;
use vstd::prelude::*;

verus! {

/// A recognised section of a PEM text, as far as the server cares.
#[derive(Debug)]
pub enum KeyItem {
    /// A PKCS#8 private key, with its DER bytes.
    Pkcs8(Vec<u8>),
    /// A section of another sort.
    Other,
}

/// What a PEM text starts with, sections of unknown sorts passed over.
pub enum PemHead {
    /// The text is malformed.
    Unreadable,
    /// The text holds no section of a known sort.
    Empty,
    /// The first section is a PKCS#8 private key with these DER bytes.
    Pkcs8Key(Seq<u8>),
    /// The first section is of another known sort.
    Other,
}

/// The result of reading the first section, as a mathematical value.
pub open spec fn head_of(r: Result<Option<KeyItem>, std::io::Error>) -> PemHead {
    match r {
        Err(_) => PemHead::Unreadable,
        Ok(None) => PemHead::Empty,
        Ok(Some(KeyItem::Pkcs8(der))) => PemHead::Pkcs8Key(der@),
        Ok(Some(KeyItem::Other)) => PemHead::Other,
    }
}

/// The DER bytes of each certificate of a list.
pub open spec fn der_of(certs: Seq<Vec<u8>>) -> Seq<Seq<u8>> {
    certs.map_values(|c: Vec<u8>| c@)
}

/// The result of reading certificates, as a mathematical value.
pub open spec fn certs_view(r: Result<Vec<Vec<u8>>, std::io::Error>) -> Option<Seq<Seq<u8>>> {
    match r {
        Ok(certs) => Some(der_of(certs@)),
        Err(_) => None,
    }
}

/// The certificate chain and the private key that a server presents, each
/// as DER bytes.
#[derive(Debug)]
pub struct Material {
    pub certs: Vec<Vec<u8>>,
    pub key: Vec<u8>,
}

/// The rule for the certificate text: a text that the parser refuses is an
/// invalid certificate, every other gives its chain.
pub open spec fn chain_of(certs: Result<Vec<Vec<u8>>, std::io::Error>) -> Result<
    Vec<Vec<u8>>,
    SetupError,
> {
    match certs {
        Err(_) => Err(SetupError::InvalidCertificate),
        Ok(chain) => Ok(chain),
    }
}

/// The rule for the key text: the key is the first section of the text, and
/// it has to be a PKCS#8 key.
pub open spec fn key_of(key: Result<Option<KeyItem>, std::io::Error>) -> Result<
    Vec<u8>,
    SetupError,
> {
    match key {
        Err(error) => Err(SetupError::KeyUnreadable(error)),
        Ok(None) => Err(SetupError::KeyMissing),
        Ok(Some(KeyItem::Pkcs8(der))) => Ok(der),
        Ok(Some(KeyItem::Other)) => Err(SetupError::KeyNotPkcs8),
    }
}

/// The rule by which the two PEM texts give the server its material. The
/// certificates are judged first, then the key.
pub open spec fn material_of(
    certs: Result<Vec<Vec<u8>>, std::io::Error>,
    key: Result<Option<KeyItem>, std::io::Error>,
) -> Result<Material, SetupError> {
    match chain_of(certs) {
        Err(e) => Err(e),
        Ok(chain) => match key_of(key) {
            Err(e) => Err(e),
            Ok(der) => Ok(Material { certs: chain, key: der }),
        },
    }
}

/// Judges what was read from the certificate text.
pub fn select_certs(certs: Result<Vec<Vec<u8>>, std::io::Error>) -> (r: Result<
    Vec<Vec<u8>>,
    SetupError,
>)
    ensures
        r == chain_of(certs),
{
    match certs {
        Err(_) => Err(SetupError::InvalidCertificate),
        Ok(chain) => Ok(chain),
    }
}

/// Judges what was read from the key text.
pub fn select_key(key: Result<Option<KeyItem>, std::io::Error>) -> (r: Result<Vec<u8>, SetupError>)
    ensures
        r == key_of(key),
{
    match key {
        Err(error) => Err(SetupError::KeyUnreadable(error)),
        Ok(None) => Err(SetupError::KeyMissing),
        Ok(Some(KeyItem::Pkcs8(der))) => Ok(der),
        Ok(Some(KeyItem::Other)) => Err(SetupError::KeyNotPkcs8),
    }
}

/// Judges what was read from the certificate text and from the key text,
/// the certificates first.
pub fn select_material(
    certs: Result<Vec<Vec<u8>>, std::io::Error>,
    key: Result<Option<KeyItem>, std::io::Error>,
) -> (r: Result<Material, SetupError>)
    ensures
        r == material_of(certs, key),
{
    match select_certs(certs) {
        Err(e) => Err(e),
        Ok(chain) => match select_key(key) {
            Err(e) => Err(e),
            Ok(der) => Ok(Material { certs: chain, key: der }),
        },
    }
}

/// Where to listen and which certificate and key to present.
#[derive(Debug)]
pub struct ServerConfig {
    host: String,
    port: u16,
    tls_enabled: bool,
    cert_file: PathBuf,
    key_file: PathBuf,
}

/// The settings of a [`ServerConfig`] as mathematical values.
pub struct ServerConfigView {
    pub host: Seq<char>,
    pub port: u16,
    pub tls_enabled: bool,
    pub cert_file: PathBuf,
    pub key_file: PathBuf,
}

impl View for ServerConfig {
    type V = ServerConfigView;

    closed spec fn view(&self) -> ServerConfigView {
        ServerConfigView {
            host: self.host@,
            port: self.port,
            tls_enabled: self.tls_enabled,
            cert_file: self.cert_file,
            key_file: self.key_file,
        }
    }
}

impl ServerConfig {
    /// A configuration made of already resolved settings.
    pub fn from_args(
        host: String,
        port: u16,
        tls_enabled: bool,
        cert_file: PathBuf,
        key_file: PathBuf,
    ) -> (c: ServerConfig)
        ensures
            c@ == (ServerConfigView { host: host@, port, tls_enabled, cert_file, key_file }),
    {
        ServerConfig { host, port, tls_enabled, cert_file, key_file }
    }

    /// Whether accepted connections are wrapped in TLS.
    pub fn is_tls_enabled(&self) -> (b: bool)
        ensures
            b == self@.tls_enabled,
    {
        self.tls_enabled
    }

    /// The host name or address literal to listen on.
    pub fn host(&self) -> (h: &String)
        ensures
            h@ == self@.host,
    {
        &self.host
    }

    /// The TCP port to listen on.
    pub fn port(&self) -> (p: u16)
        ensures
            p == self@.port,
    {
        self.port
    }

    /// The file that holds the certificate chain.
    pub fn cert_file(&self) -> (f: &PathBuf)
        ensures
            *f == self@.cert_file,
    {
        &self.cert_file
    }

    /// The address to listen on, given the addresses that the configured
    /// host and port resolved to: the first of them.
    pub fn get_address(&self, resolved: &[PeerAddr]) -> (r: Result<PeerAddr, SetupError>)
        ensures
            r == first_of(resolved@),
    {
        first_resolved(resolved)
    }

    /// Takes the certificate chain out of the contents of the configured
    /// certificate file. A text without certificates gives an empty chain.
    pub fn load_certs(cert_pem: &[u8]) -> (r: Result<Vec<Vec<u8>>, SetupError>)
        ensures
            match r {
                Ok(chain) => pem_certificates(cert_pem@) == Some(der_of(chain@)),
                Err(e) => e is InvalidCertificate && pem_certificates(cert_pem@) is None,
            },
    {
        select_certs(pem_certs(cert_pem))
    }

    /// Takes the private key out of the contents of the configured key
    /// file.
    pub fn load_key(key_pem: &[u8]) -> (r: Result<Vec<u8>, SetupError>)
        ensures
            match r {
                Ok(der) => pem_first_section(key_pem@) == PemHead::Pkcs8Key(der@),
                Err(SetupError::KeyUnreadable(_)) => pem_first_section(key_pem@) is Unreadable,
                Err(SetupError::KeyMissing) => pem_first_section(key_pem@) is Empty,
                Err(SetupError::KeyNotPkcs8) => pem_first_section(key_pem@) is Other,
                Err(_) => false,
            },
    {
        select_key(pem_first_item(key_pem))
    }

    /// Takes the certificate chain and the private key out of the contents
    /// of the two configured files.
    ///
    /// What the parser makes of each text decides: the result is what
    /// [`select_material`] gives for the two readings.
    pub fn load_cert_and_key(cert_pem: &[u8], key_pem: &[u8]) -> (r: Result<Material, SetupError>)
        ensures
            match r {
                Ok(m) => pem_certificates(cert_pem@) == Some(der_of(m.certs@))
                    && pem_first_section(key_pem@) == PemHead::Pkcs8Key(m.key@),
                Err(SetupError::InvalidCertificate) => pem_certificates(cert_pem@) is None,
                Err(SetupError::KeyUnreadable(_)) => pem_certificates(cert_pem@) is Some
                    && pem_first_section(key_pem@) is Unreadable,
                Err(SetupError::KeyMissing) => pem_certificates(cert_pem@) is Some
                    && pem_first_section(key_pem@) is Empty,
                Err(SetupError::KeyNotPkcs8) => pem_certificates(cert_pem@) is Some
                    && pem_first_section(key_pem@) is Other,
                Err(SetupError::AddressUnresolved) => false,
                Err(SetupError::TrustUnreadable(_)) => false,
            },
    {
        let certs = pem_certs(cert_pem);
        let key = pem_first_item(key_pem);
        select_material(certs, key)
    }

    /// The file that holds the private key.
    pub fn key_file(&self) -> (f: &PathBuf)
        ensures
            *f == self@.key_file,
    {
        &self.key_file
    }
}

} // verus!
