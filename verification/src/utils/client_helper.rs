//! What a client needs to know to reach its server.

use crate::addr::first_of;
use crate::addr::first_resolved;
use crate::addr::PeerAddr;
use crate::setup::SetupError;
use crate::trusted::anchor_of_der;
use crate::trusted::parse_anchor;
use crate::trusted::pem_certificates;
use crate::trusted::pem_certs;
use std::path::PathBuf;
use vstd::prelude::*;

verus! {

/// What a client keeps of a certificate authority that it trusts, each
/// field as DER bytes.
#[derive(Debug)]
pub struct Anchor {
    pub subject: Vec<u8>,
    pub spki: Vec<u8>,
    pub name_constraints: Option<Vec<u8>>,
}

/// An [`Anchor`] as mathematical values.
pub struct AnchorView {
    pub subject: Seq<u8>,
    pub spki: Seq<u8>,
    pub name_constraints: Option<Seq<u8>>,
}

impl View for Anchor {
    type V = AnchorView;

    open spec fn view(&self) -> AnchorView {
        AnchorView {
            subject: self.subject@,
            spki: self.spki@,
            name_constraints: match self.name_constraints {
                Some(c) => Some(c@),
                None => None,
            },
        }
    }
}

/// The result of reading an anchor, as a mathematical value.
pub open spec fn anchor_view(r: Option<Anchor>) -> Option<AnchorView> {
    match r {
        Some(a) => Some(a@),
        None => None,
    }
}

/// The anchors of a list, as mathematical values.
pub open spec fn anchors_view(anchors: Seq<Anchor>) -> Seq<AnchorView> {
    anchors.map_values(|a: Anchor| a@)
}

/// The certificate authorities that a client trusts.
#[derive(Debug)]
pub enum TrustRoots {
    /// The roots that are built into the program.
    BuiltIn,
    /// The authorities of the configured file, in the order of the file.
    Anchors(Vec<Anchor>),
}

/// Whether every certificate of a list can be read as a trust anchor.
pub open spec fn all_readable(certs: Seq<Seq<u8>>) -> bool {
    forall|i: int| 0 <= i < certs.len() ==> (#[trigger] anchor_of_der(certs[i])) is Some
}

/// The anchors that a list of readable certificates gives, in its order.
pub open spec fn anchors_of(certs: Seq<Seq<u8>>) -> Seq<AnchorView> {
    certs.map_values(|der: Seq<u8>| anchor_of_der(der)->0)
}

/// Adds an anchor that was read to the anchors read so far, or refuses
/// the certificate that could not be read.
pub fn keep_anchor(anchors: &mut Vec<Anchor>, read: Option<Anchor>) -> (r: Result<(), SetupError>)
    ensures
        match read {
            Some(a) => r is Ok && final(anchors)@ == old(anchors)@.push(a),
            None => r == Err::<(), SetupError>(SetupError::InvalidCertificate) && final(anchors)@
                == old(anchors)@,
        },
{
    match read {
        Some(a) => {
            anchors.push(a);
            Ok(())
        },
        None => Err(SetupError::InvalidCertificate),
    }
}

/// Where the server is and which certificate authorities to trust.
#[derive(Debug)]
pub struct ClientConfig {
    host_address: String,
    host_port: u16,
    cert_file: Option<PathBuf>,
}

/// The settings of a [`ClientConfig`] as mathematical values.
pub struct ClientConfigView {
    pub host_address: Seq<char>,
    pub host_port: u16,
    pub cert_file: Option<PathBuf>,
}

impl View for ClientConfig {
    type V = ClientConfigView;

    closed spec fn view(&self) -> ClientConfigView {
        ClientConfigView {
            host_address: self.host_address@,
            host_port: self.host_port,
            cert_file: self.cert_file,
        }
    }
}

impl ClientConfig {
    /// A configuration made of already resolved settings. Without a
    /// certificate file the client trusts the built-in roots.
    pub fn from_args(host_address: String, host_port: u16, cert_file: Option<PathBuf>) -> (c:
        ClientConfig)
        ensures
            c@ == (ClientConfigView { host_address: host_address@, host_port, cert_file }),
    {
        ClientConfig { host_address, host_port, cert_file }
    }

    /// The host name or address literal of the server.
    pub fn host_address(&self) -> (h: &String)
        ensures
            h@ == self@.host_address,
    {
        &self.host_address
    }

    /// The TCP port of the server.
    pub fn host_port(&self) -> (p: u16)
        ensures
            p == self@.host_port,
    {
        self.host_port
    }

    /// The address to connect to, given the addresses that the configured
    /// host and port resolved to: the first of them.
    pub fn get_address(&self, resolved: &[PeerAddr]) -> (r: Result<PeerAddr, SetupError>)
        ensures
            r == first_of(resolved@),
    {
        first_resolved(resolved)
    }

    /// The certificate authorities to trust, given the contents of the
    /// configured file of trusted certificates.
    ///
    /// Without a configured file the contents are not looked at and the
    /// built-in roots are trusted. With one, every certificate of the file
    /// has to be readable as a trust anchor.
    pub fn get_root_cert_store(&self, ca_pem: &[u8]) -> (r: Result<TrustRoots, SetupError>)
        ensures
            self@.cert_file is None ==> r matches Ok(TrustRoots::BuiltIn),
            self@.cert_file is Some ==> match pem_certificates(ca_pem@) {
                None => r matches Err(SetupError::TrustUnreadable(_)),
                Some(certs) => if all_readable(certs) {
                    r matches Ok(TrustRoots::Anchors(anchors)) && anchors_view(anchors@)
                        == anchors_of(certs)
                } else {
                    r matches Err(SetupError::InvalidCertificate)
                },
            },
    {
        if self.cert_file.is_none() {
            return Ok(TrustRoots::BuiltIn);
        }
        let certs = match pem_certs(ca_pem) {
            Ok(certs) => certs,
            Err(error) => {
                return Err(SetupError::TrustUnreadable(error));
            },
        };
        let ghost ders = pem_certificates(ca_pem@)->0;
        let mut anchors: Vec<Anchor> = Vec::new();
        let mut i: usize = 0;
        while i < certs.len()
            invariant
                i <= certs@.len(),
                self@.cert_file is Some,
                pem_certificates(ca_pem@) == Some(ders),
                ders.len() == certs@.len(),
                forall|k: int| 0 <= k < certs@.len() ==> #[trigger] ders[k] == certs@[k]@,
                anchors@.len() == i,
                forall|k: int|
                    0 <= k < i ==> anchor_of_der(ders[k]) == Some((#[trigger] anchors@[k])@),
            decreases certs@.len() - i,
        {
            let read = parse_anchor(certs[i].as_slice());
            match keep_anchor(&mut anchors, read) {
                Ok(()) => {},
                Err(e) => {
                    assert(anchor_of_der(ders[i as int]) is None);
                    return Err(e);
                },
            }
            i = i + 1;
        }
        assert forall|k: int| 0 <= k < ders.len() implies (#[trigger] anchor_of_der(
            ders[k],
        )) is Some by {
            assert(anchor_of_der(ders[k]) == Some(anchors@[k]@));
        }
        Ok(TrustRoots::Anchors(anchors))
    }

    /// The file of trusted certificates, if one was configured.
    pub fn cert_file(&self) -> (f: &Option<PathBuf>)
        ensures
            *f == self@.cert_file,
    {
        &self.cert_file
    }
}

} // verus!
