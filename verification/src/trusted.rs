//! Types and calls taken from outside this crate.
//!
//! Nothing in this module is proved. Each item states what is assumed of
//! code that the verifier does not read.

use crate::frame::be_bytes;
use crate::utils::client_helper::anchor_view;
use crate::utils::client_helper::Anchor;
use crate::utils::client_helper::AnchorView;
use crate::utils::server_helper::certs_view;
use crate::utils::server_helper::head_of;
use crate::utils::server_helper::KeyItem;
use crate::utils::server_helper::PemHead;
use bytes::BufMut;
use bytes::BytesMut;
use vstd::prelude::*;

verus! {

/// `std::io::ErrorKind`, with its variants visible to proofs.
#[verifier::external_type_specification]
pub struct ExIoErrorKind(std::io::ErrorKind);

/// `std::io::Error`, carried through without looking inside.
#[verifier::external_type_specification]
#[verifier::external_body]
pub struct ExIoError(std::io::Error);

/// `std::path::PathBuf`, carried through without looking inside.
#[verifier::external_type_specification]
#[verifier::external_body]
pub struct ExPathBuf(std::path::PathBuf);

/// `tokio::sync::mpsc::Sender`, the sending half of a bounded channel,
/// carried through without looking inside.
#[verifier::external_type_specification]
#[verifier::external_body]
#[verifier::reject_recursive_types(T)]
pub struct ExMpscSender<T>(tokio::sync::mpsc::Sender<T>);

/// `tokio::sync::oneshot::Sender`, the sending half of a channel for one
/// value, carried through without looking inside.
#[verifier::external_type_specification]
#[verifier::external_body]
#[verifier::reject_recursive_types(T)]
pub struct ExOneshotSender<T>(tokio::sync::oneshot::Sender<T>);

/// `bytes::BytesMut`, a growable buffer of bytes.
#[verifier::external_type_specification]
#[verifier::external_body]
pub struct ExBytesMut(bytes::BytesMut);

/// The bytes that a buffer holds, first to last.
pub uninterp spec fn bytes_of(b: BytesMut) -> Seq<u8>;

/// `BytesMut::with_capacity`: a buffer that holds no bytes yet. The capacity
/// is bounded because the allocation behind it cannot exceed `isize::MAX`.
#[verifier::external_body]
pub(crate) fn buf_with_capacity(capacity: usize) -> (b: BytesMut)
    requires
        capacity <= isize::MAX,
    ensures
        bytes_of(b) == Seq::<u8>::empty(),
{
    BytesMut::with_capacity(capacity)
}

/// `BufMut::put_u32` on a `BytesMut`: appends the four bytes of `n`, most
/// significant first, growing the buffer as needed.
#[verifier::external_body]
pub(crate) fn buf_put_u32(b: &mut BytesMut, n: u32)
    requires
        bytes_of(*old(b)).len() + 4 <= isize::MAX,
    ensures
        bytes_of(*final(b)) == bytes_of(*old(b)) + be_bytes(n),
{
    b.put_u32(n)
}

/// `BufMut::put` on a `BytesMut`, given another `BytesMut`: appends every
/// byte of `src`, growing the buffer as needed.
#[verifier::external_body]
pub(crate) fn buf_put(b: &mut BytesMut, src: BytesMut)
    requires
        bytes_of(*old(b)).len() + bytes_of(src).len() <= isize::MAX,
    ensures
        bytes_of(*final(b)) == bytes_of(*old(b)) + bytes_of(src),
{
    b.put(src)
}

/// `BytesMut::resize`: cuts the buffer down to `new_len` bytes, or fills it
/// up to `new_len` bytes with copies of `value`.
#[verifier::external_body]
pub(crate) fn buf_resize(b: &mut BytesMut, new_len: usize, value: u8)
    requires
        new_len <= isize::MAX,
    ensures
        bytes_of(*final(b)) == if new_len <= bytes_of(*old(b)).len() {
            bytes_of(*old(b)).take(new_len as int)
        } else {
            bytes_of(*old(b)) + Seq::new(
                (new_len - bytes_of(*old(b)).len()) as nat,
                |i: int| value,
            )
        },
{
    b.resize(new_len, value)
}

/// `BytesMut::len`: how many bytes the buffer holds.
#[verifier::external_body]
pub(crate) fn buf_len(b: &BytesMut) -> (n: usize)
    ensures
        n == bytes_of(*b).len(),
{
    b.len()
}

/// `BytesMut::from` on a slice: a buffer that holds a copy of the slice.
#[verifier::external_body]
pub(crate) fn buf_from_slice(s: &[u8]) -> (b: BytesMut)
    ensures
        bytes_of(b) == s@,
{
    BytesMut::from(s)
}

/// `BytesMut::as_ref`: the bytes of the buffer as a slice.
#[verifier::external_body]
pub(crate) fn buf_as_slice(b: &BytesMut) -> (s: &[u8])
    ensures
        s@ == bytes_of(*b),
{
    b.as_ref()
}

/// What `rustls_pemfile::certs` makes of a PEM text: the DER bytes of its
/// certificate sections in their order, or `None` where it reports an
/// error.
pub uninterp spec fn pem_certificates(pem: Seq<u8>) -> Option<Seq<Seq<u8>>>;

/// What `rustls_pemfile::read_one` makes of a PEM text: the first section
/// of a sort that it knows, or that there is none, or that the text is
/// malformed.
pub uninterp spec fn pem_first_section(pem: Seq<u8>) -> PemHead;

/// `rustls_pemfile::certs` on a text held in memory. What it returns
/// depends on the text alone.
#[verifier::external_body]
pub(crate) fn pem_certs(pem: &[u8]) -> (r: Result<Vec<Vec<u8>>, std::io::Error>)
    ensures
        certs_view(r) == pem_certificates(pem@),
{
    let mut reader: &[u8] = pem;
    rustls_pemfile::certs(&mut reader)
}

/// `rustls_pemfile::read_one` on a text held in memory: the first section
/// that it recognises, told apart as a PKCS#8 key or something else. What
/// it returns depends on the text alone.
#[verifier::external_body]
pub(crate) fn pem_first_item(pem: &[u8]) -> (r: Result<Option<KeyItem>, std::io::Error>)
    ensures
        head_of(r) == pem_first_section(pem@),
{
    let mut reader: &[u8] = pem;
    match rustls_pemfile::read_one(&mut reader) {
        Ok(Some(rustls_pemfile::Item::PKCS8Key(der))) => Ok(Some(KeyItem::Pkcs8(der))),
        Ok(Some(_)) => Ok(Some(KeyItem::Other)),
        Ok(None) => Ok(None),
        Err(error) => Err(error),
    }
}

/// What `webpki::TrustAnchor::try_from_cert_der` makes of a certificate:
/// its subject, its public key and its name constraints, or `None` where
/// it reports an error.
pub uninterp spec fn anchor_of_der(der: Seq<u8>) -> Option<AnchorView>;

/// `webpki::TrustAnchor::try_from_cert_der`, with the three fields of the
/// anchor copied out of the certificate. What it returns depends on the
/// certificate alone.
#[verifier::external_body]
pub(crate) fn parse_anchor(der: &[u8]) -> (r: Option<Anchor>)
    ensures
        anchor_view(r) == anchor_of_der(der@),
{
    match webpki::TrustAnchor::try_from_cert_der(der) {
        Ok(anchor) => Some(
            Anchor {
                subject: anchor.subject.to_vec(),
                spki: anchor.spki.to_vec(),
                name_constraints: anchor.name_constraints.map(<[u8]>::to_vec),
            },
        ),
        Err(_) => None,
    }
}

} // verus!
