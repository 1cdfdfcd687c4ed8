//! The certificate chain and the private key of the server, out of the
//! text of their PEM files.

use crate::error::{ProxyError, ProxyErrorView};
use crate::trusted::{certs_in, first_section, pem_certs, read_one};
use vstd::prelude::*;

verus! {

/// One section of a PEM file that was recognised, with its decoded
/// contents.
#[derive(Debug, PartialEq, Eq)]
pub enum PemItem {
    /// A certificate.
    X509Certificate(Vec<u8>),
    /// A private key in the PKCS#1 form.
    RSAKey(Vec<u8>),
    /// A private key in the PKCS#8 form.
    PKCS8Key(Vec<u8>),
}

/// The mathematical content of a [`PemItem`].
pub enum PemItemView {
    X509Certificate(Seq<u8>),
    RSAKey(Seq<u8>),
    PKCS8Key(Seq<u8>),
}

impl View for PemItem {
    type V = PemItemView;

    open spec fn view(&self) -> PemItemView {
        match *self {
            PemItem::X509Certificate(der) => PemItemView::X509Certificate(der@),
            PemItem::RSAKey(der) => PemItemView::RSAKey(der@),
            PemItem::PKCS8Key(der) => PemItemView::PKCS8Key(der@),
        }
    }
}

/// What stands at the front of the text of a PEM file.
pub enum PemSection {
    /// A recognised section, and the text behind it.
    Item(PemItemView, Seq<u8>),
    /// No further section.
    End,
    /// A section that cannot be read.
    Invalid,
}

/// What a search for a private key ends with.
pub enum KeySearch {
    /// The decoded contents of the key.
    Found(Seq<u8>),
    /// The text holds no private key.
    Missing,
    /// A section of the text cannot be read.
    Unreadable,
}

/// The first private key in the text of a PEM file, in the PKCS#1 or the
/// PKCS#8 form. Certificates before it are passed over; a section that
/// cannot be read ends the search.
pub open spec fn first_key(pem: Seq<u8>) -> KeySearch
    decreases pem.len(),
{
    match first_section(pem) {
        PemSection::Item(PemItemView::RSAKey(der), _) => KeySearch::Found(der),
        PemSection::Item(PemItemView::PKCS8Key(der), _) => KeySearch::Found(der),
        PemSection::Item(PemItemView::X509Certificate(_), rest) => if rest.len() < pem.len() {
            first_key(rest)
        } else {
            KeySearch::Missing
        },
        PemSection::End => KeySearch::Missing,
        PemSection::Invalid => KeySearch::Unreadable,
    }
}

/// The certificates in the text of a PEM file, each by its decoded
/// contents. A text that cannot be read is refused.
pub fn load_certs(pem: &[u8]) -> (r: Result<Vec<Vec<u8>>, ProxyError>)
    ensures
        match certs_in(pem@) {
            Some(certs) => r matches Ok(found) && found.deep_view() == certs,
            None => r matches Err(e) && e@ == ProxyErrorView::InvalidCert,
        },
{
    match pem_certs(pem) {
        Some(certs) => Ok(certs),
        None => Err(ProxyError::InvalidCert),
    }
}

/// The decoded contents of the first private key in the text of a PEM file.
/// A text without a key is refused, and so is one with a section that
/// cannot be read before any key.
pub fn load_private_key(pem: &[u8]) -> (r: Result<Vec<u8>, ProxyError>)
    ensures
        match first_key(pem@) {
            KeySearch::Found(der) => r matches Ok(key) && key@ == der,
            KeySearch::Missing => r matches Err(e) && e@ == ProxyErrorView::InvalidPrivateKey,
            KeySearch::Unreadable => r matches Err(e) && e@ == ProxyErrorView::Disconnect,
        },
{
    let mut rest = pem;
    loop
        invariant
            first_key(rest@) == first_key(pem@),
        decreases rest@.len(),
    {
        match read_one(rest) {
            Err(e) => {
                return Err(ProxyError::Disconnect(e));
            },
            Ok(None) => {
                return Err(ProxyError::InvalidPrivateKey);
            },
            Ok(Some((PemItem::RSAKey(key), _))) => {
                return Ok(key);
            },
            Ok(Some((PemItem::PKCS8Key(key), _))) => {
                return Ok(key);
            },
            Ok(Some((_, tail))) => {
                rest = tail;
            },
        }
    }
}

} // verus!
