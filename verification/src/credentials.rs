//! Certificate chain and private key, read out of the bytes of two files.
//!
//! A file that starts with the PEM marker is split into its PEM sections;
//! any other file is taken whole as one DER object.

use vstd::prelude::*;

verus! {

/// Why credentials could not be obtained.
#[derive(Clone, Copy, Debug, PartialEq, Eq, Structural)]
pub enum CredentialError {
    /// The file is missing or could not be read.
    Unreadable,
    /// The file starts like PEM but its sections cannot be decoded.
    MalformedPem,
    /// The key file is PEM and holds no RSA, PKCS#8 or EC private key.
    NoPrivateKey,
}

/// One decoded section of a PEM file.
#[derive(Debug, PartialEq, Eq)]
pub enum PemItem {
    /// `CERTIFICATE`
    X509Certificate(Vec<u8>),
    /// `RSA PRIVATE KEY`
    RsaKey(Vec<u8>),
    /// `PRIVATE KEY`
    Pkcs8Key(Vec<u8>),
    /// `EC PRIVATE KEY`
    EcKey(Vec<u8>),
    /// `X509 CRL`
    Crl(Vec<u8>),
    /// A kind of section this library has no use for.
    Other,
}

/// A PEM section as a mathematical value.
pub enum PemItemView {
    X509Certificate(Seq<u8>),
    RsaKey(Seq<u8>),
    Pkcs8Key(Seq<u8>),
    EcKey(Seq<u8>),
    Crl(Seq<u8>),
    Other,
}

impl View for PemItem {
    type V = PemItemView;

    open spec fn view(&self) -> PemItemView {
        match self {
            PemItem::X509Certificate(der) => PemItemView::X509Certificate(der@),
            PemItem::RsaKey(der) => PemItemView::RsaKey(der@),
            PemItem::Pkcs8Key(der) => PemItemView::Pkcs8Key(der@),
            PemItem::EcKey(der) => PemItemView::EcKey(der@),
            PemItem::Crl(der) => PemItemView::Crl(der@),
            PemItem::Other => PemItemView::Other,
        }
    }
}

/// The views of a run of PEM sections, in order.
pub open spec fn items_view(items: Seq<PemItem>) -> Seq<PemItemView> {
    Seq::new(items.len(), |i: int| items[i]@)
}

/// The DER contents of a run of byte vectors, in order.
pub open spec fn ders_view(ders: Seq<Vec<u8>>) -> Seq<Seq<u8>> {
    Seq::new(ders.len(), |i: int| ders[i]@)
}

/// The ten bytes `-----BEGIN` that open a PEM file.
pub open spec fn pem_marker() -> Seq<u8> {
    seq![45u8, 45u8, 45u8, 45u8, 45u8, 66u8, 69u8, 71u8, 73u8, 78u8]
}

/// Whether `contents` begins with the PEM marker.
pub open spec fn is_pem(contents: Seq<u8>) -> bool {
    pem_marker().is_prefix_of(contents)
}

/// The key that a PEM section holds, if it is of one of the three private
/// key encodings.
pub open spec fn key_of(item: PemItemView) -> Option<Seq<u8>> {
    match item {
        PemItemView::RsaKey(der) => Some(der),
        PemItemView::Pkcs8Key(der) => Some(der),
        PemItemView::EcKey(der) => Some(der),
        _ => None,
    }
}

/// The first private key among `items`, in file order.
pub open spec fn first_key(items: Seq<PemItemView>) -> Option<Seq<u8>>
    decreases items.len(),
{
    if items.len() == 0 {
        None
    } else if key_of(items[0]) is Some {
        key_of(items[0])
    } else {
        first_key(items.skip(1))
    }
}

/// The certificate chain that a file gives, from what was read of it and
/// from what its PEM sections decode to.
pub open spec fn chain_of(file: Option<Seq<u8>>, decoded: Option<Seq<Seq<u8>>>) -> Result<
    Seq<Seq<u8>>,
    CredentialError,
> {
    match file {
        None => Err(CredentialError::Unreadable),
        Some(contents) => if !is_pem(contents) {
            Ok(seq![contents])
        } else {
            match decoded {
                Some(ders) => Ok(ders),
                None => Err(CredentialError::MalformedPem),
            }
        },
    }
}

/// The private key that a file gives, from what was read of it and from
/// what its PEM sections decode to.
pub open spec fn key_from(file: Option<Seq<u8>>, decoded: Option<Seq<PemItemView>>) -> Result<
    Seq<u8>,
    CredentialError,
> {
    match file {
        None => Err(CredentialError::Unreadable),
        Some(contents) => if !is_pem(contents) {
            Ok(contents)
        } else {
            match decoded {
                None => Err(CredentialError::MalformedPem),
                Some(items) => match first_key(items) {
                    Some(der) => Ok(der),
                    None => Err(CredentialError::NoPrivateKey),
                },
            }
        },
    }
}

/// The bytes of a file that was read, `None` where it was not.
pub open spec fn contents_of(file: Option<Vec<u8>>) -> Option<Seq<u8>> {
    match file {
        Some(contents) => Some(contents@),
        None => None,
    }
}

/// What a chain result holds, as a mathematical value.
pub open spec fn chain_result_view(result: Result<Vec<Vec<u8>>, CredentialError>) -> Result<
    Seq<Seq<u8>>,
    CredentialError,
> {
    match result {
        Ok(chain) => Ok(ders_view(chain@)),
        Err(e) => Err(e),
    }
}

/// What a key result holds, as a mathematical value.
pub open spec fn key_result_view(result: Result<Vec<u8>, CredentialError>) -> Result<
    Seq<u8>,
    CredentialError,
> {
    match result {
        Ok(key) => Ok(key@),
        Err(e) => Err(e),
    }
}

/// The certificates that the PEM sections of `contents` decode to, in file
/// order, or `None` where a section cannot be decoded.
pub uninterp spec fn pem_certificates(contents: Seq<u8>) -> Option<Seq<Seq<u8>>>;

/// The PEM sections of `contents`, in file order, or `None` where a section
/// cannot be decoded.
pub uninterp spec fn pem_sections(contents: Seq<u8>) -> Option<Seq<PemItemView>>;

/// The certificates the PEM sections of a file decode to, `None` where the
/// file was not read or a section cannot be decoded.
pub open spec fn certificates_in(file: Option<Vec<u8>>) -> Option<Seq<Seq<u8>>> {
    match file {
        Some(contents) => pem_certificates(contents@),
        None => None,
    }
}

/// The PEM sections of a file, `None` where the file was not read or a
/// section cannot be decoded.
pub open spec fn sections_in(file: Option<Vec<u8>>) -> Option<Seq<PemItemView>> {
    match file {
        Some(contents) => pem_sections(contents@),
        None => None,
    }
}

/// `std::io::Error`, the error of the PEM reader.
#[verifier::external_type_specification]
#[verifier::external_body]
pub struct ExIoError(std::io::Error);

/// `rustls_pemfile::certs` on an in-memory reader: every certificate section
/// of `contents`, decoded, in file order. The outcome depends on the bytes
/// alone, so it is the named value `pem_certificates`.
#[verifier::external_body]
fn decode_certificates(contents: &[u8]) -> (decoded: Result<Vec<Vec<u8>>, std::io::Error>)
    ensures
        match decoded {
            Ok(ders) => pem_certificates(contents@) == Some(ders_view(ders@)),
            Err(_) => pem_certificates(contents@) is None,
        },
{
    let mut reader: &[u8] = contents;
    rustls_pemfile::certs(&mut reader)
}

/// `rustls_pemfile::read_all` on an in-memory reader: every recognised
/// section of `contents`, decoded, in file order. The outcome depends on the
/// bytes alone, so it is the named value `pem_sections`.
#[verifier::external_body]
fn decode_sections(contents: &[u8]) -> (decoded: Result<Vec<PemItem>, std::io::Error>)
    ensures
        match decoded {
            Ok(items) => pem_sections(contents@) == Some(items_view(items@)),
            Err(_) => pem_sections(contents@) is None,
        },
{
    let mut reader: &[u8] = contents;
    let items = rustls_pemfile::read_all(&mut reader)?;
    Ok(items.into_iter().map(|item| match item {
        rustls_pemfile::Item::X509Certificate(der) => PemItem::X509Certificate(der),
        rustls_pemfile::Item::RSAKey(der) => PemItem::RsaKey(der),
        rustls_pemfile::Item::PKCS8Key(der) => PemItem::Pkcs8Key(der),
        rustls_pemfile::Item::ECKey(der) => PemItem::EcKey(der),
        rustls_pemfile::Item::Crl(der) => PemItem::Crl(der),
        _ => PemItem::Other,
    }).collect())
}

/// Tells whether `contents` begins with the PEM marker `-----BEGIN`.
pub fn starts_with_pem_marker(contents: &[u8]) -> (found: bool)
    ensures
        found == is_pem(contents@),
{
    let marker: [u8; 10] = [45, 45, 45, 45, 45, 66, 69, 71, 73, 78];
    assert(marker@ =~= pem_marker());
    if contents.len() < 10 {
        return false;
    }
    let mut i: usize = 0;
    while i < 10
        invariant
            i <= 10,
            contents.len() >= 10,
            marker@ == pem_marker(),
            forall|j: int| 0 <= j < i ==> contents@[j] == pem_marker()[j],
        decreases 10 - i,
    {
        if contents[i] != marker[i] {
            assert(contents@.subrange(0, 10)[i as int] != pem_marker()[i as int]);
            return false;
        }
        i += 1;
    }
    assert(contents@.subrange(0, 10) =~= pem_marker());
    true
}

/// The first RSA, PKCS#8 or EC private key among `items`, in file order.
pub fn first_private_key(items: Vec<PemItem>) -> (key: Option<Vec<u8>>)
    ensures
        match key {
            Some(der) => first_key(items_view(items@)) == Some(der@),
            None => first_key(items_view(items@)) is None,
        },
{
    let ghost all = items_view(items@);
    assert(all.skip(0) =~= all);
    for item in it: items
        invariant
            all == items_view(it.seq()),
            first_key(all) == first_key(all.skip(it.index() as int)),
    {
        let ghost rest = all.skip(it.index() as int);
        assert(rest[0] == item@);
        assert(rest.skip(1) =~= all.skip(it.index() + 1));
        match item {
            PemItem::RsaKey(der) => {
                return Some(der);
            },
            PemItem::Pkcs8Key(der) => {
                return Some(der);
            },
            PemItem::EcKey(der) => {
                return Some(der);
            },
            _ => {},
        }
    }
    None
}

/// The certificate chain of a PEM file, from what its sections decoded to.
pub fn chain_from_pem(decoded: Result<Vec<Vec<u8>>, std::io::Error>) -> (chain: Result<
    Vec<Vec<u8>>,
    CredentialError,
>)
    ensures
        match decoded {
            Ok(ders) => chain == Ok::<Vec<Vec<u8>>, CredentialError>(ders),
            Err(_) => chain == Err::<Vec<Vec<u8>>, CredentialError>(CredentialError::MalformedPem),
        },
{
    match decoded {
        Ok(ders) => Ok(ders),
        Err(_) => Err(CredentialError::MalformedPem),
    }
}

/// The private key of a PEM file, from what its sections decoded to.
pub fn key_from_pem(decoded: Result<Vec<PemItem>, std::io::Error>) -> (key: Result<
    Vec<u8>,
    CredentialError,
>)
    ensures
        match decoded {
            Err(_) => key == Err::<Vec<u8>, CredentialError>(CredentialError::MalformedPem),
            Ok(items) => match first_key(items_view(items@)) {
                Some(der) => key is Ok && key->Ok_0@ == der,
                None => key == Err::<Vec<u8>, CredentialError>(CredentialError::NoPrivateKey),
            },
        },
{
    match decoded {
        Err(_) => Err(CredentialError::MalformedPem),
        Ok(items) => match first_private_key(items) {
            Some(der) => Ok(der),
            None => Err(CredentialError::NoPrivateKey),
        },
    }
}

/// The certificate chain held by a certificate file. `file` is what was read
/// of it, `None` where it is missing or unreadable.
///
/// A PEM file gives every certificate section in file order; any other file
/// is one DER certificate.
pub fn load_certificate_chain(file: Option<Vec<u8>>) -> (chain: Result<
    Vec<Vec<u8>>,
    CredentialError,
>)
    ensures
        chain_result_view(chain) == chain_of(contents_of(file), certificates_in(file)),
{
    match file {
        None => Err(CredentialError::Unreadable),
        Some(contents) => {
            if starts_with_pem_marker(contents.as_slice()) {
                chain_from_pem(decode_certificates(contents.as_slice()))
            } else {
                let mut chain: Vec<Vec<u8>> = Vec::new();
                chain.push(contents);
                assert(ders_view(chain@) =~= seq![contents@]);
                Ok(chain)
            }
        },
    }
}

/// The private key held by a key file. `file` is what was read of it, `None`
/// where it is missing or unreadable.
///
/// A PEM file gives its first RSA, PKCS#8 or EC key section; any other file
/// is one DER key.
pub fn load_private_key(file: Option<Vec<u8>>) -> (key: Result<Vec<u8>, CredentialError>)
    ensures
        key_result_view(key) == key_from(contents_of(file), sections_in(file)),
{
    match file {
        None => Err(CredentialError::Unreadable),
        Some(contents) => {
            if starts_with_pem_marker(contents.as_slice()) {
                key_from_pem(decode_sections(contents.as_slice()))
            } else {
                Ok(contents)
            }
        },
    }
}

} // verus!
