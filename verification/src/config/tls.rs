//! TLS configurations, built from certificate material that the caller has
//! already read.

use rustls::ClientConfig;
use rustls::RootCertStore;
use rustls::ServerConfig;
use vstd::prelude::*;
use vstd::string::StringExecFns;

verus! {

#[verifier::external_type_specification]
#[verifier::external_body]
pub struct ExClientConfig(ClientConfig);

#[verifier::external_type_specification]
#[verifier::external_body]
pub struct ExServerConfig(ServerConfig);

#[verifier::external_type_specification]
#[verifier::external_body]
pub struct ExRootCertStore(RootCertStore);

#[verifier::external_type_specification]
#[verifier::external_body]
pub struct ExTlsLibraryError(rustls::Error);

#[verifier::external_type_specification]
#[verifier::external_body]
pub struct ExIoError(std::io::Error);

/// Whether `RootCertStore::add` accepts a DER-encoded certificate as a root.
pub uninterp spec fn root_accepted(der: Seq<u8>) -> bool;

/// How many roots a store holds: the length of its list of roots.
pub uninterp spec fn store_len(store: RootCertStore) -> nat;

/// How many roots a client configuration trusts: the length of the list of
/// roots of the store that its verifier was made with.
pub uninterp spec fn trusted_root_count(config: ClientConfig) -> nat;

/// The DER-encoded certificates that `rustls_pemfile::certs` finds in a PEM
/// text, in order; `None` where it reports an error.
pub uninterp spec fn pem_certificates(pem: Seq<u8>) -> Option<Seq<Seq<u8>>>;

/// The DER-encoded PKCS#8 private keys that
/// `rustls_pemfile::pkcs8_private_keys` finds in a PEM text, in order;
/// `None` where it reports an error.
pub uninterp spec fn pem_pkcs8_keys(pem: Seq<u8>) -> Option<Seq<Seq<u8>>>;

/// Builds TLS configurations.
#[derive(Debug, Clone, Copy, PartialEq, Eq, Structural)]
pub struct TlsConfig;

/// Why a TLS configuration could not be built.
#[derive(Debug)]
pub enum TlsError {
    /// The root certificate at this index was not accepted.
    BadRootCertificate { index: usize, source: rustls::Error },
    /// The certificates could not be read from their PEM text.
    CertificateParse(std::io::Error),
    /// The private keys could not be read from their PEM text.
    KeyParse(std::io::Error),
    /// The PEM text holds no PKCS#8 private key.
    NoPrivateKey,
    /// The certificate chain and the private key were not accepted.
    ServerConfig(rustls::Error),
    /// Building the client configuration failed.
    ClientConfig(rustls::Error),
}

/// The views of a list of byte strings.
pub open spec fn views_of(list: Seq<Vec<u8>>) -> Seq<Seq<u8>> {
    Seq::new(list.len(), |i: int| list[i]@)
}

/// Whether `i` is the first root of a list that is not accepted.
pub open spec fn is_first_bad_root(roots: Seq<Vec<u8>>, i: int) -> bool {
    &&& 0 <= i < roots.len()
    &&& !root_accepted(roots[i]@)
    &&& forall|j: int| 0 <= j < i ==> root_accepted(#[trigger] roots[j]@)
}

/// `RootCertStore::empty`: a store with no roots.
#[verifier::external_body]
fn empty_root_store() -> (store: RootCertStore)
    ensures
        store_len(store) == 0,
{
    RootCertStore::empty()
}

/// `RootCertStore::add`: parses a DER-encoded certificate as a root and
/// puts it at the end of the store's list, or reports why it cannot and
/// leaves the store as it was. Whether it is accepted depends on the
/// certificate alone.
#[verifier::external_body]
fn add_root(store: &mut RootCertStore, der: Vec<u8>) -> (r: Result<(), rustls::Error>)
    ensures
        r is Ok == root_accepted(der@),
        store_len(*final(store)) == store_len(*old(store)) + if r is Ok {
            1nat
        } else {
            0nat
        },
{
    store.add(rustls::pki_types::CertificateDer::from(der))
}

/// `ClientConfig::builder_with_provider` with the provider that
/// `rustls::crypto::ring::default_provider` gives, then
/// `with_safe_default_protocol_versions`, `with_root_certificates` and
/// `with_no_client_auth`: a client configuration whose verifier is made
/// with the store given, and which presents no certificate of its own.
/// The one step that can fail is the choice of protocol versions, and for
/// this provider it succeeds: the provider has cipher suites of the default
/// versions and key exchange groups for every one of its suites.
#[verifier::external_body]
fn client_config_with_roots(store: RootCertStore) -> (r: Result<ClientConfig, rustls::Error>)
    ensures
        r is Ok,
        r is Ok ==> trusted_root_count(r.unwrap()) == store_len(store),
{
    let provider = std::sync::Arc::new(rustls::crypto::ring::default_provider());
    match ClientConfig::builder_with_provider(provider).with_safe_default_protocol_versions() {
        Ok(builder) => Ok(builder.with_root_certificates(store).with_no_client_auth()),
        Err(e) => Err(e),
    }
}

/// `rustls_pemfile::certs` on a PEM text, collected: the DER encoding of
/// each certificate, or the first error. The result depends on the text
/// alone.
#[verifier::external_body]
fn read_pem_certificates(pem: &[u8]) -> (r: Result<Vec<Vec<u8>>, std::io::Error>)
    ensures
        r is Ok == pem_certificates(pem@) is Some,
        r matches Ok(certs) ==> Some(views_of(certs@)) == pem_certificates(pem@),
{
    let mut reader = pem;
    rustls_pemfile::certs(&mut reader).map(|cert| cert.map(|der| der.as_ref().to_vec())).collect()
}

/// `rustls_pemfile::pkcs8_private_keys` on a PEM text, collected: the DER
/// encoding of each PKCS#8 private key, or the first error. The result
/// depends on the text alone.
#[verifier::external_body]
fn read_pem_pkcs8_keys(pem: &[u8]) -> (r: Result<Vec<Vec<u8>>, std::io::Error>)
    ensures
        r is Ok == pem_pkcs8_keys(pem@) is Some,
        r matches Ok(keys) ==> Some(views_of(keys@)) == pem_pkcs8_keys(pem@),
{
    let mut reader = pem;
    rustls_pemfile::pkcs8_private_keys(&mut reader).map(
        |key| key.map(|der| der.secret_pkcs8_der().to_vec()),
    ).collect()
}

/// `ServerConfig::builder_with_provider` with the provider that
/// `rustls::crypto::ring::default_provider` gives, then
/// `with_safe_default_protocol_versions`, `with_no_client_auth` and
/// `with_single_cert`: a server configuration that presents one certificate
/// chain with its PKCS#8 private key and asks clients for no certificate,
/// or the reason why the chain and key are not accepted. Loading the key
/// may draw on the system's random source, so nothing is promised of the
/// outcome.
#[verifier::external_body]
fn server_config_with_single_cert(certs: Vec<Vec<u8>>, key: Vec<u8>) -> Result<
    ServerConfig,
    rustls::Error,
> {
    let provider = std::sync::Arc::new(rustls::crypto::ring::default_provider());
    match ServerConfig::builder_with_provider(provider).with_safe_default_protocol_versions() {
        Ok(builder) => builder.with_no_client_auth().with_single_cert(
            certs.into_iter().map(rustls::pki_types::CertificateDer::from).collect(),
            rustls::pki_types::PrivateKeyDer::Pkcs8(
                rustls::pki_types::PrivatePkcs8KeyDer::from(key),
            ),
        ),
        Err(e) => Err(e),
    }
}

impl TlsError {
    /// The error in words.
    pub fn describe(&self) -> (text: String)
        ensures
            text@ == self.spec_describe(),
    {
        match self {
            TlsError::BadRootCertificate { .. } => String::from_str(
                "Failed to add certificate to root store",
            ),
            TlsError::CertificateParse(_) => String::from_str("Failed to parse certificates"),
            TlsError::KeyParse(_) => String::from_str("Failed to parse private key"),
            TlsError::NoPrivateKey => String::from_str("No private keys found"),
            TlsError::ServerConfig(_) => String::from_str(
                "Failed to create server config with certificate and key",
            ),
            TlsError::ClientConfig(_) => String::from_str("Failed to create client config"),
        }
    }

    /// The text that `describe` returns.
    pub open spec fn spec_describe(self) -> Seq<char> {
        match self {
            TlsError::BadRootCertificate { .. } => "Failed to add certificate to root store"@,
            TlsError::CertificateParse(_) => "Failed to parse certificates"@,
            TlsError::KeyParse(_) => "Failed to parse private key"@,
            TlsError::NoPrivateKey => "No private keys found"@,
            TlsError::ServerConfig(_) => "Failed to create server config with certificate and key"@,
            TlsError::ClientConfig(_) => "Failed to create client config"@,
        }
    }
}

impl TlsConfig {
    /// What building a client configuration came to, as this library
    /// reports it.
    pub fn client_config_outcome(built: Result<ClientConfig, rustls::Error>) -> (r: Result<
        ClientConfig,
        TlsError,
    >)
        ensures
            match built {
                Ok(config) => r matches Ok(c) && c == config,
                Err(source) => r matches Err(TlsError::ClientConfig(s)) && s == source,
            },
    {
        match built {
            Ok(config) => Ok(config),
            Err(source) => Err(TlsError::ClientConfig(source)),
        }
    }

    /// A store that holds the given root certificates, each DER-encoded, and
    /// no others. The roots are added in order. The store is made exactly
    /// when every root is accepted; otherwise the first root that is not
    /// accepted is reported.
    pub fn root_store(roots: &Vec<Vec<u8>>) -> (r: Result<RootCertStore, TlsError>)
        ensures
            r is Ok == (forall|i: int| 0 <= i < roots@.len() ==> root_accepted(
                #[trigger] roots@[i]@,
            )),
            r matches Ok(store) ==> store_len(store) == roots@.len(),
            r matches Err(e) ==> e matches TlsError::BadRootCertificate { index, .. }
                && is_first_bad_root(roots@, index as int),
    {
        let mut store = empty_root_store();
        let mut i: usize = 0;
        while i < roots.len()
            invariant
                i <= roots@.len(),
                store_len(store) == i,
                forall|j: int| 0 <= j < i ==> root_accepted(#[trigger] roots@[j]@),
            decreases roots.len() - i,
        {
            match add_root(&mut store, roots[i].clone()) {
                Ok(_) => {},
                Err(source) => {
                    assert(is_first_bad_root(roots@, i as int));
                    return Err(TlsError::BadRootCertificate { index: i, source });
                },
            }
            i += 1;
        }
        Ok(store)
    }

    /// A client configuration that trusts the given root certificates, each
    /// DER-encoded, and presents no certificate of its own. It is built
    /// exactly when every root is accepted, and then trusts as many roots
    /// as were given; otherwise the first root that is not accepted is
    /// reported.
    pub fn client_config(roots: Vec<Vec<u8>>) -> (r: Result<ClientConfig, TlsError>)
        ensures
            r is Ok == (forall|i: int| 0 <= i < roots@.len() ==> root_accepted(
                #[trigger] roots@[i]@,
            )),
            r matches Ok(config) ==> trusted_root_count(config) == roots@.len(),
            r matches Err(e) ==> e matches TlsError::BadRootCertificate { index, .. }
                && is_first_bad_root(roots@, index as int),
    {
        match Self::root_store(&roots) {
            Ok(store) => Self::client_config_outcome(client_config_with_roots(store)),
            Err(e) => Err(e),
        }
    }

    /// The certificates of a PEM text, each DER-encoded.
    pub fn certificates_from_pem(pem: &[u8]) -> (r: Result<Vec<Vec<u8>>, TlsError>)
        ensures
            match pem_certificates(pem@) {
                Some(certs) => r matches Ok(list) && views_of(list@) == certs,
                None => r matches Err(e) && e is CertificateParse,
            },
    {
        match read_pem_certificates(pem) {
            Ok(certs) => Ok(certs),
            Err(e) => Err(TlsError::CertificateParse(e)),
        }
    }

    /// The first PKCS#8 private key of a PEM text, DER-encoded. A text that
    /// holds none is refused with `NoPrivateKey`.
    pub fn private_key_from_pem(pem: &[u8]) -> (r: Result<Vec<u8>, TlsError>)
        ensures
            match pem_pkcs8_keys(pem@) {
                Some(keys) => if keys.len() == 0 {
                    r matches Err(e) && e is NoPrivateKey
                } else {
                    r matches Ok(key) && key@ == keys[0]
                },
                None => r matches Err(e) && e is KeyParse,
            },
    {
        match read_pem_pkcs8_keys(pem) {
            Ok(mut keys) => {
                if keys.len() == 0 {
                    Err(TlsError::NoPrivateKey)
                } else {
                    assert(views_of(keys@)[0] == keys@[0]@);
                    Ok(keys.swap_remove(0))
                }
            },
            Err(e) => Err(TlsError::KeyParse(e)),
        }
    }

    /// What building a server configuration from a chain and a key came to,
    /// as this library reports it.
    pub fn server_config_outcome(built: Result<ServerConfig, rustls::Error>) -> (r: Result<
        ServerConfig,
        TlsError,
    >)
        ensures
            match built {
                Ok(config) => r matches Ok(c) && c == config,
                Err(source) => r matches Err(TlsError::ServerConfig(s)) && s == source,
            },
    {
        match built {
            Ok(config) => Ok(config),
            Err(source) => Err(TlsError::ServerConfig(source)),
        }
    }

    /// A server configuration that presents a certificate chain with its
    /// private key and asks clients for no certificate. The chain and the
    /// key are DER-encoded. Whether they are accepted, and whether the
    /// configuration can be set up at all, is for the TLS library to say:
    /// if not, the call fails with `ServerConfig`.
    pub fn server_config(certs: Vec<Vec<u8>>, key: Vec<u8>) -> (r: Result<ServerConfig, TlsError>)
        ensures
            r matches Err(e) ==> e is ServerConfig,
    {
        Self::server_config_outcome(server_config_with_single_cert(certs, key))
    }

    /// A server configuration from the contents of a certificate file and
    /// of a private key file, both PEM. The certificates are read first,
    /// then the keys; the first PKCS#8 key is the one used. The call fails
    /// with `CertificateParse` or `KeyParse` where a text cannot be read,
    /// with `NoPrivateKey` where the key file holds no PKCS#8 key, and with
    /// `ServerConfig` where the chain and key are not accepted.
    pub fn server_config_from_files(cert_pem: &[u8], key_pem: &[u8]) -> (r: Result<
        ServerConfig,
        TlsError,
    >)
        ensures
            match pem_certificates(cert_pem@) {
                None => r matches Err(e) && e is CertificateParse,
                Some(_) => match pem_pkcs8_keys(key_pem@) {
                    None => r matches Err(e) && e is KeyParse,
                    Some(keys) => if keys.len() == 0 {
                        r matches Err(e) && e is NoPrivateKey
                    } else {
                        r matches Err(e) ==> e is ServerConfig
                    },
                },
            },
    {
        let certs = match Self::certificates_from_pem(cert_pem) {
            Ok(certs) => certs,
            Err(e) => {
                return Err(e);
            },
        };
        let key = match Self::private_key_from_pem(key_pem) {
            Ok(key) => key,
            Err(e) => {
                return Err(e);
            },
        };
        Self::server_config(certs, key)
    }
}

} // verus!
