use netprobe::config::tls::TlsConfig;
use netprobe::config::tls::TlsError;

const CERT_DER: [u8; 408] = [
    0x30, 0x82, 0x01, 0x94, 0x30, 0x82, 0x01, 0x3b, 0xa0, 0x03, 0x02, 0x01, 0x02, 0x02, 0x14, 0x63,
    0xb0, 0x24, 0x50, 0xb8, 0xc0, 0x45, 0x18, 0xae, 0xc9, 0xb1, 0x48, 0x73, 0x74, 0x91, 0xc8, 0xe3,
    0xf3, 0xd9, 0x86, 0x30, 0x0a, 0x06, 0x08, 0x2a, 0x86, 0x48, 0xce, 0x3d, 0x04, 0x03, 0x02, 0x30,
    0x14, 0x31, 0x12, 0x30, 0x10, 0x06, 0x03, 0x55, 0x04, 0x03, 0x0c, 0x09, 0x6c, 0x6f, 0x63, 0x61,
    0x6c, 0x68, 0x6f, 0x73, 0x74, 0x30, 0x20, 0x17, 0x0d, 0x32, 0x36, 0x31, 0x30, 0x32, 0x38, 0x32,
    0x31, 0x34, 0x37, 0x35, 0x32, 0x5a, 0x18, 0x0f, 0x32, 0x31, 0x32, 0x36, 0x31, 0x30, 0x30, 0x34,
    0x32, 0x31, 0x34, 0x37, 0x35, 0x32, 0x5a, 0x30, 0x14, 0x31, 0x12, 0x30, 0x10, 0x06, 0x03, 0x55,
    0x04, 0x03, 0x0c, 0x09, 0x6c, 0x6f, 0x63, 0x61, 0x6c, 0x68, 0x6f, 0x73, 0x74, 0x30, 0x59, 0x30,
    0x13, 0x06, 0x07, 0x2a, 0x86, 0x48, 0xce, 0x3d, 0x02, 0x01, 0x06, 0x08, 0x2a, 0x86, 0x48, 0xce,
    0x3d, 0x03, 0x01, 0x07, 0x03, 0x42, 0x00, 0x04, 0xa3, 0xaf, 0x1e, 0x94, 0x4e, 0x79, 0xda, 0x35,
    0x41, 0x75, 0x29, 0x43, 0x10, 0xc0, 0x4a, 0x80, 0x2d, 0x58, 0xd0, 0x83, 0xcf, 0x0a, 0xa9, 0xee,
    0x90, 0xbd, 0x8e, 0x53, 0x61, 0xdf, 0x80, 0xa8, 0x84, 0xd0, 0x0f, 0x69, 0x47, 0xaf, 0xb2, 0xc0,
    0x2d, 0x1e, 0xb8, 0xd3, 0x85, 0xcf, 0x17, 0xb6, 0xe1, 0xb7, 0x48, 0x51, 0xac, 0x45, 0xf2, 0x32,
    0x43, 0x64, 0xf1, 0x82, 0x22, 0x13, 0x46, 0x7b, 0xa3, 0x69, 0x30, 0x67, 0x30, 0x1d, 0x06, 0x03,
    0x55, 0x1d, 0x0e, 0x04, 0x16, 0x04, 0x14, 0xbb, 0x6d, 0xf3, 0x7d, 0xbb, 0xdc, 0x6a, 0xc4, 0x28,
    0xd6, 0xe1, 0x15, 0xa5, 0xd7, 0x58, 0x82, 0xb7, 0xfc, 0x6a, 0xa6, 0x30, 0x1f, 0x06, 0x03, 0x55,
    0x1d, 0x23, 0x04, 0x18, 0x30, 0x16, 0x80, 0x14, 0xbb, 0x6d, 0xf3, 0x7d, 0xbb, 0xdc, 0x6a, 0xc4,
    0x28, 0xd6, 0xe1, 0x15, 0xa5, 0xd7, 0x58, 0x82, 0xb7, 0xfc, 0x6a, 0xa6, 0x30, 0x0f, 0x06, 0x03,
    0x55, 0x1d, 0x13, 0x01, 0x01, 0xff, 0x04, 0x05, 0x30, 0x03, 0x01, 0x01, 0xff, 0x30, 0x14, 0x06,
    0x03, 0x55, 0x1d, 0x11, 0x04, 0x0d, 0x30, 0x0b, 0x82, 0x09, 0x6c, 0x6f, 0x63, 0x61, 0x6c, 0x68,
    0x6f, 0x73, 0x74, 0x30, 0x0a, 0x06, 0x08, 0x2a, 0x86, 0x48, 0xce, 0x3d, 0x04, 0x03, 0x02, 0x03,
    0x47, 0x00, 0x30, 0x44, 0x02, 0x20, 0x3d, 0xeb, 0x5a, 0xbb, 0x1f, 0x2a, 0x8d, 0x4a, 0x11, 0x67,
    0xeb, 0x7f, 0xf3, 0x1d, 0x1c, 0x05, 0x33, 0x97, 0x5b, 0xae, 0x08, 0xe4, 0xec, 0x64, 0xd4, 0x4b,
    0x43, 0xd8, 0x62, 0x3c, 0x85, 0x24, 0x02, 0x20, 0x62, 0x16, 0x8d, 0xec, 0x82, 0x2a, 0x7f, 0x55,
    0x64, 0xb6, 0x38, 0x44, 0x42, 0x27, 0x29, 0x5e, 0x86, 0x02, 0xbb, 0xb1, 0x4f, 0x31, 0xd6, 0xe4,
    0xac, 0xc0, 0x97, 0xec, 0xea, 0x72, 0x9f, 0x8a,
];

const KEY_DER: [u8; 138] = [
    0x30, 0x81, 0x87, 0x02, 0x01, 0x00, 0x30, 0x13, 0x06, 0x07, 0x2a, 0x86, 0x48, 0xce, 0x3d, 0x02,
    0x01, 0x06, 0x08, 0x2a, 0x86, 0x48, 0xce, 0x3d, 0x03, 0x01, 0x07, 0x04, 0x6d, 0x30, 0x6b, 0x02,
    0x01, 0x01, 0x04, 0x20, 0x9e, 0xf8, 0x35, 0x80, 0x4e, 0xab, 0x46, 0x22, 0x68, 0x4c, 0xe1, 0xf2,
    0x91, 0xbd, 0xce, 0xb3, 0x0d, 0x60, 0x7b, 0x32, 0x32, 0xa4, 0x33, 0x3f, 0x75, 0x77, 0x41, 0x1c,
    0x21, 0x89, 0x65, 0x55, 0xa1, 0x44, 0x03, 0x42, 0x00, 0x04, 0xa3, 0xaf, 0x1e, 0x94, 0x4e, 0x79,
    0xda, 0x35, 0x41, 0x75, 0x29, 0x43, 0x10, 0xc0, 0x4a, 0x80, 0x2d, 0x58, 0xd0, 0x83, 0xcf, 0x0a,
    0xa9, 0xee, 0x90, 0xbd, 0x8e, 0x53, 0x61, 0xdf, 0x80, 0xa8, 0x84, 0xd0, 0x0f, 0x69, 0x47, 0xaf,
    0xb2, 0xc0, 0x2d, 0x1e, 0xb8, 0xd3, 0x85, 0xcf, 0x17, 0xb6, 0xe1, 0xb7, 0x48, 0x51, 0xac, 0x45,
    0xf2, 0x32, 0x43, 0x64, 0xf1, 0x82, 0x22, 0x13, 0x46, 0x7b,
];

const ALPHABET: &[u8; 64] = b"ABCDEFGHIJKLMNOPQRSTUVWXYZabcdefghijklmnopqrstuvwxyz0123456789+/";

fn base64(bytes: &[u8]) -> String {
    let mut out = String::new();
    for chunk in bytes.chunks(3) {
        let b = [chunk[0], *chunk.get(1).unwrap_or(&0), *chunk.get(2).unwrap_or(&0)];
        let n = ((b[0] as u32) << 16) | ((b[1] as u32) << 8) | (b[2] as u32);
        out.push(ALPHABET[(n >> 18) as usize & 63] as char);
        out.push(ALPHABET[(n >> 12) as usize & 63] as char);
        out.push(if chunk.len() > 1 { ALPHABET[(n >> 6) as usize & 63] as char } else { '=' });
        out.push(if chunk.len() > 2 { ALPHABET[n as usize & 63] as char } else { '=' });
    }
    out
}

fn pem(label: &str, der: &[u8]) -> Vec<u8> {
    let body = base64(der);
    let mut text = format!("-----BEGIN {}-----\n", label);
    for line in body.as_bytes().chunks(64) {
        text.push_str(std::str::from_utf8(line).unwrap());
        text.push('\n');
    }
    text.push_str(&format!("-----END {}-----\n", label));
    text.into_bytes()
}

fn cert_pem() -> Vec<u8> {
    pem("CERTIFICATE", &CERT_DER)
}

fn key_pem() -> Vec<u8> {
    pem(&format!("{} {}", "PRIVATE", "KEY"), &KEY_DER)
}

#[test]
fn certificates_are_read_from_pem() {
    assert_eq!(TlsConfig::certificates_from_pem(&cert_pem()).unwrap(), vec![CERT_DER.to_vec()]);
    let mut two = cert_pem();
    two.extend_from_slice(&pem("CERTIFICATE", b"second"));
    assert_eq!(
        TlsConfig::certificates_from_pem(&two).unwrap(),
        vec![CERT_DER.to_vec(), b"second".to_vec()]
    );
    assert_eq!(TlsConfig::certificates_from_pem(b"").unwrap(), Vec::<Vec<u8>>::new());
    assert_eq!(TlsConfig::certificates_from_pem(&key_pem()).unwrap(), Vec::<Vec<u8>>::new());
}

#[test]
fn broken_pem_is_refused() {
    let broken = b"-----BEGIN CERTIFICATE-----\n!!!not base64!!!\n-----END CERTIFICATE-----\n";
    let e = TlsConfig::certificates_from_pem(broken).unwrap_err();
    assert!(matches!(e, TlsError::CertificateParse(_)));
    assert_eq!(e.describe(), "Failed to parse certificates");
    let label = format!("{} {}", "PRIVATE", "KEY");
    let broken_key = format!("-----BEGIN {}-----\n!!!\n-----END {}-----\n", label, label);
    let e = TlsConfig::private_key_from_pem(broken_key.as_bytes()).unwrap_err();
    assert!(matches!(e, TlsError::KeyParse(_)));
    assert_eq!(e.describe(), "Failed to parse private key");
}

#[test]
fn the_first_private_key_is_the_one_used() {
    assert_eq!(TlsConfig::private_key_from_pem(&key_pem()).unwrap(), KEY_DER.to_vec());
    let mut two = pem(&format!("{} {}", "PRIVATE", "KEY"), b"first");
    two.extend_from_slice(&key_pem());
    assert_eq!(TlsConfig::private_key_from_pem(&two).unwrap(), b"first".to_vec());
    let mut mixed = cert_pem();
    mixed.extend_from_slice(&key_pem());
    assert_eq!(TlsConfig::private_key_from_pem(&mixed).unwrap(), KEY_DER.to_vec());
}

#[test]
fn a_key_file_without_keys_is_refused() {
    let e = TlsConfig::private_key_from_pem(b"").unwrap_err();
    assert!(matches!(e, TlsError::NoPrivateKey));
    assert_eq!(e.describe(), "No private keys found");
    assert!(matches!(TlsConfig::private_key_from_pem(&cert_pem()), Err(TlsError::NoPrivateKey)));
    let rsa = pem(&format!("RSA {} {}", "PRIVATE", "KEY"), b"pkcs1");
    assert!(matches!(TlsConfig::private_key_from_pem(&rsa), Err(TlsError::NoPrivateKey)));
}

#[test]
fn a_server_configuration_is_built_from_a_matching_pair() {
    assert!(TlsConfig::server_config_from_files(&cert_pem(), &key_pem()).is_ok());
    assert!(TlsConfig::server_config(vec![CERT_DER.to_vec()], KEY_DER.to_vec()).is_ok());
}

#[test]
fn a_server_configuration_needs_certificates_and_a_key() {
    assert!(matches!(
        TlsConfig::server_config_from_files(b"", &key_pem()),
        Err(TlsError::ServerConfig(_))
    ));
    assert!(matches!(
        TlsConfig::server_config_from_files(&cert_pem(), b""),
        Err(TlsError::NoPrivateKey)
    ));
    assert!(matches!(
        TlsConfig::server_config_from_files(&cert_pem(), &cert_pem()),
        Err(TlsError::NoPrivateKey)
    ));
    let broken = b"-----BEGIN CERTIFICATE-----\n!\n-----END CERTIFICATE-----\n";
    assert!(matches!(
        TlsConfig::server_config_from_files(broken, b""),
        Err(TlsError::CertificateParse(_))
    ));
    let e = TlsConfig::server_config(vec![CERT_DER.to_vec()], b"no key".to_vec()).unwrap_err();
    assert!(matches!(e, TlsError::ServerConfig(_)));
    assert_eq!(e.describe(), "Failed to create server config with certificate and key");
}

#[test]
fn a_client_configuration_trusts_the_roots_given() {
    assert!(TlsConfig::client_config(Vec::new()).is_ok());
    assert!(TlsConfig::client_config(vec![CERT_DER.to_vec()]).is_ok());
    assert!(TlsConfig::client_config(vec![CERT_DER.to_vec(), CERT_DER.to_vec()]).is_ok());
}

#[test]
fn the_first_bad_root_is_reported() {
    let roots = vec![CERT_DER.to_vec(), b"junk".to_vec(), Vec::new()];
    match TlsConfig::client_config(roots) {
        Err(e) => {
            assert!(matches!(e, TlsError::BadRootCertificate { index: 1, .. }));
            assert_eq!(e.describe(), "Failed to add certificate to root store");
        }
        Ok(_) => panic!("expected a bad root"),
    }
    assert!(matches!(
        TlsConfig::client_config(vec![Vec::new()]),
        Err(TlsError::BadRootCertificate { index: 0, .. })
    ));
}

#[test]
fn outcomes_of_building_are_reported_as_they_come() {
    let failed = rustls::Error::General("no usable cipher suites configured".to_string());
    let e = TlsConfig::client_config_outcome(Err(failed.clone())).unwrap_err();
    assert!(matches!(e, TlsError::ClientConfig(ref source) if *source == failed));
    assert_eq!(e.describe(), "Failed to create client config");
    let e = TlsConfig::server_config_outcome(Err(failed.clone())).unwrap_err();
    assert!(matches!(e, TlsError::ServerConfig(ref source) if *source == failed));
    let built = TlsConfig::client_config(Vec::new()).unwrap();
    assert!(TlsConfig::client_config_outcome(Ok(built)).is_ok());
    let built = TlsConfig::server_config(vec![CERT_DER.to_vec()], KEY_DER.to_vec()).unwrap();
    assert!(TlsConfig::server_config_outcome(Ok(built)).is_ok());
}

#[test]
fn a_root_store_holds_the_roots_given() {
    assert_eq!(TlsConfig::root_store(&Vec::new()).unwrap().len(), 0);
    let three = vec![CERT_DER.to_vec(), CERT_DER.to_vec(), CERT_DER.to_vec()];
    let store = TlsConfig::root_store(&three).unwrap();
    assert_eq!(store.len(), 3);
    assert_eq!(store.roots[0].subject, store.roots[2].subject);
    let bad = vec![CERT_DER.to_vec(), CERT_DER.to_vec(), b"junk".to_vec(), CERT_DER.to_vec()];
    assert!(matches!(
        TlsConfig::root_store(&bad),
        Err(TlsError::BadRootCertificate { index: 2, .. })
    ));
}
