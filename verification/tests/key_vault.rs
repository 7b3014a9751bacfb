use acme_azure_function::acme::EcCurve;
use acme_azure_function::azure::auth::Auth;
use acme_azure_function::azure::key_vault::certificate::{
    self, Certificate, CertificateGetResponse, CertificateObject, CreateCsrKeyType, CsrResponse,
    MergeResponse, X509,
};
use acme_azure_function::azure::key_vault::key::{
    CreateOrGetKeyResponse, EcKty, Key, KeyGetResponse, KeyResponse,
};
use acme_azure_function::azure::key_vault::Client as KeyVaultClient;
use acme_azure_function::azure::{Call, Client, Url};
use acme_azure_function::http_common::{
    FromResponse, HeaderValue, Method, ResponseBody, ResponseHeaders, StatusCode,
};
use acme_azure_function::log2::{ScopedObjectOperation, Shown};

/// A certificate from 2024-01-02 03:04:05 to 2024-04-02 03:04:05, with the identifier of the key of
/// its issuer.
const CERTIFICATE: &str = "MIIBYzCCAQmgAwIBAgIHAIdlQyEA/zAKBggqhkjOPQQDAjAWMRQwEgYDVQQDDAtleGFtcGxlLmNvbTAeFw0yNDAxMDIwMzA0MDVaFw0yNDA0MDIwMzA0MDVaMBYxFDASBgNVBAMMC2V4YW1wbGUuY29tMFkwEwYHKoZIzj0CAQYIKoZIzj0DAQcDQgAEFPm6m1x+iNb0IwoPBN+7LD2TDPS6e9+/Mp9q0vVQYHlw2epJCy3zFpIBSq+hSBItTp6ifwSoy6VvAtpexaTzZKNCMEAwHQYDVR0OBBYEFDn9pwzun4EROEjKSy7PlP34R/qOMB8GA1UdIwQYMBaAFDn9pwzun4EROEjKSy7PlP34R/qOMAoGCCqGSM49BAMCA0gAMEUCIAImuzWR4Arl4V6abb2DxjEPQ9roa+wjlDnm9U0f+wa6AiEA2XWlAG+8DqHRws2GNHFxFOozbWEDYlVzq+FNdka76uE=";

/// The same, without the identifier.
const ANONYMOUS: &str = "MIIBRTCB7aADAgECAgEFMAoGCCqGSM49BAMCMBYxFDASBgNVBAMMC2V4YW1wbGUuY29tMB4XDTI0MDEwMjAzMDQwNVoXDTI0MDQwMjAzMDQwNVowFjEUMBIGA1UEAwwLZXhhbXBsZS5jb20wWTATBgcqhkjOPQIBBggqhkjOPQMBBwNCAAQU+bqbXH6I1vQjCg8E37ssPZMM9Lp7378yn2rS9VBgeXDZ6kkLLfMWkgFKr6FIEi1OnqJ/BKjLpW8C2l7FpPNkoywwKjAJBgNVHRMEAjAAMB0GA1UdDgQWBBQ5/acM7p+BEThIyksuz5T9+Ef6jjAKBggqhkjOPQQDAgNHADBEAiBPTEPWnyZWOdixPQQ27FfFsoE+KstFU4WJ3hNTGh5OZwIgXlWJxfpvAZvbUq1QPtJS8ord2nxXpnP5uHpwwVeayrA=";

fn auth() -> Auth {
    Auth::ManagedIdentity {
        endpoint: "http://localhost".to_owned(),
        secret: HeaderValue::from_static("s"),
    }
}

fn client(auth: &Auth) -> KeyVaultClient<'_> {
    KeyVaultClient::new("vault", auth, HeaderValue::from_static("me")).unwrap()
}

fn path(call: &Call) -> &str {
    match &call.url {
        Url::PathAndQuery(path) => path,
        Url::Uri(_) => panic!("the URL is absolute"),
    }
}

fn created(call: &Call) -> &str {
    match &call.scope.operation {
        ScopedObjectOperation::Create { value } => value,
        _ => panic!("nothing is created"),
    }
}

fn read<T: FromResponse>(status: u16, content: Option<T::Content>) -> Result<Option<T>, Vec<String>> {
    let headers = ResponseHeaders { location: None, replay_nonce: None, retry_after: None };
    let body = content.map(|content| ResponseBody {
        in_one_piece: true,
        content_type: HeaderValue::from_static("application/json"),
        content,
    });
    T::from_response(StatusCode::from_u16(status).unwrap(), body, &headers, 0)
        .map_err(|err| err.chain)
}

fn parsed(cer: &str, id: &str) -> Result<Certificate, Vec<String>> {
    CertificateObject { cer: cer.to_owned(), id: id.to_owned() }.parse().map_err(|err| err.chain)
}

#[test]
fn a_vault_has_an_authority() {
    let auth = auth();
    let url = client(&auth).make_url("/keys/key?api-version=7.4").unwrap();
    assert_eq!(url.as_str(), "https://vault.vault.azure.net/keys/key?api-version=7.4");
    assert_eq!(<KeyVaultClient<'_> as Client>::auth_resource(), "https://vault.azure.net");
    assert_eq!(client(&auth).key_vault_name(), "vault");
    assert_eq!(
        KeyVaultClient::new("a b", &auth, HeaderValue::from_static("me")).unwrap_err().chain,
        ["could not construct URL authority", "invalid uri character"]
    );
}

#[test]
fn keys_are_created_and_got() {
    let auth = auth();
    let call = client(&auth).key_create("key", EcKty::EcHsm, EcCurve::P384);
    assert_eq!(path(&call), "/keys/key/create?api-version=7.4");
    assert_eq!(
        call.body.as_deref(),
        Some(r#"{"crv":"P-384","kty":"EC-HSM","key_ops":["sign","verify"]}"#)
    );
    assert_eq!(created(&call), "(EcHsm, P384)");
    assert_eq!(call.scope.object_id, "vault/key");
    let call = client(&auth).key_get("key");
    assert_eq!(call.method, Method::Get);
    assert_eq!(path(&call), "/keys/key?api-version=7.4");
    let response = || {
        Ok(CreateOrGetKeyResponse {
            key: KeyResponse {
                crv: EcCurve::P256,
                kid: "https://vault.vault.azure.net/keys/key/1".to_owned(),
                kty: EcKty::Ec,
                x: "x".to_owned(),
                y: "y".to_owned(),
            },
        })
    };
    assert!(read::<KeyGetResponse>(200, Some(response())).unwrap().unwrap().key.is_some());
    assert!(read::<KeyGetResponse>(404, None).unwrap().unwrap().key.is_none());
    assert!(read::<KeyGetResponse>(500, None).unwrap().is_none());
    assert!(read::<CreateOrGetKeyResponse>(404, None).unwrap().is_none());
    let key = |kid: &str| {
        Key::new(KeyResponse {
            crv: EcCurve::P256,
            kid: kid.to_owned(),
            kty: EcKty::Ec,
            x: "x".to_owned(),
            y: "y".to_owned(),
        })
    };
    assert!(key("https://vault.vault.azure.net/keys/key/1").is_ok());
    assert_eq!(key("a b").unwrap_err().chain, ["could not construct sign URL", "invalid uri character"]);
}

#[test]
fn signing_requests_are_created() {
    let auth = auth();
    let key_type = CreateCsrKeyType::Rsa { num_bits: 4096, exportable: true };
    let call = client(&auth).csr_create("cert", "example.com", key_type);
    assert_eq!(path(&call), "/certificates/cert/create?api-version=7.4");
    assert_eq!(
        call.body.as_deref(),
        Some(r#"{"policy":{"issuer":{"cert_transparency":false,"name":"Unknown"},"key_props":{"kty":"RSA","key_size":4096,"exportable":true,"reuse_key":false},"x509_props":{"sans":{"dns_names":["example.com","*.example.com"]},"subject":"CN=example.com"}}}"#)
    );
    assert_eq!(created(&call), r#"("example.com", Rsa { num_bits: 4096, exportable: true })"#);
    let csr = CsrResponse { csr: "abc".to_owned() };
    assert_eq!(read::<CsrResponse>(202, Some(Ok(csr))).unwrap().unwrap().csr, "abc");
    assert!(read::<CsrResponse>(200, None).unwrap().is_none());
}

#[test]
fn key_types_are_serialized() {
    let serialize = |key_type: CreateCsrKeyType| {
        let members: Vec<String> = key_type
            .serialize()
            .into_iter()
            .map(|(name, value)| format!("{name}:{value}"))
            .collect();
        members.join(",")
    };
    assert_eq!(
        serialize(CreateCsrKeyType::Ec { curve: EcCurve::P256, exportable: true }),
        r#"kty:"EC",crv:"P-256",exportable:true"#
    );
    assert_eq!(
        serialize(CreateCsrKeyType::EcHsm { curve: EcCurve::P521 }),
        r#"kty:"EC-HSM",crv:"P-521",exportable:false"#
    );
    assert_eq!(
        serialize(CreateCsrKeyType::RsaHsm { num_bits: 2048 }),
        r#"kty:"RSA-HSM",key_size:2048,exportable:false"#
    );
    for key_type in [
        CreateCsrKeyType::Ec { curve: EcCurve::P384, exportable: false },
        CreateCsrKeyType::EcHsm { curve: EcCurve::P384 },
        CreateCsrKeyType::Rsa { num_bits: 2048, exportable: false },
        CreateCsrKeyType::RsaHsm { num_bits: 4096 },
    ] {
        assert_eq!(key_type.debug_text(), format!("{key_type:?}"));
    }
}

#[test]
fn certificates_are_merged() {
    let auth = auth();
    let certificates = vec!["AAAA".to_owned(), "BBBB".to_owned()];
    let call = client(&auth).certificate_merge("cert", &certificates);
    assert_eq!(path(&call), "/certificates/cert/pending/merge?api-version=7.4");
    assert_eq!(call.body.as_deref(), Some(r#"{"x5c":["AAAA","BBBB"]}"#));
    assert_eq!(created(&call), format!("{certificates:?}"));
    assert!(read::<MergeResponse>(201, None).unwrap().is_some());
    assert!(read::<MergeResponse>(200, None).unwrap().is_none());
}

#[test]
fn a_certificate_is_parsed() {
    let certificate = parsed(CERTIFICATE, "https://vault.vault.azure.net/certificates/cert/v1").unwrap();
    assert_eq!(certificate.version, "v1");
    assert_eq!(certificate.not_before, 1_704_164_645_000_000_000);
    assert_eq!(certificate.not_after, 1_712_027_045_000_000_000);
    assert_eq!(certificate.ari_id.as_deref(), Some("Of2nDO6fgRE4SMpLLs-U_fhH-o4.AIdlQyEA_w"));
    let certificate = parsed(ANONYMOUS, "v2").unwrap();
    assert_eq!(certificate.version, "v2");
    assert_eq!(certificate.ari_id, None);
}

fn concat_text(a: &str, b: &str) -> String {
    format!("{a}{b}")
}

#[test]
fn a_certificate_may_be_broken() {
    assert!(parsed("!", "v1").is_err());
    assert!(parsed("AAAA", "v1").is_err());
    // One byte more.
    let longer = format!("{}AA==", &CERTIFICATE[..CERTIFICATE.len() - 1]);
    assert!(parsed(&longer, "v1").is_err());
    let x509 = |rest: &[u8], identifier: Result<Option<Vec<u8>>, String>| {
        Certificate::from_x509("a/v1", X509 {
            rest: rest.to_vec(),
            not_before: (1_704_164_645_000_000_001, 3600),
            not_after: (1_704_164_645_000_000_002, -19_800),
            authority_key_identifier: identifier,
            serial: vec![1],
        })
        .map_err(|err| err.chain)
    };
    assert_eq!(x509(b"x", Ok(None)).unwrap_err(), ["cert has trailing garbage"]);
    assert_eq!(x509(b"", Err("oh".to_owned())).unwrap_err(), ["oh"]);
    let certificate = x509(b"", Ok(Some(vec![0xfb, 0xff]))).unwrap();
    assert_eq!(certificate.ari_id.as_deref(), Some("-_8.AQ"));
    assert_eq!(certificate.not_before, 1_704_164_645_000_000_001);
    assert_eq!(certificate.not_after, 1_704_164_645_000_000_002);
    assert_eq!(
        certificate.show(),
        concat_text(
            r#"Certificate { version: "v1", ari_id: Some("-_8.AQ"), "#,
            "not_before: 2024-01-02 4:04:05.000000001 +01:00:00, \
             not_after: 2024-01-01 21:34:05.000000002 -05:30:00 }"
        )
    );
}

#[test]
fn only_positive_serials_count() {
    assert_eq!(certificate::make_ari_id(None, &vec![1]), None);
    assert_eq!(certificate::make_ari_id(Some(vec![0]), &vec![0x80]), None);
    assert_eq!(certificate::make_ari_id(Some(vec![0]), &vec![0x7f]).as_deref(), Some("AA.fw"));
    assert_eq!(certificate::make_ari_id(Some(vec![0]), &vec![]).as_deref(), Some("AA."));
}

#[test]
fn certificates_are_got() {
    let auth = auth();
    let call = client(&auth).certificate_get("cert");
    assert_eq!(path(&call), "/certificates/cert?api-version=7.4");
    let object = CertificateObject { cer: CERTIFICATE.to_owned(), id: "a/v1".to_owned() };
    let response = read::<CertificateGetResponse>(200, Some(Ok(object))).unwrap().unwrap();
    let shown = response.show();
    assert!(shown.starts_with(r#"Some(Certificate { version: "v1", ari_id: Some(""#), "{shown}");
    assert!(
        shown.ends_with(
            "), not_before: 2024-01-02 3:04:05.0 +00:00:00, not_after: 2024-04-02 3:04:05.0 +00:00:00 })"
        ),
        "{shown}"
    );
    assert_eq!(response.certificate.unwrap().version, "v1");
    assert_eq!(CertificateGetResponse { certificate: None }.show(), "None");
    assert!(read::<CertificateGetResponse>(404, None).unwrap().unwrap().certificate.is_none());
    assert!(read::<CertificateGetResponse>(403, None).unwrap().is_none());
}

#[test]
fn keys_have_a_form_in_the_log() {
    let key = KeyResponse {
        crv: EcCurve::P384,
        kid: "k".to_owned(),
        kty: EcKty::EcHsm,
        x: "1".to_owned(),
        y: "2".to_owned(),
    };
    let shown = format!("Some({key:?})");
    assert_eq!(KeyGetResponse { key: Some(key) }.show(), shown);
    assert_eq!(
        shown,
        r#"Some(KeyResponse { crv: P384, kid: "k", kty: EcHsm, x: "1", y: "2" })"#
    );
    assert_eq!(KeyGetResponse { key: None }.show(), "None");
}
