use acme_azure_function::azure::auth::Auth;
use acme_azure_function::azure::management::cdn::{CustomDomainKeyVaultSecret, CustomDomainSecret};
use acme_azure_function::azure::management::Client;
use acme_azure_function::azure::{self, Url};
use acme_azure_function::deploy_cert_to_cdn::{self, Deployment, Found, Lookup};
use acme_azure_function::error::Error;
use acme_azure_function::function_host::{self, Dispatch};
use acme_azure_function::http_common::{HeaderValue, Method};
use acme_azure_function::{renew_cert, update_cdn_cert};

fn auth() -> Auth {
    Auth::ManagedIdentity {
        endpoint: "http://localhost:1234/token".to_owned(),
        secret: HeaderValue::from_static("s3cret"),
    }
}

#[test]
fn functions_serve_their_paths() {
    assert!(renew_cert::handles("renew-cert"));
    assert!(!renew_cert::handles("/renew-cert"));
    assert!(deploy_cert_to_cdn::handles("deploy-cert-to-cdn"));
    assert!(!deploy_cert_to_cdn::handles(""));
    assert!(update_cdn_cert::handles("update-cdn-cert"));
    assert!(!update_cdn_cert::handles("renew-cert"));
}

#[test]
fn requests_are_dispatched() {
    let paths = vec!["/a".to_owned(), "/b".to_owned()];
    assert!(matches!(function_host::dispatch(&paths, "/b", true), Dispatch::Run(1)));
    let status = |path: &str, is_post: bool| match function_host::dispatch(&paths, path, is_post) {
        Dispatch::Answer(answer) => {
            assert!(answer.body.is_empty());
            assert!(answer.content_type.is_none());
            answer.status.as_u16()
        },
        Dispatch::Run(_) => 0,
    };
    assert_eq!(status("/b", false), 405);
    assert_eq!(status("/c", true), 404);
    assert_eq!(status("/c", false), 404);
}

#[test]
fn functions_are_concluded() {
    let answer = function_host::conclude(Ok(()));
    assert_eq!(answer.status.as_u16(), 200);
    assert_eq!(answer.content_type.unwrap().as_bytes(), b"application/json");
    assert_eq!(answer.body, br#"{"Outputs":{"":""},"Logs":null,"ReturnValue":""}"#);
    let answer = function_host::conclude(Err("oh".to_owned()));
    assert_eq!(answer.status.as_u16(), 500);
    assert!(answer.content_type.is_none());
    assert_eq!(answer.body, b"oh");
    assert_eq!(function_host::failure(Error::new("oh")).chain, ["function failed", "oh"]);
}

fn settings() -> deploy_cert_to_cdn::Settings {
    deploy_cert_to_cdn::Settings {
        azure_cdn_resource_group_name: "cdn-group".to_owned(),
        azure_cdn_profile_name: "profile".to_owned(),
        azure_cdn_endpoint_name: "endpoint".to_owned(),
        azure_cdn_custom_domain_name: "domain".to_owned(),
        azure_key_vault_resource_group_name: "vault-group".to_owned(),
        azure_key_vault_name: "vault".to_owned(),
        azure_key_vault_certificate_name: "cert".to_owned(),
    }
}

fn secret(version: &str) -> CustomDomainKeyVaultSecret {
    CustomDomainKeyVaultSecret {
        subscription_id: "sub".to_owned(),
        resource_group: "vault-group".to_owned(),
        key_vault_name: "vault".to_owned(),
        secret_name: "cert".to_owned(),
        secret_version: version.to_owned(),
    }
}

#[test]
fn a_cdn_is_made_to_use_the_latest_certificate() {
    let deploy = |actual: Option<CustomDomainSecret>| {
        let Deployment { message, secret } =
            Deployment::new("sub", &settings(), "v2".to_owned(), &actual);
        (message, secret)
    };
    let (message, nothing) = deploy(Some(CustomDomainSecret::KeyVault(secret("v2"))));
    assert_eq!(message, "CDN is up-to-date.");
    assert!(nothing.is_none());
    let (message, new) = deploy(Some(CustomDomainSecret::Cdn));
    assert_eq!(message, "CDN-managed cert will be replaced by user-managed cert.");
    assert!(new.unwrap().same_as(&secret("v2")));
    let (message, new) = deploy(Some(CustomDomainSecret::KeyVault(secret("v1"))));
    assert_eq!(message, "User-managed cert will be deployed.");
    assert!(new.unwrap().same_as(&secret("v2")));
    let (message, new) = deploy(None);
    assert_eq!(message, "User-managed cert will be deployed.");
    // What has been deployed is left alone.
    let (message, nothing) = deploy(new.map(CustomDomainSecret::KeyVault));
    assert_eq!(message, "CDN is up-to-date.");
    assert!(nothing.is_none());
}

#[test]
fn the_certificate_is_deployed_where_the_settings_say() {
    let (auth, settings) = (auth(), settings());
    let client = Client::new("sub", "cdn-group", &auth, HeaderValue::from_static("me"));
    let domain = "/providers/Microsoft.Cdn/profiles/profile/endpoints/endpoint/customDomains/domain";
    let is_at = |url: &Url, expected: String| matches!(url, Url::PathAndQuery(path) if *path == expected);
    let call = deploy_cert_to_cdn::lookup(&client, &settings);
    assert!(is_at(&call.url, format!("{domain}?api-version=2019-12-31")));
    let deploy = |actual: Option<CustomDomainSecret>| {
        Deployment::new("sub", &settings, "v2".to_owned(), &actual).change(&client, &settings)
    };
    assert!(deploy(Some(CustomDomainSecret::KeyVault(secret("v2")))).is_none());
    let call = deploy(Some(CustomDomainSecret::KeyVault(secret("v1")))).unwrap();
    assert!(is_at(&call.url, format!("{domain}/enableCustomHttps?api-version=2019-12-31")));
    assert!(call.body.unwrap().contains(r#""secretVersion":"v2""#));
}

#[test]
fn the_certificate_and_the_secret_are_found_in_any_order() {
    let lookup = Lookup::<CustomDomainSecret>::Neither;
    let Ok(Found::Wait(lookup)) = lookup.certificate_received(Ok(Some("v2".to_owned()))) else {
        panic!("the secret is not awaited");
    };
    let found = lookup.secret_received(Ok(None)).unwrap();
    assert!(matches!(found, Found::Both { version, secret: None } if version == "v2"));

    let lookup = Lookup::<CustomDomainSecret>::Neither;
    let Ok(Found::Wait(lookup)) = lookup.secret_received(Ok(None)) else {
        panic!("the certificate is not awaited");
    };
    let found = lookup.certificate_received(Ok(Some("v2".to_owned()))).unwrap();
    assert!(matches!(found, Found::Both { version, secret: None } if version == "v2"));
}

#[test]
fn without_a_certificate_there_is_nothing_to_do() {
    let lookup = Lookup::<CustomDomainSecret>::Neither;
    assert!(matches!(lookup.certificate_received(Ok(None)), Ok(Found::NoCertificate)));
    let lookup = Lookup::<CustomDomainSecret>::Secret(None);
    assert!(matches!(lookup.certificate_received(Ok(None)), Ok(Found::NoCertificate)));
    assert_eq!(deploy_cert_to_cdn::NOTHING_TO_DO, "Nothing to do.");
}

#[test]
fn a_failed_lookup_fails_at_once() {
    let lookup = Lookup::<CustomDomainSecret>::Neither;
    assert_eq!(lookup.certificate_received(Err(Error::new("a"))).unwrap_err().chain, ["a"]);
    let lookup = Lookup::<CustomDomainSecret>::Version("v".to_owned());
    assert_eq!(lookup.secret_received(Err(Error::new("b"))).unwrap_err().chain, ["b"]);
}

#[test]
fn an_outdated_cdn_is_updated() {
    let settings = update_cdn_cert::Settings {
        azure_subscription_id: "sub".to_owned(),
        azure_resource_group_name: "group".to_owned(),
        azure_cdn_profile_name: "profile".to_owned(),
        azure_cdn_endpoint_name: "endpoint".to_owned(),
        azure_cdn_custom_domain_name: "domain".to_owned(),
        azure_key_vault_name: "vault".to_owned(),
        azure_key_vault_certificate_name: "cert".to_owned(),
    };
    let secret = |name: &str, version: &str| {
        Some(azure::cdn::CustomDomainSecret { name: name.to_owned(), version: version.to_owned() })
    };
    assert!(!update_cdn_cert::is_outdated(&settings, "v2", &secret("cert", "v2")));
    assert!(update_cdn_cert::is_outdated(&settings, "v2", &secret("cert", "v1")));
    assert!(update_cdn_cert::is_outdated(&settings, "v2", &secret("other", "v2")));
    assert!(update_cdn_cert::is_outdated(&settings, "v2", &None));

    let auth = auth();
    let account = update_cdn_cert::open_account(&settings, &auth, HeaderValue::from_static("me"));
    let path = |url: &Url| match url {
        Url::PathAndQuery(path_and_query) => path_and_query.clone(),
        Url::Uri(_) => panic!("the URL is a URI"),
    };
    let domain = "/providers/Microsoft.Cdn/profiles/profile/endpoints/endpoint/customDomains/domain";
    let call = update_cdn_cert::lookup(&account, &settings);
    assert_eq!(path(&call.url), format!("{domain}?api-version=2018-04-02"));
    let change = |actual| update_cdn_cert::change(&account, &settings, "v2", &actual);
    assert!(change(secret("cert", "v2")).is_none());
    for actual in [secret("cert", "v1"), secret("other", "v2"), None] {
        let (call, conclusion) = change(actual).unwrap();
        assert_eq!(call.method, Method::Post);
        assert_eq!(path(&call.url), format!("{domain}/enableCustomHttps?api-version=2018-04-02"));
        let body = call.body.unwrap();
        for member in [
            r#""subscriptionId":"sub""#,
            r#""resourceGroupName":"group""#,
            r#""vaultName":"vault""#,
            r#""secretName":"cert""#,
            r#""secretVersion":"v2""#,
        ] {
            assert!(body.contains(member), "{body}");
        }
        assert_eq!(
            conclusion,
            "Set CDN custom domain profile/endpoint/domain secret to vault/cert/v2"
        );
    }
}
