use acme_azure_function::azure::account::Account;
use acme_azure_function::azure::auth::{Auth, ServicePrincipal, TokenObject, TokenResponse};
use acme_azure_function::azure::cdn;
use acme_azure_function::azure::log_analytics::{LogSender, LogsResponse};
use acme_azure_function::azure::management::cdn::{
    AsyncOperationResponse, CustomDomainKeyVaultSecret, CustomDomainSecret, HttpsParameters,
    SecretGetResponse,
};
use acme_azure_function::azure::management::dns::{NameServers, TxtRecordCreated, TxtRecordDeleted};
use acme_azure_function::azure::management::log_analytics::{
    self, SharedKeysObject, SharedKeysResponse, WorkspaceResponse,
};
use acme_azure_function::azure::management::Client as ManagementClient;
use acme_azure_function::azure::{self, Call, Client, RequestStep, Url};
use acme_azure_function::error::Error;
use acme_azure_function::http_common::{
    FromResponse, HeaderValue, Method, Request, RequestBody, ResponseBody, ResponseHeaders,
    StatusCode, Uri,
};
use acme_azure_function::log2::{Logger, ScopedObjectOperation, Secret, Shown};
use acme_azure_function::time2::Duration;

fn identity() -> Auth {
    Auth::ManagedIdentity {
        endpoint: "http://localhost:1234/token".to_owned(),
        secret: HeaderValue::from_static("s3cret"),
    }
}

fn principal() -> ServicePrincipal {
    ServicePrincipal {
        client_id: "client id".to_owned(),
        client_secret: "a&b=c".to_owned(),
        tenant_id: "tenant".to_owned(),
    }
}

fn management(auth: &Auth) -> ManagementClient<'_> {
    ManagementClient::new("sub", "group", auth, HeaderValue::from_static("me"))
}

fn headers(request: &Request) -> Vec<(&str, &str)> {
    request
        .headers
        .iter()
        .map(|(name, value)| (&**name, std::str::from_utf8(value.as_bytes()).unwrap()))
        .collect()
}

fn body(request: &Request) -> Vec<u8> {
    match &request.body {
        RequestBody::Single(bytes) => bytes.clone(),
        RequestBody::Stream(parts) => parts.concat(),
    }
}

fn path(call: &Call) -> &str {
    match &call.url {
        Url::PathAndQuery(path) => path,
        Url::Uri(_) => panic!("the URL is absolute"),
    }
}

fn read<T: FromResponse>(status: u16, content: Option<T::Content>) -> Result<Option<T>, Vec<String>> {
    let headers = ResponseHeaders { location: None, replay_nonce: None, retry_after: None };
    let body = content.map(|content| ResponseBody {
        in_one_piece: true,
        content_type: HeaderValue::from_static("application/json"),
        content,
    });
    T::from_response(StatusCode::from_u16(status).unwrap(), body, &headers, 0)
        .map_err(|err| err.chain)
}

#[test]
fn the_environment_decides_who_a_client_is() {
    let env = |secret: &str| Some(("http://localhost".to_owned(), secret.to_owned()));
    assert!(matches!(
        Auth::from_settings(env("s"), false, Err("oh".to_owned())),
        Ok(Auth::ManagedIdentity { endpoint, .. }) if endpoint == "http://localhost"
    ));
    assert_eq!(
        Auth::from_settings(env("\n"), true, Ok(principal())).unwrap_err().chain,
        ["could not parse MSI_SECRET as HeaderValue: failed to parse header value"]
    );
    assert_eq!(
        Auth::from_settings(None, false, Ok(principal())).unwrap_err().chain,
        ["did not find MSI_ENDPOINT and MSI_SECRET env vars"]
    );
    assert!(matches!(
        Auth::from_settings(None, true, Ok(principal())),
        Ok(Auth::ServicePrincipal(_))
    ));
    assert_eq!(
        Auth::from_settings(None, true, Err("missing field".to_owned())).unwrap_err().chain,
        ["missing field"]
    );
}

#[test]
fn an_identity_asks_for_an_authorization() {
    let (scope, request) = identity().get_authorization("https://vault.azure.net");
    let request = request.unwrap();
    assert_eq!(scope.object_type, "azure/authorization");
    assert_eq!(scope.object_id, "https://vault.azure.net");
    assert_eq!(request.method, Method::Get);
    assert_eq!(
        request.uri.as_str(),
        "http://localhost:1234/token?resource=https://vault.azure.net&api-version=2017-09-01"
    );
    assert_eq!(headers(&request), [("secret", "s3cret")]);
    let broken = Auth::ManagedIdentity {
        endpoint: "http://a b".to_owned(),
        secret: HeaderValue::from_static("s"),
    };
    assert_eq!(
        broken.get_authorization("r").1.unwrap_err().chain,
        ["could not construct authorization request URI", "invalid uri character"]
    );
}

#[test]
fn a_principal_asks_for_an_authorization() {
    let auth = Auth::ServicePrincipal(principal());
    let (_, request) = auth.get_authorization("https://management.azure.com");
    let request = request.unwrap();
    assert_eq!(request.method, Method::Post);
    assert_eq!(request.uri.as_str(), "https://login.microsoftonline.com/tenant/oauth2/token");
    assert_eq!(
        body(&request),
        b"grant_type=client_credentials&client_id=client+id&client_secret=a%26b%3Dc&resource=https%3A%2F%2Fmanagement.azure.com"
    );
}

#[test]
fn authorizations_are_received() {
    let token = |access_token: &str| {
        Ok(TokenObject { access_token: access_token.to_owned(), token_type: "Bearer".to_owned() })
    };
    let response = read::<TokenResponse>(200, Some(token("abc"))).unwrap().unwrap();
    let Ok(authorization) = Auth::authorization_received(Ok(response)) else {
        panic!("there is no authorization");
    };
    assert_eq!(authorization.0.as_bytes(), b"Bearer abc");
    assert_eq!(authorization.show(), "******");
    assert_eq!(
        read::<TokenResponse>(200, Some(token("a\nb"))).unwrap_err(),
        ["could not parse token as HeaderValue", "failed to parse header value"]
    );
    assert!(read::<TokenResponse>(401, Some(token("abc"))).unwrap().is_none());
    assert!(read::<TokenResponse>(200, None).unwrap().is_none());
    assert_eq!(
        Auth::authorization_received(Err(Error::new("oh"))).err().unwrap().chain,
        ["could not get authorization", "oh"]
    );
}

#[test]
fn requests_are_authorized_once() {
    let auth = identity();
    let mut client = management(&auth);
    let call = || (Method::Get, Url::PathAndQuery("/providers/a?b".to_owned()), None);
    let (method, url, content) = call();
    let Ok(RequestStep::Authorize(pending)) = azure::request(&client, method, url, content) else {
        panic!("there is an authorization");
    };
    assert_eq!(<ManagementClient<'_> as Client>::auth_resource(), "https://management.azure.com");
    let authorization = Secret(HeaderValue::from_static("Bearer abc"));
    let request = azure::authorized(&mut client, pending, Ok(authorization)).unwrap();
    assert_eq!(
        request.uri.as_str(),
        "https://management.azure.com/subscriptions/sub/resourceGroups/group/providers/a?b"
    );
    assert_eq!(headers(&request), [("authorization", "Bearer abc")]);
    assert!(body(&request).is_empty());

    let (method, url, content) = call();
    let Ok(RequestStep::Send(request)) = azure::request(&client, method, url, content) else {
        panic!("there is no authorization");
    };
    assert_eq!(headers(&request), [("authorization", "Bearer abc")]);
}

#[test]
fn an_authorization_is_not_replaced() {
    let auth = identity();
    let mut client = management(&auth);
    let start = || {
        let url = Url::PathAndQuery("/providers/a?b".to_owned());
        match azure::request(&client, Method::Get, url, None) {
            Ok(RequestStep::Authorize(pending)) => pending,
            _ => panic!("there is an authorization"),
        }
    };
    let (first, second, third) = (start(), start(), start());
    let RequestStep::Authorize(first) = azure::resume(&client, first) else {
        panic!("there is an authorization");
    };
    let authorization = Secret(HeaderValue::from_static("Bearer abc"));
    let request = azure::authorized(&mut client, first, Ok(authorization)).unwrap();
    assert_eq!(headers(&request), [("authorization", "Bearer abc")]);

    let RequestStep::Send(request) = azure::resume(&client, second) else {
        panic!("there is no authorization");
    };
    assert_eq!(headers(&request), [("authorization", "Bearer abc")]);

    let authorization = Secret(HeaderValue::from_static("Bearer def"));
    let request = azure::authorized(&mut client, third, Ok(authorization)).unwrap();
    assert_eq!(headers(&request), [("authorization", "Bearer abc")]);
    client.set_authorization(HeaderValue::from_static("Bearer ghi"));
    assert_eq!(client.cached_authorization().unwrap().as_bytes(), b"Bearer abc");
}

#[test]
fn a_failed_asking_leaves_room_for_another() {
    let auth = identity();
    let mut client = management(&auth);
    for authorization in [Err(Error::new("oh")), Ok(Secret(HeaderValue::from_static("Bearer abc")))] {
        let url = Url::PathAndQuery("/providers/a?b".to_owned());
        let Ok(RequestStep::Authorize(pending)) = azure::request(&client, Method::Get, url, None)
        else {
            panic!("there is an authorization");
        };
        let is_ok = authorization.is_ok();
        assert_eq!(azure::authorized(&mut client, pending, authorization).is_ok(), is_ok);
    }
    assert_eq!(client.cached_authorization().unwrap().as_bytes(), b"Bearer abc");
}

#[test]
fn requests_say_what_they_carry() {
    let auth = identity();
    let mut client = management(&auth);
    client.set_authorization(HeaderValue::from_static("Bearer abc"));
    let send = |method: Method, content: Option<&str>| {
        let url = Url::Uri(Uri::from_text("https://example.com/").unwrap());
        match azure::request(&client, method, url, content.map(ToOwned::to_owned)) {
            Ok(RequestStep::Send(request)) => request,
            _ => panic!("there is no authorization"),
        }
    };
    let request = send(Method::Post, Some("{}"));
    assert_eq!(headers(&request), [("content-type", "application/json"), ("authorization", "Bearer abc")]);
    assert_eq!(body(&request), b"{}");
    let request = send(Method::Delete, None);
    assert_eq!(headers(&request), [("content-length", "0"), ("authorization", "Bearer abc")]);
    assert_eq!(body(&request), b"null");
}

#[test]
fn requests_may_fail_early() {
    let auth = identity();
    let mut client = management(&auth);
    let url = Url::PathAndQuery("/a b".to_owned());
    assert_eq!(
        azure::request(&client, Method::Get, url, None).unwrap_err().chain,
        ["could not parse request URL", "invalid uri character"]
    );
    let url = Url::PathAndQuery("/a".to_owned());
    let Ok(RequestStep::Authorize(pending)) = azure::request(&client, Method::Get, url, None) else {
        panic!("there is an authorization");
    };
    assert_eq!(
        azure::authorized(&mut client, pending, Err(Error::new("oh"))).unwrap_err().chain,
        ["could not get API authorization", "oh"]
    );
    assert!(client.cached_authorization().is_none());
}

#[test]
fn txt_records_are_created_and_deleted() {
    let auth = identity();
    let client = management(&auth);
    let contents = vec!["a".to_owned(), "b".to_owned()];
    let call = client.dns_txt_record_create("example.com", "_acme-challenge", &contents);
    assert_eq!(call.method, Method::Put);
    assert_eq!(
        path(&call),
        "/providers/Microsoft.Network/dnsZones/example.com/TXT/_acme-challenge?api-version=2018-05-01"
    );
    assert_eq!(
        call.body.as_deref(),
        Some(r#"{"properties":{"TTL":1,"TXTRecords":[{"value":["a"]},{"value":["b"]}]}}"#)
    );
    assert_eq!(call.scope.object_id, "example.com/_acme-challenge");
    assert!(matches!(
        call.scope.operation,
        ScopedObjectOperation::Create { value } if value == "******"
    ));
    let call = client.dns_txt_record_delete("example.com", "_acme-challenge");
    assert_eq!(call.method, Method::Delete);
    assert!(call.body.is_none());
    for status in [200, 201] {
        assert!(read::<TxtRecordCreated>(status, None).unwrap().is_some());
    }
    assert!(read::<TxtRecordCreated>(202, None).unwrap().is_none());
    for status in [200, 202, 404] {
        assert!(read::<TxtRecordDeleted>(status, None).unwrap().is_some());
    }
    assert!(read::<TxtRecordDeleted>(500, None).unwrap().is_none());
    let servers = NameServers { name_servers: vec!["ns1.example.com.".to_owned()] };
    let servers = read::<NameServers>(200, Some(Ok(servers))).unwrap().unwrap();
    assert_eq!(servers.name_servers, ["ns1.example.com."]);
}

fn secret() -> CustomDomainKeyVaultSecret {
    CustomDomainKeyVaultSecret {
        subscription_id: "sub".to_owned(),
        resource_group: "vault-group".to_owned(),
        key_vault_name: "vault".to_owned(),
        secret_name: "cert".to_owned(),
        secret_version: "v1".to_owned(),
    }
}

#[test]
fn the_secret_of_a_custom_domain_is_got_and_set() {
    let auth = identity();
    let client = management(&auth);
    let call = client.cdn_custom_domain_secret_get("profile", "endpoint", "domain");
    assert_eq!(call.method, Method::Get);
    assert_eq!(
        path(&call),
        "/providers/Microsoft.Cdn/profiles/profile/endpoints/endpoint/customDomains/domain?api-version=2019-12-31"
    );
    assert_eq!(call.scope.object_id, "profile/endpoint/domain");
    let call = client.cdn_custom_domain_secret_set("profile", "endpoint", "domain", &secret());
    assert_eq!(
        path(&call),
        "/providers/Microsoft.Cdn/profiles/profile/endpoints/endpoint/customDomains/domain/enableCustomHttps?api-version=2019-12-31"
    );
    assert_eq!(
        call.body.as_deref(),
        Some(r##"{"certificateSource":"AzureKeyVault","certificateSourceParameters":{"deleteRule":"NoAction","@odata.type":"#Microsoft.Azure.Cdn.Models.KeyVaultCertificateSourceParameters","updateRule":"NoAction","subscriptionId":"sub","resourceGroupName":"vault-group","vaultName":"vault","secretName":"cert","secretVersion":"v1"},"protocolType":"ServerNameIndication"}"##)
    );
    assert_eq!(
        secret().debug_text(),
        r#"CustomDomainKeyVaultSecret { subscription_id: "sub", resource_group: "vault-group", key_vault_name: "vault", secret_name: "cert", secret_version: "v1" }"#
    );
    let other = CustomDomainKeyVaultSecret { resource_group: "other".to_owned(), ..secret() };
    assert!(!secret().same_as(&other));
    let found = SecretGetResponse { secret: Some(CustomDomainSecret::Cdn) };
    assert!(read::<SecretGetResponse>(200, Some(Ok(found))).unwrap().unwrap().secret.is_some());
    assert!(read::<SecretGetResponse>(404, None).unwrap().is_none());
}

/// The parameters that a JSON object holds.
fn parameters(json: &str) -> Option<HttpsParameters> {
    let value: serde_json::Value = serde_json::from_str(json).unwrap();
    let text = |value: &serde_json::Value| value.as_str().map(ToOwned::to_owned);
    let members = value["certificateSourceParameters"].as_object();
    Some(HttpsParameters {
        certificate_source: text(&value["certificateSource"]).unwrap(),
        certificate_source_parameters: members.map(|members| {
            members.iter().map(|(name, value)| (name.clone(), text(value).unwrap())).collect()
        }),
        protocol_type: text(&value["protocolType"]),
    })
}

#[test]
fn what_was_set_is_read_back() {
    let auth = identity();
    let client = management(&auth);
    let call = client.cdn_custom_domain_secret_set("profile", "endpoint", "domain", &secret());
    let body = call.body.unwrap();
    let found = SecretGetResponse::from_parameters(parameters(&body)).unwrap();
    assert!(matches!(&found.secret, Some(CustomDomainSecret::KeyVault(s)) if s.same_as(&secret())));
    assert_eq!(
        found.show(),
        r#"Some(KeyVault(CustomDomainKeyVaultSecret { subscription_id: "sub", resource_group: "vault-group", key_vault_name: "vault", secret_name: "cert", secret_version: "v1" }))"#
    );
    let found = SecretGetResponse::from_parameters(parameters(r#"{"certificateSource":"Cdn"}"#)).unwrap();
    assert_eq!(found.show(), "Some(Cdn)");
    assert_eq!(SecretGetResponse::from_parameters(None).unwrap().show(), "None");
}

#[test]
fn the_source_of_a_certificate_may_be_malformed() {
    let read = |json: &str| {
        SecretGetResponse::from_parameters(parameters(json)).unwrap_err().chain.remove(0)
    };
    assert_eq!(
        read(r#"{"certificateSource":"Other"}"#),
        "unknown variant `Other`, expected `AzureKeyVault` or `Cdn`"
    );
    assert_eq!(
        read(r#"{"certificateSource":"AzureKeyVault"}"#),
        "missing field `certificateSourceParameters`"
    );
    let auth = identity();
    let client = management(&auth);
    let call = client.cdn_custom_domain_secret_set("profile", "endpoint", "domain", &secret());
    let body = call.body.unwrap();
    for name in [
        "deleteRule",
        "@odata.type",
        "updateRule",
        "subscriptionId",
        "resourceGroupName",
        "vaultName",
        "secretName",
        "secretVersion",
        "protocolType",
    ] {
        assert_eq!(read(&body.replace(name, "other")), format!("missing field `{name}`"));
    }
}

#[test]
fn a_change_of_the_cdn_is_followed() {
    let accepted = |location: Option<&str>| {
        let headers = ResponseHeaders {
            location: location.map(|location| HeaderValue::from_text(location).unwrap()),
            replay_nonce: None,
            retry_after: Some(HeaderValue::from_static("10")),
        };
        AsyncOperationResponse::from_response(StatusCode::from_u16(202).unwrap(), None, &headers, 0)
            .map_err(|err| err.chain)
    };
    let poll = accepted(Some("https://example.com/op")).unwrap().unwrap().follow().unwrap();
    assert_eq!(poll.retry_after, Duration::from_secs(10));
    assert_eq!(poll.method, Method::Get);
    assert!(matches!(&poll.url, Url::Uri(uri) if uri.as_str() == "https://example.com/op"));
    assert!(poll.body.is_none());
    assert_eq!(
        poll.waiting.debug_text(),
        "Message { message: Waiting for 10s before rechecking async operation... }"
    );
    assert_eq!(
        poll.checking.debug_text(),
        "Message { message: Checking async operation https://example.com/op ... }"
    );
    assert_eq!(accepted(None).unwrap_err(), ["missing location header"]);
    let done = read::<AsyncOperationResponse>(200, None).unwrap().unwrap();
    assert!(done.follow().is_none());
    assert!(read::<AsyncOperationResponse>(500, None).unwrap().is_none());
}

#[test]
fn an_account_announces_what_it_does() {
    let auth = identity();
    let account = Account::new("sub", "group", &auth, HeaderValue::from_static("me"));
    let call = account.cdn_custom_domain_secret_get("p", "e", "d");
    assert_eq!(call.announcement, "Getting CDN custom domain p/e/d secret version");
    let found = cdn::CustomDomainSecret { name: "cert".to_owned(), version: "v1".to_owned() };
    assert_eq!(
        account.custom_domain_secret_found("p", "e", "d", &Some(found)),
        r#"CDN custom domain p/e/d has secret CustomDomainSecret { name: "cert", version: "v1" }"#
    );
    assert_eq!(
        account.custom_domain_secret_found("p", "e", "d", &None),
        "CDN custom domain p/e/d does not have HTTPS enabled"
    );
    let (call, conclusion) = account.cdn_custom_domain_secret_set("p", "e", "d", "v", "s", "1");
    assert_eq!(call.announcement, "Setting CDN custom domain p/e/d secret to v/s/1 ...");
    assert_eq!(conclusion, "Set CDN custom domain p/e/d secret to v/s/1");
    assert_eq!(
        call.body.as_deref(),
        Some(r##"{"certificateSource":"AzureKeyVault","certificateSourceParameters":{"deleteRule":"NoAction","vaultName":"v","@odata.type":"#Microsoft.Azure.Cdn.Models.KeyVaultCertificateSourceParameters","resourceGroupName":"group","secretName":"s","secretVersion":"1","subscriptionId":"sub","updateRule":"NoAction"},"protocolType":"ServerNameIndication"}"##)
    );
    let call = account.dns_txt_record_create("example.com", "_acme-challenge", "a");
    assert_eq!(
        call.body.as_deref(),
        Some(r#"{"properties":{"TTL":1,"TXTRecords":[{"value":["a"]}]}}"#)
    );
    let call = account.dns_txt_record_delete("example.com", "_acme-challenge");
    assert_eq!(call.method, Method::Delete);
}

#[test]
fn a_log_sender_is_made_of_a_workspace() {
    let auth = identity();
    let (workspace, keys) = management(&auth).log_analytics_log_sender("logs");
    assert_eq!(
        path(&workspace),
        "/providers/Microsoft.OperationalInsights/workspaces/logs?api-version=2022-10-01"
    );
    assert_eq!(
        path(&keys),
        "/providers/Microsoft.OperationalInsights/workspaces/logs/sharedKeys?api-version=2022-10-01"
    );
    assert_eq!(keys.method, Method::Post);
    let keys_scope = keys.scope;
    let keys = |key: &str| {
        read::<SharedKeysResponse>(
            200,
            Some(Ok(SharedKeysObject { primary_shared_key: key.to_owned() })),
        )
    };
    let found = keys("c29tZSBrZXk=").unwrap().unwrap();
    assert_eq!(found.primary_shared_key, b"some key");
    assert_eq!(found.show(), "******");
    let mut logger = Logger::new(None, true);
    let (line, found) = logger.report_outcome(&keys_scope, Ok(found));
    assert!(line.unwrap().ends_with("operation: GetEnd { value: ****** } }"));
    let found = found.unwrap();
    assert!(keys("c29tZSBrZXk").is_err());
    let workspace = || WorkspaceResponse { customer_id: "cid".to_owned() };
    assert_eq!(workspace().show(), r#""cid""#);
    assert!(log_analytics::log_sender_received(Ok((workspace(), found))).is_ok());
    assert_eq!(
        log_analytics::log_sender_received(Err(Error::new("oh"))).unwrap_err().chain,
        ["oh"]
    );
}

#[test]
fn logs_are_signed() {
    let sender = LogSender::new("cid".to_owned(), b"some key".to_vec()).unwrap();
    // 2024-01-02T03:04:05Z
    let now = 1_704_164_645_000_000_000;
    let (scope, request) =
        sender.send_logs_at(HeaderValue::from_static("Kind"), br#"{"a":1}"#.to_vec(), now);
    assert_eq!(scope.object_type, "azure/log_analytics/logs");
    assert_eq!(scope.object_id, "cid");
    assert!(matches!(scope.operation, ScopedObjectOperation::Create { value } if value == "9B"));
    let request = request.unwrap();
    assert_eq!(request.method, Method::Post);
    assert_eq!(
        request.uri.as_str(),
        "https://cid.ods.opinsights.azure.com/api/logs?api-version=2016-04-01"
    );
    assert_eq!(
        headers(&request),
        [
            ("authorization", "SharedKey cid:Rob7UK1MnsoJeFX/vPzLLV0eo+34wsnYTqBtTmMDVzg="),
            ("content-length", "9"),
            ("content-type", "application/json"),
            ("log-type", "Kind"),
            ("time-generated-field", "TimeCollected"),
            ("x-ms-date", "Tue, 02 Jan 2024 03:04:05 GMT"),
        ]
    );
    assert_eq!(body(&request), br#"[{"a":1}]"#);
    assert!(read::<LogsResponse>(200, None).unwrap().is_some());
    assert_eq!(
        LogSender::new("a b".to_owned(), vec![]).unwrap_err().chain,
        ["could not construct Log Analytics Data Collector API URI", "invalid uri character"]
    );
    let (_, request) = sender.send_logs_at(HeaderValue::from_static("Kind"), vec![], i128::MAX);
    assert_eq!(request.unwrap_err().chain[0], "could not format time");
    for now in [-377_705_116_800_000_000_000, 253_402_300_799_999_999_999] {
        let (_, request) = sender.send_logs_at(HeaderValue::from_static("Kind"), vec![], now);
        assert!(request.is_ok());
    }
    let (_, request) = sender.send_logs(HeaderValue::from_static("Kind"), vec![]);
    let request = request.unwrap();
    let date = headers(&request)[5].1.to_owned();
    assert!(date.ends_with(" GMT"), "{date}");
    // An ID that can stand in a URI, but not in a header.
    let sender = LogSender::new("a.example#\n".to_owned(), vec![]).unwrap();
    let (_, request) = sender.send_logs(HeaderValue::from_static("Kind"), vec![]);
    assert_eq!(
        request.unwrap_err().chain,
        ["could not create authorization header", "failed to parse header value"]
    );
}
