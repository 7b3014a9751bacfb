//! The certificates of the custom domains of the CDN endpoints of an account.

use vstd::prelude::*;

use crate::azure::account::Account;
use crate::azure::management::cdn;
use crate::azure::management::ClientView;
use crate::azure::{Url, UrlView};
use crate::error::Error;
use crate::http_common;
use crate::http_common::{
    FromResponse, HeaderValue, Method, ResponseBody, ResponseHeaders, StatusCode,
};
use crate::json;
use crate::log2::object_id;
use crate::log2::ObjectId;
use crate::text;

verus! {

/// The name and the version of a certificate in a KeyVault.
#[derive(Debug)]
pub struct CustomDomainSecret {
    pub name: String,
    pub version: String,
}

impl View for CustomDomainSecret {
    type V = (Seq<char>, Seq<char>);

    open spec fn view(&self) -> (Seq<char>, Seq<char>) {
        (self.name@, self.version@)
    }
}

/// A request that is announced to the person who watches.
#[derive(Debug)]
pub struct AnnouncedCall {
    /// What is announced before the request is made.
    pub announcement: String,
    pub method: Method,
    pub url: Url,
    /// A JSON text.
    pub body: Option<String>,
}

/// A request that is announced to the person who watches.
#[verifier::ext_equal]
pub struct AnnouncedCallView {
    pub announcement: Seq<char>,
    pub method: Method,
    pub url: UrlView,
    pub body: Option<Seq<char>>,
}

impl View for AnnouncedCall {
    type V = AnnouncedCallView;

    open spec fn view(&self) -> AnnouncedCallView {
        AnnouncedCallView {
            announcement: self.announcement@,
            method: self.method,
            url: self.url@,
            body: text::optional(self.body),
        }
    }
}

/// What is said about a custom domain.
pub open spec fn about_custom_domain(
    head: Seq<char>,
    cdn_profile_name: Seq<char>,
    cdn_endpoint_name: Seq<char>,
    cdn_custom_domain_name: Seq<char>,
    rest: Seq<char>,
) -> Seq<char> {
    head + object_id::path3(cdn_profile_name, cdn_endpoint_name, cdn_custom_domain_name) + rest
}

/// Says something about a custom domain.
fn say_about_custom_domain(
    head: &str,
    cdn_profile_name: &str,
    cdn_endpoint_name: &str,
    cdn_custom_domain_name: &str,
    rest: &str,
) -> (r: String)
    ensures
        r@ == about_custom_domain(
            head@,
            cdn_profile_name@,
            cdn_endpoint_name@,
            cdn_custom_domain_name@,
            rest@,
        ),
{
    let mut r = head.to_owned();
    r.append(
        ObjectId((cdn_profile_name, cdn_endpoint_name, cdn_custom_domain_name)).text().as_str(),
    );
    r.append(rest);
    r
}

/// What is said about a custom domain whose certificate has been looked at.
pub open spec fn secret_found(
    cdn_profile_name: Seq<char>,
    cdn_endpoint_name: Seq<char>,
    cdn_custom_domain_name: Seq<char>,
    secret: Option<(Seq<char>, Seq<char>)>,
) -> Seq<char> {
    about_custom_domain(
        "CDN custom domain "@,
        cdn_profile_name,
        cdn_endpoint_name,
        cdn_custom_domain_name,
        match secret {
            Some((name, version)) => " has secret CustomDomainSecret { name: "@ + text::quoted(name)
                + ", version: "@ + text::quoted(version) + " }"@,
            None => " does not have HTTPS enabled"@,
        },
    )
}

/// What makes a custom domain use a certificate in a KeyVault.
pub open spec fn enable_https_json(
    subscription_id: Seq<char>,
    resource_group: Seq<char>,
    key_vault_name: Seq<char>,
    secret_name: Seq<char>,
    secret_version: Seq<char>,
) -> Seq<char> {
    json::json_object(
        seq![
            ("certificateSource"@, json::json_string("AzureKeyVault"@)),
            (
                "certificateSourceParameters"@,
                json::json_object(
                    seq![
                        ("deleteRule"@, json::json_string("NoAction"@)),
                        ("vaultName"@, json::json_string(key_vault_name)),
                        (
                            "@odata.type"@,
                            json::json_string(
                                "#Microsoft.Azure.Cdn.Models.KeyVaultCertificateSourceParameters"@,
                            ),
                        ),
                        ("resourceGroupName"@, json::json_string(resource_group)),
                        ("secretName"@, json::json_string(secret_name)),
                        ("secretVersion"@, json::json_string(secret_version)),
                        ("subscriptionId"@, json::json_string(subscription_id)),
                        ("updateRule"@, json::json_string("NoAction"@)),
                    ],
                ),
            ),
            ("protocolType"@, json::json_string("ServerNameIndication"@)),
        ],
    )
}

/// Writes what makes a custom domain use a certificate in a KeyVault.
fn write_enable_https(
    subscription_id: &str,
    resource_group: &str,
    key_vault_name: &str,
    secret_name: &str,
    secret_version: &str,
) -> (r: String)
    ensures
        r@ == enable_https_json(
            subscription_id@,
            resource_group@,
            key_vault_name@,
            secret_name@,
            secret_version@,
        ),
{
    let parameters = vec![
        ("deleteRule", json::string("NoAction")),
        ("vaultName", json::string(key_vault_name)),
        (
            "@odata.type",
            json::string("#Microsoft.Azure.Cdn.Models.KeyVaultCertificateSourceParameters"),
        ),
        ("resourceGroupName", json::string(resource_group)),
        ("secretName", json::string(secret_name)),
        ("secretVersion", json::string(secret_version)),
        ("subscriptionId", json::string(subscription_id)),
        ("updateRule", json::string("NoAction")),
    ];
    let ghost expected = seq![
        ("deleteRule"@, json::json_string("NoAction"@)),
        ("vaultName"@, json::json_string(key_vault_name@)),
        (
            "@odata.type"@,
            json::json_string("#Microsoft.Azure.Cdn.Models.KeyVaultCertificateSourceParameters"@),
        ),
        ("resourceGroupName"@, json::json_string(resource_group@)),
        ("secretName"@, json::json_string(secret_name@)),
        ("secretVersion"@, json::json_string(secret_version@)),
        ("subscriptionId"@, json::json_string(subscription_id@)),
        ("updateRule"@, json::json_string("NoAction"@)),
    ];
    assert(json::members(parameters@) =~= expected);
    let fields = vec![
        ("certificateSource", json::string("AzureKeyVault")),
        ("certificateSourceParameters", json::object(&parameters)),
        ("protocolType", json::string("ServerNameIndication")),
    ];
    assert(json::members(fields@) =~= seq![
        ("certificateSource"@, json::json_string("AzureKeyVault"@)),
        ("certificateSourceParameters"@, json::json_object(expected)),
        ("protocolType"@, json::json_string("ServerNameIndication"@)),
    ]);
    json::object(&fields)
}

/// The certificate that a custom domain is to use, as it is said.
pub open spec fn to_secret(
    key_vault_name: Seq<char>,
    secret_name: Seq<char>,
    secret_version: Seq<char>,
    rest: Seq<char>,
) -> Seq<char> {
    " secret to "@ + object_id::path3(key_vault_name, secret_name, secret_version) + rest
}

/// Says which certificate a custom domain is to use.
fn say_to_secret(
    key_vault_name: &str,
    secret_name: &str,
    secret_version: &str,
    rest: &str,
) -> (r: String)
    ensures
        r@ == to_secret(key_vault_name@, secret_name@, secret_version@, rest@),
{
    let mut r = " secret to ".to_owned();
    r.append(ObjectId((key_vault_name, secret_name, secret_version)).text().as_str());
    r.append(rest);
    r
}

/// What looks at the certificate of a custom domain.
pub open spec fn secret_get_call(
    cdn_profile_name: Seq<char>,
    cdn_endpoint_name: Seq<char>,
    cdn_custom_domain_name: Seq<char>,
) -> AnnouncedCallView {
    AnnouncedCallView {
        announcement: about_custom_domain(
            "Getting CDN custom domain "@,
            cdn_profile_name,
            cdn_endpoint_name,
            cdn_custom_domain_name,
            " secret version"@,
        ),
        method: Method::Get,
        url: UrlView::PathAndQuery(
            cdn::custom_domain_path(
                cdn_profile_name,
                cdn_endpoint_name,
                cdn_custom_domain_name,
                "?api-version=2018-04-02"@,
            ),
        ),
        body: None,
    }
}

/// What makes a custom domain use a certificate in a KeyVault, in the resource group of an account.
pub open spec fn secret_set_call(
    account: ClientView,
    cdn_profile_name: Seq<char>,
    cdn_endpoint_name: Seq<char>,
    cdn_custom_domain_name: Seq<char>,
    key_vault_name: Seq<char>,
    secret_name: Seq<char>,
    secret_version: Seq<char>,
) -> AnnouncedCallView {
    AnnouncedCallView {
        announcement: about_custom_domain(
            "Setting CDN custom domain "@,
            cdn_profile_name,
            cdn_endpoint_name,
            cdn_custom_domain_name,
            to_secret(key_vault_name, secret_name, secret_version, " ..."@),
        ),
        method: Method::Post,
        url: UrlView::PathAndQuery(
            cdn::custom_domain_path(
                cdn_profile_name,
                cdn_endpoint_name,
                cdn_custom_domain_name,
                "/enableCustomHttps?api-version=2018-04-02"@,
            ),
        ),
        body: Some(
            enable_https_json(
                account.subscription_id,
                account.resource_group_name,
                key_vault_name,
                secret_name,
                secret_version,
            ),
        ),
    }
}

/// What is said when a custom domain uses a certificate in a KeyVault.
pub open spec fn secret_set(
    cdn_profile_name: Seq<char>,
    cdn_endpoint_name: Seq<char>,
    cdn_custom_domain_name: Seq<char>,
    key_vault_name: Seq<char>,
    secret_name: Seq<char>,
    secret_version: Seq<char>,
) -> Seq<char> {
    about_custom_domain(
        "Set CDN custom domain "@,
        cdn_profile_name,
        cdn_endpoint_name,
        cdn_custom_domain_name,
        to_secret(key_vault_name, secret_name, secret_version, ""@),
    )
}

impl<'a> Account<'a> {
    /// Looks at the certificate of a custom domain.
    pub fn cdn_custom_domain_secret_get(
        &self,
        cdn_profile_name: &str,
        cdn_endpoint_name: &str,
        cdn_custom_domain_name: &str,
    ) -> (r: AnnouncedCall)
        ensures
            r@ == secret_get_call(cdn_profile_name@, cdn_endpoint_name@, cdn_custom_domain_name@),
    {
        AnnouncedCall {
            announcement: say_about_custom_domain(
                "Getting CDN custom domain ",
                cdn_profile_name,
                cdn_endpoint_name,
                cdn_custom_domain_name,
                " secret version",
            ),
            method: Method::Get,
            url: Url::PathAndQuery(
                cdn::write_custom_domain_path(
                    cdn_profile_name,
                    cdn_endpoint_name,
                    cdn_custom_domain_name,
                    "?api-version=2018-04-02",
                ),
            ),
            body: None,
        }
    }

    /// What is said about a custom domain whose certificate has been looked at.
    pub fn custom_domain_secret_found(
        &self,
        cdn_profile_name: &str,
        cdn_endpoint_name: &str,
        cdn_custom_domain_name: &str,
        secret: &Option<CustomDomainSecret>,
    ) -> (r: String)
        ensures
            r@ == secret_found(
                cdn_profile_name@,
                cdn_endpoint_name@,
                cdn_custom_domain_name@,
                match secret {
                    Some(secret) => Some(secret@),
                    None => None,
                },
            ),
    {
        let rest = match secret {
            Some(secret) => {
                let mut rest = " has secret CustomDomainSecret { name: ".to_owned();
                rest.append(text::quote(secret.name.as_str()).as_str());
                rest.append(", version: ");
                rest.append(text::quote(secret.version.as_str()).as_str());
                rest.append(" }");
                rest
            },
            None => " does not have HTTPS enabled".to_owned(),
        };
        say_about_custom_domain(
            "CDN custom domain ",
            cdn_profile_name,
            cdn_endpoint_name,
            cdn_custom_domain_name,
            rest.as_str(),
        )
    }

    /// Makes a custom domain use a certificate in a KeyVault. Each response goes to
    /// [`cdn::AsyncOperationResponse::follow`], until the change is complete. The second result is
    /// what is said then.
    pub fn cdn_custom_domain_secret_set(
        &self,
        cdn_profile_name: &str,
        cdn_endpoint_name: &str,
        cdn_custom_domain_name: &str,
        key_vault_name: &str,
        key_vault_secret_name: &str,
        key_vault_secret_version: &str,
    ) -> (r: (AnnouncedCall, String))
        ensures
            r.0@ == secret_set_call(
                self@,
                cdn_profile_name@,
                cdn_endpoint_name@,
                cdn_custom_domain_name@,
                key_vault_name@,
                key_vault_secret_name@,
                key_vault_secret_version@,
            ),
            r.1@ == secret_set(
                cdn_profile_name@,
                cdn_endpoint_name@,
                cdn_custom_domain_name@,
                key_vault_name@,
                key_vault_secret_name@,
                key_vault_secret_version@,
            ),
    {
        let call = AnnouncedCall {
            announcement: say_about_custom_domain(
                "Setting CDN custom domain ",
                cdn_profile_name,
                cdn_endpoint_name,
                cdn_custom_domain_name,
                say_to_secret(
                    key_vault_name,
                    key_vault_secret_name,
                    key_vault_secret_version,
                    " ...",
                ).as_str(),
            ),
            method: Method::Post,
            url: Url::PathAndQuery(
                cdn::write_custom_domain_path(
                    cdn_profile_name,
                    cdn_endpoint_name,
                    cdn_custom_domain_name,
                    "/enableCustomHttps?api-version=2018-04-02",
                ),
            ),
            body: Some(
                write_enable_https(
                    self.management().subscription_id(),
                    self.management().resource_group_name(),
                    key_vault_name,
                    key_vault_secret_name,
                    key_vault_secret_version,
                ),
            ),
        };
        let conclusion = say_about_custom_domain(
            "Set CDN custom domain ",
            cdn_profile_name,
            cdn_endpoint_name,
            cdn_custom_domain_name,
            say_to_secret(
                key_vault_name,
                key_vault_secret_name,
                key_vault_secret_version,
                "",
            ).as_str(),
        );
        (call, conclusion)
    }
}

/// The certificate of a custom domain, where it has one.
#[derive(Debug)]
pub struct SecretGetResponse {
    pub secret: Option<CustomDomainSecret>,
}

impl View for SecretGetResponse {
    type V = Option<(Seq<char>, Seq<char>)>;

    open spec fn view(&self) -> Option<(Seq<char>, Seq<char>)> {
        match self.secret {
            Some(secret) => Some(secret@),
            None => None,
        }
    }
}

impl FromResponse for SecretGetResponse {
    type Content = Result<SecretGetResponse, String>;

    open spec fn interpreted(
        status: u16,
        body: Option<ResponseBody<Result<SecretGetResponse, String>>>,
        headers: ResponseHeaders,
        now: int,
    ) -> Result<Option<Option<(Seq<char>, Seq<char>)>>, Seq<Seq<char>>> {
        http_common::viewed(http_common::guarded_json_if(status == 200, body))
    }

    fn from_response(
        status: StatusCode,
        body: Option<ResponseBody<Result<SecretGetResponse, String>>>,
        headers: &ResponseHeaders,
        now: i128,
    ) -> (r: Result<Option<SecretGetResponse>, Error>) {
        http_common::expect_guarded_json(status.as_u16() == 200, body)
    }

    open spec fn reads(status: u16, content_type: Seq<u8>, headers: ResponseHeaders) -> bool {
        status == 200 && http_common::is_json(content_type)
    }

    fn reads_body(
        status: StatusCode,
        content_type: &HeaderValue,
        headers: &ResponseHeaders,
    ) -> (r: bool) {
        status.as_u16() == 200 && http_common::has_json_type(content_type)
    }

    proof fn unread_does_not_matter(
        status: u16,
        content_type: HeaderValue,
        in_one_piece: bool,
        one: Result<SecretGetResponse, String>,
        other: Result<SecretGetResponse, String>,
        headers: ResponseHeaders,
        now: int,
    ) {
    }
}

/// A custom domain is looked at by its path, and is told by POST to use a certificate in a KeyVault: the
/// one with the given name and version, in the given KeyVault, and in the group and the subscription of the
/// account. What is announced is about the same custom domain.
pub proof fn a_custom_domain_is_told_its_certificate(
    account: ClientView,
    profile: Seq<char>,
    endpoint: Seq<char>,
    domain: Seq<char>,
    key_vault_name: Seq<char>,
    secret_name: Seq<char>,
    secret_version: Seq<char>,
)
    ensures
        ({
            let look = secret_get_call(profile, endpoint, domain);
            let change = secret_set_call(
                account,
                profile,
                endpoint,
                domain,
                key_vault_name,
                secret_name,
                secret_version,
            );
            let path = "/providers/Microsoft.Cdn/profiles/"@ + profile + "/endpoints/"@ + endpoint
                + "/customDomains/"@ + domain;
            let name = profile + seq!['/'] + endpoint + seq!['/'] + domain;
            let secret = key_vault_name + seq!['/'] + secret_name + seq!['/'] + secret_version;
            &&& look.method == Method::Get
            &&& look.url == UrlView::PathAndQuery(path + "?api-version=2018-04-02"@)
            &&& look.body is None
            &&& look.announcement == "Getting CDN custom domain "@ + name + " secret version"@
            &&& change.method == Method::Post
            &&& change.url == UrlView::PathAndQuery(
                path + "/enableCustomHttps?api-version=2018-04-02"@,
            )
            &&& change.announcement == "Setting CDN custom domain "@ + name + (" secret to "@ + secret
                + " ..."@)
            &&& change.body == Some(
                json::json_object(
                    seq![
                        ("certificateSource"@, json::json_string("AzureKeyVault"@)),
                        (
                            "certificateSourceParameters"@,
                            json::json_object(
                                seq![
                                    ("deleteRule"@, json::json_string("NoAction"@)),
                                    ("vaultName"@, json::json_string(key_vault_name)),
                                    (
                                        "@odata.type"@,
                                        json::json_string(
                                            "#Microsoft.Azure.Cdn.Models.KeyVaultCertificateSourceParameters"@,
                                        ),
                                    ),
                                    (
                                        "resourceGroupName"@,
                                        json::json_string(account.resource_group_name),
                                    ),
                                    ("secretName"@, json::json_string(secret_name)),
                                    ("secretVersion"@, json::json_string(secret_version)),
                                    ("subscriptionId"@, json::json_string(account.subscription_id)),
                                    ("updateRule"@, json::json_string("NoAction"@)),
                                ],
                            ),
                        ),
                        ("protocolType"@, json::json_string("ServerNameIndication"@)),
                    ],
                ),
            )
            &&& secret_set(
                profile,
                endpoint,
                domain,
                key_vault_name,
                secret_name,
                secret_version,
            ) == "Set CDN custom domain "@ + name + (" secret to "@ + secret + ""@)
        }),
{
    object_id::parts_are_separated_by_slashes(profile, endpoint, domain);
    object_id::parts_are_separated_by_slashes(key_vault_name, secret_name, secret_version);
}

/// A person who watches is told of the certificate that a custom domain has, or that it has none. It is
/// taken from a response with the status 200 alone.
pub proof fn the_certificate_that_is_found_is_told(
    profile: Seq<char>,
    endpoint: Seq<char>,
    domain: Seq<char>,
    secret: Option<(Seq<char>, Seq<char>)>,
    status: u16,
    body: Option<ResponseBody<Result<SecretGetResponse, String>>>,
    headers: ResponseHeaders,
    now: int,
)
    ensures
        secret_found(profile, endpoint, domain, secret) == "CDN custom domain "@ + (profile + seq!['/']
            + endpoint + seq!['/'] + domain) + match secret {
            Some((name, version)) => " has secret CustomDomainSecret { name: "@ + text::quoted(name)
                + ", version: "@ + text::quoted(version) + " }"@,
            None => " does not have HTTPS enabled"@,
        },
        SecretGetResponse::interpreted(status, body, headers, now) == if status == 200 {
            http_common::viewed(http_common::guarded_json_if(true, body))
        } else {
            Ok(None)
        },
{
    object_id::parts_are_separated_by_slashes(profile, endpoint, domain);
}

/// The body of a response counts where its status and its media type are the expected ones.
pub proof fn bodies_count_where_they_are_expected(status: u16, content_type: Seq<u8>, headers: ResponseHeaders)
    ensures
        <SecretGetResponse as FromResponse>::reads(status, content_type, headers)
            <==> status == 200 && http_common::is_json(content_type),
{
}

} // verus!
