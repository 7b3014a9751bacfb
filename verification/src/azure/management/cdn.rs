//! The certificates of the custom domains of CDN endpoints.

use vstd::prelude::*;

use crate::acme::order;
use crate::azure::management::Client;
use crate::azure::{Call, CallView, Url, UrlView};
use crate::encoding;
use crate::error;
use crate::error::Error;
use crate::http_common;
use crate::http_common::{
    FromResponse, HeaderValue, Method, ResponseBody, ResponseHeaders, StatusCode, Uri,
};
use crate::json;
use crate::log2;
use crate::log2::object_id;
use crate::log2::{ObjectId, Report, Scope, ScopeView, ScopedObjectOperation, Shown};
use crate::text;
use crate::time2::Duration;

verus! {

/// Where the certificate of a custom domain comes from: a KeyVault, or the CDN itself.
#[derive(Debug)]
pub enum CustomDomainSecret {
    KeyVault(CustomDomainKeyVaultSecret),
    Cdn,
}

/// A certificate in a KeyVault.
#[derive(Debug)]
pub struct CustomDomainKeyVaultSecret {
    pub subscription_id: String,
    /// The resource group of the KeyVault. The CDN finds the KeyVault by its name alone, but insists
    /// on something here.
    pub resource_group: String,
    pub key_vault_name: String,
    pub secret_name: String,
    pub secret_version: String,
}

/// A certificate in a KeyVault.
#[verifier::ext_equal]
pub struct SecretView {
    pub subscription_id: Seq<char>,
    pub resource_group: Seq<char>,
    pub key_vault_name: Seq<char>,
    pub secret_name: Seq<char>,
    pub secret_version: Seq<char>,
}

/// Where the certificate of a custom domain comes from.
pub enum CustomDomainSecretView {
    KeyVault(SecretView),
    Cdn,
}

impl View for CustomDomainKeyVaultSecret {
    type V = SecretView;

    open spec fn view(&self) -> SecretView {
        SecretView {
            subscription_id: self.subscription_id@,
            resource_group: self.resource_group@,
            key_vault_name: self.key_vault_name@,
            secret_name: self.secret_name@,
            secret_version: self.secret_version@,
        }
    }
}

impl View for CustomDomainSecret {
    type V = CustomDomainSecretView;

    open spec fn view(&self) -> CustomDomainSecretView {
        match self {
            CustomDomainSecret::KeyVault(secret) => CustomDomainSecretView::KeyVault(secret@),
            CustomDomainSecret::Cdn => CustomDomainSecretView::Cdn,
        }
    }
}

/// The `Debug` form of a certificate in a KeyVault.
pub open spec fn secret_shown(secret: SecretView) -> Seq<char> {
    "CustomDomainKeyVaultSecret { subscription_id: "@ + text::quoted(secret.subscription_id)
        + ", resource_group: "@ + text::quoted(secret.resource_group) + ", key_vault_name: "@
        + text::quoted(secret.key_vault_name) + ", secret_name: "@ + text::quoted(
        secret.secret_name,
    ) + ", secret_version: "@ + text::quoted(secret.secret_version) + " }"@
}

impl CustomDomainKeyVaultSecret {
    /// Whether this is the same certificate as another.
    pub fn same_as(&self, other: &CustomDomainKeyVaultSecret) -> (r: bool)
        ensures
            r == (self@ == other@),
    {
        let r = text::str_eq(self.subscription_id.as_str(), other.subscription_id.as_str())
            && text::str_eq(self.resource_group.as_str(), other.resource_group.as_str())
            && text::str_eq(self.key_vault_name.as_str(), other.key_vault_name.as_str())
            && text::str_eq(self.secret_name.as_str(), other.secret_name.as_str())
            && text::str_eq(self.secret_version.as_str(), other.secret_version.as_str());
        assert(r ==> self@ =~= other@);
        r
    }

    /// The `Debug` form of the certificate.
    pub fn debug_text(&self) -> (r: String)
        ensures
            r@ == secret_shown(self@),
    {
        let mut r = "CustomDomainKeyVaultSecret { subscription_id: ".to_owned();
        r.append(text::quote(self.subscription_id.as_str()).as_str());
        r.append(", resource_group: ");
        r.append(text::quote(self.resource_group.as_str()).as_str());
        r.append(", key_vault_name: ");
        r.append(text::quote(self.key_vault_name.as_str()).as_str());
        r.append(", secret_name: ");
        r.append(text::quote(self.secret_name.as_str()).as_str());
        r.append(", secret_version: ");
        r.append(text::quote(self.secret_version.as_str()).as_str());
        r.append(" }");
        r
    }
}

/// How a custom domain gets its certificate, as the API describes it: the name of the source, the
/// parameters of the source, and how clients are told apart.
#[derive(Debug)]
pub struct HttpsParameters {
    pub certificate_source: String,
    /// The names and the values of the parameters that are texts.
    pub certificate_source_parameters: Option<Vec<(String, String)>>,
    pub protocol_type: Option<String>,
}

/// How a custom domain gets its certificate.
#[verifier::ext_equal]
pub struct HttpsParametersView {
    pub certificate_source: Seq<char>,
    pub certificate_source_parameters: Option<Seq<(Seq<char>, Seq<char>)>>,
    pub protocol_type: Option<Seq<char>>,
}

impl View for HttpsParameters {
    type V = HttpsParametersView;

    open spec fn view(&self) -> HttpsParametersView {
        HttpsParametersView {
            certificate_source: self.certificate_source@,
            certificate_source_parameters: match self.certificate_source_parameters {
                Some(parameters) => Some(encoding::text_pairs(parameters@)),
                None => None,
            },
            protocol_type: text::optional(self.protocol_type),
        }
    }
}

/// The members of an object whose values are texts.
pub open spec fn text_members(members: Seq<(Seq<char>, Seq<char>)>) -> Seq<(Seq<char>, Seq<char>)> {
    members.map_values(|m: (Seq<char>, Seq<char>)| (m.0, json::json_string(m.1)))
}

/// The JSON form of what makes a custom domain get its certificate from a source with parameters.
pub open spec fn https_json(
    certificate_source: Seq<char>,
    certificate_source_parameters: Seq<(Seq<char>, Seq<char>)>,
    protocol_type: Seq<char>,
) -> Seq<char> {
    json::json_object(
        seq![
            ("certificateSource"@, json::json_string(certificate_source)),
            (
                "certificateSourceParameters"@,
                json::json_object(text_members(certificate_source_parameters)),
            ),
            ("protocolType"@, json::json_string(protocol_type)),
        ],
    )
}

/// The parameters of a certificate in a KeyVault, as the source of a certificate.
pub open spec fn source_parameters(secret: SecretView) -> Seq<(Seq<char>, Seq<char>)> {
    seq![
        ("deleteRule"@, "NoAction"@),
        ("@odata.type"@, "#Microsoft.Azure.Cdn.Models.KeyVaultCertificateSourceParameters"@),
        ("updateRule"@, "NoAction"@),
        ("subscriptionId"@, secret.subscription_id),
        ("resourceGroupName"@, secret.resource_group),
        ("vaultName"@, secret.key_vault_name),
        ("secretName"@, secret.secret_name),
        ("secretVersion"@, secret.secret_version),
    ]
}

/// How a custom domain gets a certificate in a KeyVault.
pub open spec fn https_parameters(secret: SecretView) -> HttpsParametersView {
    HttpsParametersView {
        certificate_source: "AzureKeyVault"@,
        certificate_source_parameters: Some(source_parameters(secret)),
        protocol_type: Some("ServerNameIndication"@),
    }
}

/// What makes a custom domain use a certificate in a KeyVault.
pub open spec fn enable_https_json(secret: SecretView) -> Seq<char> {
    https_json("AzureKeyVault"@, source_parameters(secret), "ServerNameIndication"@)
}

/// Writes what makes a custom domain use a certificate in a KeyVault.
fn write_enable_https(secret: &CustomDomainKeyVaultSecret) -> (r: String)
    ensures
        r@ == enable_https_json(secret@),
{
    let parameters = vec![
        ("deleteRule", json::string("NoAction")),
        (
            "@odata.type",
            json::string("#Microsoft.Azure.Cdn.Models.KeyVaultCertificateSourceParameters"),
        ),
        ("updateRule", json::string("NoAction")),
        ("subscriptionId", json::string(secret.subscription_id.as_str())),
        ("resourceGroupName", json::string(secret.resource_group.as_str())),
        ("vaultName", json::string(secret.key_vault_name.as_str())),
        ("secretName", json::string(secret.secret_name.as_str())),
        ("secretVersion", json::string(secret.secret_version.as_str())),
    ];
    assert(json::members(parameters@) =~= text_members(source_parameters(secret@)));
    let fields = vec![
        ("certificateSource", json::string("AzureKeyVault")),
        ("certificateSourceParameters", json::object(&parameters)),
        ("protocolType", json::string("ServerNameIndication")),
    ];
    assert(json::members(fields@) =~= seq![
        ("certificateSource"@, json::json_string("AzureKeyVault"@)),
        (
            "certificateSourceParameters"@,
            json::json_object(text_members(source_parameters(secret@))),
        ),
        ("protocolType"@, json::json_string("ServerNameIndication"@)),
    ]);
    json::object(&fields)
}

/// The value of the last member with a name, where there is one.
pub open spec fn member(members: Seq<(Seq<char>, Seq<char>)>, name: Seq<char>) -> Option<Seq<char>>
    decreases members.len(),
{
    if members.len() == 0 {
        None
    } else if members.last().0 == name {
        Some(members.last().1)
    } else {
        member(members.drop_last(), name)
    }
}

/// What it means that a member is missing.
pub open spec fn missing(name: Seq<char>) -> Seq<Seq<char>> {
    error::message("missing field `"@ + name + "`"@)
}

/// The value of a member that has to be there.
pub open spec fn needed(members: Seq<(Seq<char>, Seq<char>)>, name: Seq<char>) -> Result<
    Seq<char>,
    Seq<Seq<char>>,
> {
    match member(members, name) {
        Some(value) => Ok(value),
        None => Err(missing(name)),
    }
}

/// The certificate in a KeyVault that the parameters of a source stand for. All of its parameters have to
/// be there, also those that say nothing about the certificate; the first that is not is an error.
pub open spec fn secret_read(parameters: Seq<(Seq<char>, Seq<char>)>) -> Result<
    SecretView,
    Seq<Seq<char>>,
> {
    match needed(parameters, "deleteRule"@) {
        Err(err) => Err(err),
        Ok(_) => match needed(parameters, "@odata.type"@) {
            Err(err) => Err(err),
            Ok(_) => match needed(parameters, "updateRule"@) {
                Err(err) => Err(err),
                Ok(_) => match (
                    needed(parameters, "subscriptionId"@),
                    needed(parameters, "resourceGroupName"@),
                    needed(parameters, "vaultName"@),
                    needed(parameters, "secretName"@),
                    needed(parameters, "secretVersion"@),
                ) {
                    (Err(err), _, _, _, _) => Err(err),
                    (_, Err(err), _, _, _) => Err(err),
                    (_, _, Err(err), _, _) => Err(err),
                    (_, _, _, Err(err), _) => Err(err),
                    (_, _, _, _, Err(err)) => Err(err),
                    (
                        Ok(subscription_id),
                        Ok(resource_group),
                        Ok(key_vault_name),
                        Ok(secret_name),
                        Ok(secret_version),
                    ) => Ok(
                        SecretView {
                            subscription_id,
                            resource_group,
                            key_vault_name,
                            secret_name,
                            secret_version,
                        },
                    ),
                },
            },
        },
    }
}

/// Where a custom domain gets its certificate from, as the API describes it.
pub open spec fn source_read(parameters: HttpsParametersView) -> Result<
    CustomDomainSecretView,
    Seq<Seq<char>>,
> {
    if parameters.certificate_source == "AzureKeyVault"@ {
        match parameters.certificate_source_parameters {
            None => Err(missing("certificateSourceParameters"@)),
            Some(source_parameters) => match secret_read(source_parameters) {
                Err(err) => Err(err),
                Ok(secret) => if parameters.protocol_type is None {
                    Err(missing("protocolType"@))
                } else {
                    Ok(CustomDomainSecretView::KeyVault(secret))
                },
            },
        }
    } else if parameters.certificate_source == "Cdn"@ {
        Ok(CustomDomainSecretView::Cdn)
    } else {
        Err(
            error::message(
                "unknown variant `"@ + parameters.certificate_source
                    + "`, expected `AzureKeyVault` or `Cdn`"@,
            ),
        )
    }
}

/// Finds a member that has to be there.
fn find_needed(members: &Vec<(String, String)>, name: &str) -> (r: Result<String, Error>)
    ensures
        error::result_view(r) == needed(encoding::text_pairs(members@), name@),
{
    let ghost all = encoding::text_pairs(members@);
    assert(all.take(all.len() as int) =~= all);
    let mut left = members.len();
    while left > 0
        invariant
            left <= members@.len(),
            all == encoding::text_pairs(members@),
            member(all.take(left as int), name@) == member(all, name@),
        decreases left,
    {
        assert(all.take(left as int).drop_last() =~= all.take(left - 1));
        assert(all.take(left as int).last() == all[left - 1]);
        if text::str_eq(members[left - 1].0.as_str(), name) {
            return Ok(members[left - 1].1.clone());
        }
        left = left - 1;
    }
    Err(missing_field(name))
}

/// The error that a member is missing.
fn missing_field(name: &str) -> (r: Error)
    ensures
        r@ == missing(name@),
{
    let mut err = "missing field `".to_owned();
    err.append(name);
    err.append("`");
    Error::new(err.as_str())
}

/// Reads the certificate in a KeyVault that the parameters of a source stand for.
fn read_secret(parameters: &Vec<(String, String)>) -> (r: Result<CustomDomainKeyVaultSecret, Error>)
    ensures
        error::result_view(r) == secret_read(encoding::text_pairs(parameters@)),
{
    let _ = find_needed(parameters, "deleteRule")?;
    let _ = find_needed(parameters, "@odata.type")?;
    let _ = find_needed(parameters, "updateRule")?;
    let subscription_id = find_needed(parameters, "subscriptionId")?;
    let resource_group = find_needed(parameters, "resourceGroupName")?;
    let key_vault_name = find_needed(parameters, "vaultName")?;
    let secret_name = find_needed(parameters, "secretName")?;
    let secret_version = find_needed(parameters, "secretVersion")?;
    Ok(
        CustomDomainKeyVaultSecret {
            subscription_id,
            resource_group,
            key_vault_name,
            secret_name,
            secret_version,
        },
    )
}

impl HttpsParameters {
    /// Where the custom domain gets its certificate from.
    pub fn read(&self) -> (r: Result<CustomDomainSecret, Error>)
        ensures
            error::result_view(r) == source_read(self@),
    {
        let source = self.certificate_source.as_str();
        if text::str_eq(source, "AzureKeyVault") {
            match &self.certificate_source_parameters {
                None => Err(missing_field("certificateSourceParameters")),
                Some(parameters) => match read_secret(parameters) {
                    Err(err) => Err(err),
                    Ok(secret) => {
                        if self.protocol_type.is_none() {
                            Err(missing_field("protocolType"))
                        } else {
                            Ok(CustomDomainSecret::KeyVault(secret))
                        }
                    },
                },
            }
        } else if text::str_eq(source, "Cdn") {
            Ok(CustomDomainSecret::Cdn)
        } else {
            let mut err = "unknown variant `".to_owned();
            err.append(source);
            err.append("`, expected `AzureKeyVault` or `Cdn`");
            Err(Error::new(err.as_str()))
        }
    }
}

/// A member whose name no other member has is found under its name.
proof fn lemma_member(members: Seq<(Seq<char>, Seq<char>)>, i: int)
    requires
        0 <= i < members.len(),
        forall|j: int| 0 <= j < members.len() && j != i ==> (#[trigger] members[j]).0 != members[i].0,
    ensures
        member(members, members[i].0) == Some(members[i].1),
    decreases members.len(),
{
    if i < members.len() - 1 {
        assert(members.last() == members[members.len() - 1]);
        lemma_member(members.drop_last(), i);
    }
}

/// What makes a custom domain use a certificate in a KeyVault is read as this certificate: whoever sets the
/// certificate of a custom domain, and is then told the same parameters, is told the certificate that was
/// set. A custom domain without parameters has no certificate, and one whose source is the CDN has one of
/// the CDN.
pub proof fn reading_undoes_setting(secret: SecretView, other: HttpsParametersView)
    requires
        other.certificate_source == "Cdn"@,
    ensures
        optional_source_read(Some(https_parameters(secret))) == Ok::<
            Option<CustomDomainSecretView>,
            Seq<Seq<char>>,
        >(Some(CustomDomainSecretView::KeyVault(secret))),
        optional_source_read(Some(other)) == Ok::<Option<CustomDomainSecretView>, Seq<Seq<char>>>(
            Some(CustomDomainSecretView::Cdn),
        ),
        optional_source_read(None) == Ok::<Option<CustomDomainSecretView>, Seq<Seq<char>>>(None),
        enable_https_json(secret) == https_json(
            https_parameters(secret).certificate_source,
            https_parameters(secret).certificate_source_parameters->0,
            https_parameters(secret).protocol_type->0,
        ),
{
    let members = source_parameters(secret);
    reveal_strlit("AzureKeyVault");
    reveal_strlit("Cdn");
    assert("Cdn"@.len() != "AzureKeyVault"@.len());
    reveal_strlit("deleteRule");
    reveal_strlit("@odata.type");
    reveal_strlit("updateRule");
    reveal_strlit("subscriptionId");
    reveal_strlit("resourceGroupName");
    reveal_strlit("vaultName");
    reveal_strlit("secretName");
    reveal_strlit("secretVersion");
    assert("deleteRule"@[0] == 'd');
    assert("updateRule"@[0] == 'u');
    assert("secretName"@[0] == 's');
    assert(forall|j: int| 0 <= j < 8 && j != 3 ==> (#[trigger] members[j]).0.len() != 14);
    assert(forall|j: int| 0 <= j < 8 && j != 4 ==> (#[trigger] members[j]).0.len() != 17);
    lemma_member(members, 0);
    lemma_member(members, 1);
    lemma_member(members, 2);
    lemma_member(members, 3);
    lemma_member(members, 4);
    lemma_member(members, 5);
    lemma_member(members, 6);
    lemma_member(members, 7);
}

/// The path of a custom domain of a CDN endpoint.
pub open spec fn custom_domain_path(
    cdn_profile_name: Seq<char>,
    cdn_endpoint_name: Seq<char>,
    cdn_custom_domain_name: Seq<char>,
    rest: Seq<char>,
) -> Seq<char> {
    "/providers/Microsoft.Cdn/profiles/"@ + cdn_profile_name + "/endpoints/"@ + cdn_endpoint_name
        + "/customDomains/"@ + cdn_custom_domain_name + rest
}

/// Writes the path of a custom domain of a CDN endpoint.
pub fn write_custom_domain_path(
    cdn_profile_name: &str,
    cdn_endpoint_name: &str,
    cdn_custom_domain_name: &str,
    rest: &str,
) -> (r: String)
    ensures
        r@ == custom_domain_path(
            cdn_profile_name@,
            cdn_endpoint_name@,
            cdn_custom_domain_name@,
            rest@,
        ),
{
    let mut r = "/providers/Microsoft.Cdn/profiles/".to_owned();
    r.append(cdn_profile_name);
    r.append("/endpoints/");
    r.append(cdn_endpoint_name);
    r.append("/customDomains/");
    r.append(cdn_custom_domain_name);
    r.append(rest);
    r
}

/// A look at the certificate of a custom domain.
pub open spec fn secret_get_call(
    cdn_profile_name: Seq<char>,
    cdn_endpoint_name: Seq<char>,
    cdn_custom_domain_name: Seq<char>,
) -> CallView {
    CallView {
        scope: ScopeView {
            object_type: "azure/cdn/custom_domain/secret"@,
            object_id: object_id::path3(
                cdn_profile_name,
                cdn_endpoint_name,
                cdn_custom_domain_name,
            ),
            operation: ScopedObjectOperation::Get,
        },
        method: Method::Get,
        url: UrlView::PathAndQuery(
            custom_domain_path(
                cdn_profile_name,
                cdn_endpoint_name,
                cdn_custom_domain_name,
                "?api-version=2019-12-31"@,
            ),
        ),
        body: None,
    }
}

/// A change of the certificate of a custom domain.
pub open spec fn secret_set_call(
    cdn_profile_name: Seq<char>,
    cdn_endpoint_name: Seq<char>,
    cdn_custom_domain_name: Seq<char>,
    secret: SecretView,
) -> CallView {
    CallView {
        scope: ScopeView {
            object_type: "azure/cdn/custom_domain/secret"@,
            object_id: object_id::path3(
                cdn_profile_name,
                cdn_endpoint_name,
                cdn_custom_domain_name,
            ),
            operation: ScopedObjectOperation::Create { value: secret_shown(secret) },
        },
        method: Method::Post,
        url: UrlView::PathAndQuery(
            custom_domain_path(
                cdn_profile_name,
                cdn_endpoint_name,
                cdn_custom_domain_name,
                "/enableCustomHttps?api-version=2019-12-31"@,
            ),
        ),
        body: Some(enable_https_json(secret)),
    }
}

impl<'a> Client<'a> {
    /// Looks at the certificate of a custom domain.
    pub fn cdn_custom_domain_secret_get(
        &self,
        cdn_profile_name: &str,
        cdn_endpoint_name: &str,
        cdn_custom_domain_name: &str,
    ) -> (r: Call)
        ensures
            r@ == secret_get_call(cdn_profile_name@, cdn_endpoint_name@, cdn_custom_domain_name@),
    {
        Call {
            scope: Scope::get(
                "azure/cdn/custom_domain/secret",
                ObjectId((cdn_profile_name, cdn_endpoint_name, cdn_custom_domain_name)).text(),
            ),
            method: Method::Get,
            url: Url::PathAndQuery(
                write_custom_domain_path(
                    cdn_profile_name,
                    cdn_endpoint_name,
                    cdn_custom_domain_name,
                    "?api-version=2019-12-31",
                ),
            ),
            body: None,
        }
    }

    /// Makes a custom domain use a certificate in a KeyVault. Each response goes to
    /// [`AsyncOperationResponse::follow`], until the change is complete.
    pub fn cdn_custom_domain_secret_set(
        &self,
        cdn_profile_name: &str,
        cdn_endpoint_name: &str,
        cdn_custom_domain_name: &str,
        custom_domain_key_vault_secret: &CustomDomainKeyVaultSecret,
    ) -> (r: Call)
        ensures
            r@ == secret_set_call(
                cdn_profile_name@,
                cdn_endpoint_name@,
                cdn_custom_domain_name@,
                custom_domain_key_vault_secret@,
            ),
    {
        Call {
            scope: Scope::create(
                "azure/cdn/custom_domain/secret",
                ObjectId((cdn_profile_name, cdn_endpoint_name, cdn_custom_domain_name)).text(),
                custom_domain_key_vault_secret.debug_text(),
            ),
            method: Method::Post,
            url: Url::PathAndQuery(
                write_custom_domain_path(
                    cdn_profile_name,
                    cdn_endpoint_name,
                    cdn_custom_domain_name,
                    "/enableCustomHttps?api-version=2019-12-31",
                ),
            ),
            body: Some(write_enable_https(custom_domain_key_vault_secret)),
        }
    }
}

/// The certificate of a custom domain, where it has one.
#[derive(Debug)]
pub struct SecretGetResponse {
    pub secret: Option<CustomDomainSecret>,
}

impl View for SecretGetResponse {
    type V = Option<CustomDomainSecretView>;

    open spec fn view(&self) -> Option<CustomDomainSecretView> {
        match self.secret {
            Some(secret) => Some(secret@),
            None => None,
        }
    }
}

/// The certificate of a custom domain, as the API describes it, where it has one.
pub open spec fn optional_source_read(parameters: Option<HttpsParametersView>) -> Result<
    Option<CustomDomainSecretView>,
    Seq<Seq<char>>,
> {
    match parameters {
        Some(parameters) => match source_read(parameters) {
            Ok(secret) => Ok(Some(secret)),
            Err(err) => Err(err),
        },
        None => Ok(None),
    }
}

impl SecretGetResponse {
    /// The certificate of a custom domain, as the API describes it, where it has one.
    pub fn from_parameters(parameters: Option<HttpsParameters>) -> (r: Result<
        SecretGetResponse,
        Error,
    >)
        ensures
            error::result_view(r) == optional_source_read(
                match parameters {
                    Some(parameters) => Some(parameters@),
                    None => None,
                },
            ),
    {
        match parameters {
            Some(parameters) => match parameters.read() {
                Ok(secret) => Ok(SecretGetResponse { secret: Some(secret) }),
                Err(err) => Err(err),
            },
            None => Ok(SecretGetResponse { secret: None }),
        }
    }
}

impl Shown for SecretGetResponse {
    open spec fn shown(value: Option<CustomDomainSecretView>) -> Seq<char> {
        log2::optional_shown(
            match value {
                Some(CustomDomainSecretView::KeyVault(secret)) => Some(
                    "KeyVault("@ + secret_shown(secret) + ")"@,
                ),
                Some(CustomDomainSecretView::Cdn) => Some("Cdn"@),
                None => None,
            },
        )
    }

    fn show(&self) -> (r: String) {
        let secret = match &self.secret {
            Some(CustomDomainSecret::KeyVault(secret)) => {
                let mut r = "KeyVault(".to_owned();
                r.append(secret.debug_text().as_str());
                r.append(")");
                Some(r)
            },
            Some(CustomDomainSecret::Cdn) => Some("Cdn".to_owned()),
            None => None,
        };
        log2::show_optional(secret)
    }
}

impl FromResponse for SecretGetResponse {
    type Content = Result<SecretGetResponse, String>;

    open spec fn interpreted(
        status: u16,
        body: Option<ResponseBody<Result<SecretGetResponse, String>>>,
        headers: ResponseHeaders,
        now: int,
    ) -> Result<Option<Option<CustomDomainSecretView>>, Seq<Seq<char>>> {
        http_common::viewed(http_common::guarded_json_if(status == 200, body))
    }

    fn from_response(
        status: StatusCode,
        body: Option<ResponseBody<Result<SecretGetResponse, String>>>,
        headers: &ResponseHeaders,
        now: i128,
    ) -> (r: Result<Option<SecretGetResponse>, Error>) {
        http_common::expect_guarded_json(status.as_u16() == 200, body)
    }

    open spec fn reads(status: u16, content_type: Seq<u8>, headers: ResponseHeaders) -> bool {
        status == 200 && http_common::is_json(content_type)
    }

    fn reads_body(
        status: StatusCode,
        content_type: &HeaderValue,
        headers: &ResponseHeaders,
    ) -> (r: bool) {
        status.as_u16() == 200 && http_common::has_json_type(content_type)
    }

    proof fn unread_does_not_matter(
        status: u16,
        content_type: HeaderValue,
        in_one_piece: bool,
        one: Result<SecretGetResponse, String>,
        other: Result<SecretGetResponse, String>,
        headers: ResponseHeaders,
        now: int,
    ) {
    }
}

/// How far a change of the certificate of a custom domain has come.
#[derive(Debug)]
pub enum AsyncOperationResponse {
    /// It is complete.
    Complete,
    /// It goes on; there is more to hear about it later.
    Accepted { location: Uri, retry_after: Duration },
}

/// How far a change of the certificate of a custom domain has come.
pub enum AsyncOperationView {
    Complete,
    Accepted { location: Seq<char>, retry_after: nat },
}

impl View for AsyncOperationResponse {
    type V = AsyncOperationView;

    open spec fn view(&self) -> AsyncOperationView {
        match self {
            AsyncOperationResponse::Complete => AsyncOperationView::Complete,
            AsyncOperationResponse::Accepted { location, retry_after } =>
                AsyncOperationView::Accepted { location: location@, retry_after: retry_after@ },
        }
    }
}

impl FromResponse for AsyncOperationResponse {
    type Content = ();

    open spec fn interpreted(
        status: u16,
        body: Option<ResponseBody<()>>,
        headers: ResponseHeaders,
        now: int,
    ) -> Result<Option<AsyncOperationView>, Seq<Seq<char>>> {
        if status == 200 {
            Ok(Some(AsyncOperationView::Complete))
        } else if status == 202 {
            match (
                http_common::location(http_common::header_view(headers.location)),
                order::wait_of(headers, now),
            ) {
                (Err(err), _) => Err(err),
                (Ok(_), Err(err)) => Err(err),
                (Ok(location), Ok(retry_after)) => Ok(
                    Some(AsyncOperationView::Accepted { location, retry_after }),
                ),
            }
        } else {
            Ok(None)
        }
    }

    fn from_response(
        status: StatusCode,
        body: Option<ResponseBody<()>>,
        headers: &ResponseHeaders,
        now: i128,
    ) -> (r: Result<Option<AsyncOperationResponse>, Error>) {
        let code: u16 = status.as_u16();
        if code == 200 {
            return Ok(Some(AsyncOperationResponse::Complete));
        }
        if code != 202 {
            return Ok(None);
        }
        match http_common::get_location(headers) {
            Err(err) => Err(err),
            Ok(location) => match order::get_wait(headers, now) {
                Err(err) => Err(err),
                Ok(retry_after) => Ok(
                    Some(AsyncOperationResponse::Accepted { location, retry_after }),
                ),
            },
        }
    }

    open spec fn reads(status: u16, content_type: Seq<u8>, headers: ResponseHeaders) -> bool {
        false
    }

    fn reads_body(
        status: StatusCode,
        content_type: &HeaderValue,
        headers: &ResponseHeaders,
    ) -> (r: bool) {
        false
    }

    proof fn unread_does_not_matter(
        status: u16,
        content_type: HeaderValue,
        in_one_piece: bool,
        one: (),
        other: (),
        headers: ResponseHeaders,
        now: int,
    ) {
    }
}

/// Another look at a change that goes on: after a while, which is reported, a request is made, which is
/// reported too.
#[derive(Debug)]
pub struct AsyncOperationPoll {
    pub waiting: Report<String>,
    pub retry_after: Duration,
    pub checking: Report<String>,
    pub method: Method,
    pub url: Url,
    pub body: Option<String>,
}

/// What another look at a change that goes on consists of.
pub struct OperationPollView {
    pub waiting: Report<Seq<char>>,
    pub retry_after: nat,
    pub checking: Report<Seq<char>>,
    pub method: Method,
    pub url: UrlView,
    pub body: Option<Seq<char>>,
}

/// Another look at a change that goes on. It only asks, and sends nothing.
pub open spec fn operation_poll(location: Seq<char>, retry_after: nat) -> OperationPollView {
    OperationPollView {
        waiting: order::waiting(retry_after, " before rechecking async operation..."@),
        retry_after,
        checking: Report::Message { message: "Checking async operation "@ + location + " ..."@ },
        method: Method::Get,
        url: UrlView::Uri(location),
        body: None,
    }
}

impl View for AsyncOperationPoll {
    type V = OperationPollView;

    open spec fn view(&self) -> OperationPollView {
        OperationPollView {
            waiting: self.waiting@,
            retry_after: self.retry_after@,
            checking: self.checking@,
            method: self.method,
            url: self.url@,
            body: text::optional(self.body),
        }
    }
}

impl AsyncOperationResponse {
    /// The next look at the change, where it goes on.
    pub fn follow(self) -> (r: Option<AsyncOperationPoll>)
        ensures
            match self@ {
                AsyncOperationView::Complete => r is None,
                AsyncOperationView::Accepted { location, retry_after } => r matches Some(poll)
                    && poll@ == operation_poll(location, retry_after),
            },
    {
        match self {
            AsyncOperationResponse::Complete => None,
            AsyncOperationResponse::Accepted { location, retry_after } => {
                let mut checking = "Checking async operation ".to_owned();
                checking.append(location.as_str());
                checking.append(" ...");
                Some(
                    AsyncOperationPoll {
                        waiting: order::report_waiting(
                            retry_after,
                            " before rechecking async operation...",
                        ),
                        retry_after,
                        checking: log2::message_report(checking),
                        method: Method::Get,
                        url: Url::Uri(location),
                        body: None,
                    },
                )
            },
        }
    }
}

/// The looks at a change that some responses lead to: one for each, up to the first that says that the change
/// is complete.
pub open spec fn polls(responses: Seq<AsyncOperationView>) -> Seq<OperationPollView>
    decreases responses.len(),
{
    if responses.len() == 0 {
        seq![]
    } else {
        match responses[0] {
            AsyncOperationView::Complete => seq![],
            AsyncOperationView::Accepted { location, retry_after } => seq![
                operation_poll(location, retry_after),
            ] + polls(responses.skip(1)),
        }
    }
}

/// A change is asked for once: what follows only asks how far the change has come, each time at the URL and
/// after the time that the last response gave, and nothing follows once the change is complete.
pub proof fn a_change_is_made_once(responses: Seq<AsyncOperationView>)
    ensures
        polls(responses).len() <= responses.len(),
        forall|i: int|
            #![trigger polls(responses)[i]]
            0 <= i < polls(responses).len() ==> {
                let poll = polls(responses)[i];
                &&& poll.method == Method::Get
                &&& poll.body is None
                &&& responses[i] matches AsyncOperationView::Accepted { location, retry_after }
                    && poll.url == UrlView::Uri(location) && poll.retry_after == retry_after
            },
        forall|i: int|
            0 <= i < responses.len() && #[trigger] responses[i] is Complete
                ==> polls(responses).len() <= i,
    decreases responses.len(),
{
    if responses.len() > 0 {
        match responses[0] {
            AsyncOperationView::Complete => {},
            AsyncOperationView::Accepted { location, retry_after } => {
                let rest = responses.skip(1);
                a_change_is_made_once(rest);
                assert forall|i: int|
                    #![trigger polls(responses)[i]]
                    0 <= i < polls(responses).len() implies {
                    let poll = polls(responses)[i];
                    &&& poll.method == Method::Get
                    &&& poll.body is None
                    &&& responses[i] matches AsyncOperationView::Accepted { location, retry_after }
                        && poll.url == UrlView::Uri(location) && poll.retry_after == retry_after
                } by {
                    if i > 0 {
                        assert(polls(responses)[i] == polls(rest)[i - 1]);
                        assert(rest[i - 1] == responses[i]);
                    }
                }
                assert forall|i: int|
                    0 <= i < responses.len() && #[trigger] responses[i] is Complete implies polls(
                    responses,
                ).len() <= i by {
                    assert(rest[i - 1] == responses[i]);
                }
            },
        }
    }
}

/// A custom domain is looked at by its path, and is told by POST to use a certificate in a KeyVault: the
/// one with the given name and version, in the given KeyVault, group and subscription. The two requests are
/// about the same custom domain.
pub proof fn a_custom_domain_is_told_its_certificate(
    profile: Seq<char>,
    endpoint: Seq<char>,
    domain: Seq<char>,
    secret: SecretView,
)
    ensures
        ({
            let look = secret_get_call(profile, endpoint, domain);
            let change = secret_set_call(profile, endpoint, domain, secret);
            let path = "/providers/Microsoft.Cdn/profiles/"@ + profile + "/endpoints/"@ + endpoint
                + "/customDomains/"@ + domain;
            &&& look.method == Method::Get
            &&& look.url == UrlView::PathAndQuery(path + "?api-version=2019-12-31"@)
            &&& look.body is None
            &&& look.scope.object_type == "azure/cdn/custom_domain/secret"@
            &&& look.scope.object_id == profile + seq!['/'] + endpoint + seq!['/'] + domain
            &&& look.scope.operation is Get
            &&& change.method == Method::Post
            &&& change.url == UrlView::PathAndQuery(
                path + "/enableCustomHttps?api-version=2019-12-31"@,
            )
            &&& change.scope.object_type == look.scope.object_type
            &&& change.scope.object_id == look.scope.object_id
            &&& change.scope.operation == (ScopedObjectOperation::<Seq<char>>::Create {
                value: secret_shown(secret),
            })
            &&& change.body == Some(
                json::json_object(
                    seq![
                        ("certificateSource"@, json::json_string("AzureKeyVault"@)),
                        (
                            "certificateSourceParameters"@,
                            json::json_object(
                                seq![
                                    ("deleteRule"@, json::json_string("NoAction"@)),
                                    (
                                        "@odata.type"@,
                                        json::json_string(
                                            "#Microsoft.Azure.Cdn.Models.KeyVaultCertificateSourceParameters"@,
                                        ),
                                    ),
                                    ("updateRule"@, json::json_string("NoAction"@)),
                                    ("subscriptionId"@, json::json_string(secret.subscription_id)),
                                    ("resourceGroupName"@, json::json_string(secret.resource_group)),
                                    ("vaultName"@, json::json_string(secret.key_vault_name)),
                                    ("secretName"@, json::json_string(secret.secret_name)),
                                    ("secretVersion"@, json::json_string(secret.secret_version)),
                                ],
                            ),
                        ),
                        ("protocolType"@, json::json_string("ServerNameIndication"@)),
                    ],
                ),
            )
        }),
{
    object_id::parts_are_separated_by_slashes(profile, endpoint, domain);
    assert(text_members(source_parameters(secret)) =~= seq![
        ("deleteRule"@, json::json_string("NoAction"@)),
        (
            "@odata.type"@,
            json::json_string("#Microsoft.Azure.Cdn.Models.KeyVaultCertificateSourceParameters"@),
        ),
        ("updateRule"@, json::json_string("NoAction"@)),
        ("subscriptionId"@, json::json_string(secret.subscription_id)),
        ("resourceGroupName"@, json::json_string(secret.resource_group)),
        ("vaultName"@, json::json_string(secret.key_vault_name)),
        ("secretName"@, json::json_string(secret.secret_name)),
        ("secretVersion"@, json::json_string(secret.secret_version)),
    ]);
}

/// A member is found under its name, the last one where there are several, and is missing where there is
/// none.
pub proof fn the_last_member_counts(
    members: Seq<(Seq<char>, Seq<char>)>,
    name: Seq<char>,
    other: Seq<char>,
    value: Seq<char>,
)
    ensures
        needed(members.push((name, value)), name) == Ok::<Seq<char>, Seq<Seq<char>>>(value),
        name != other ==> needed(members.push((name, value)), other) == needed(members, other),
        needed(Seq::<(Seq<char>, Seq<char>)>::empty(), name) == Err::<Seq<char>, Seq<Seq<char>>>(
            seq!["missing field `"@ + name + "`"@],
        ),
{
    assert(members.push((name, value)).drop_last() =~= members);
}

/// A source is read as the certificate that its parameters name if all of them are there, and else the
/// first that is missing is an error; a source that nobody knows is an error too.
pub proof fn a_source_is_read_whole(parameters: HttpsParametersView)
    ensures
        parameters.certificate_source == "AzureKeyVault"@ ==> match parameters.certificate_source_parameters {
            Some(members) => {
                let read = source_read(parameters);
                &&& read matches Ok(CustomDomainSecretView::KeyVault(secret))
                    ==> needed(members, "deleteRule"@) is Ok && needed(members, "@odata.type"@) is Ok
                    && needed(members, "updateRule"@) is Ok && needed(members, "subscriptionId"@) == Ok::<
                    Seq<char>,
                    Seq<Seq<char>>,
                >(secret.subscription_id) && needed(members, "resourceGroupName"@) == Ok::<
                    Seq<char>,
                    Seq<Seq<char>>,
                >(secret.resource_group) && needed(members, "vaultName"@) == Ok::<
                    Seq<char>,
                    Seq<Seq<char>>,
                >(secret.key_vault_name) && needed(members, "secretName"@) == Ok::<
                    Seq<char>,
                    Seq<Seq<char>>,
                >(secret.secret_name) && needed(members, "secretVersion"@) == Ok::<
                    Seq<char>,
                    Seq<Seq<char>>,
                >(secret.secret_version) && parameters.protocol_type is Some
                &&& !(read matches Ok(CustomDomainSecretView::Cdn))
                &&& read is Err <==> needed(members, "deleteRule"@) is Err || needed(
                    members,
                    "@odata.type"@,
                ) is Err || needed(members, "updateRule"@) is Err || needed(
                    members,
                    "subscriptionId"@,
                ) is Err || needed(members, "resourceGroupName"@) is Err || needed(
                    members,
                    "vaultName"@,
                ) is Err || needed(members, "secretName"@) is Err || needed(
                    members,
                    "secretVersion"@,
                ) is Err || parameters.protocol_type is None
            },
            None => source_read(parameters) == Err::<CustomDomainSecretView, Seq<Seq<char>>>(
                seq!["missing field `"@ + "certificateSourceParameters"@ + "`"@],
            ),
        },
        parameters.certificate_source != "AzureKeyVault"@ && parameters.certificate_source != "Cdn"@
            ==> source_read(parameters) == Err::<CustomDomainSecretView, Seq<Seq<char>>>(
            seq![
                "unknown variant `"@ + parameters.certificate_source
                    + "`, expected `AzureKeyVault` or `Cdn`"@,
            ],
        ),
{
}

/// A change is complete with the status 200, and goes on with 202, where the response says where and when
/// there is more to hear about it. Anything else is no answer. A certificate is told of with the status 200
/// alone.
pub proof fn a_change_is_complete_or_goes_on(
    status: u16,
    nothing: Option<ResponseBody<()>>,
    found: Option<ResponseBody<Result<SecretGetResponse, String>>>,
    headers: ResponseHeaders,
    now: int,
)
    ensures
        ({
            let read = AsyncOperationResponse::interpreted(status, nothing, headers, now);
            if status == 200 {
                read matches Ok(Some(AsyncOperationView::Complete))
            } else if status == 202 {
                match http_common::location(http_common::header_view(headers.location)) {
                    Ok(location) => match order::wait_of(headers, now) {
                        Ok(retry_after) => read == Ok::<Option<AsyncOperationView>, Seq<Seq<char>>>(
                            Some(AsyncOperationView::Accepted { location, retry_after }),
                        ),
                        Err(err) => read == Err::<Option<AsyncOperationView>, Seq<Seq<char>>>(err),
                    },
                    Err(err) => read == Err::<Option<AsyncOperationView>, Seq<Seq<char>>>(err),
                }
            } else {
                read == Ok::<Option<AsyncOperationView>, Seq<Seq<char>>>(None)
            }
        }),
        SecretGetResponse::interpreted(status, found, headers, now) == if status == 200 {
            http_common::viewed(http_common::guarded_json_if(true, found))
        } else {
            Ok(None)
        },
{
}

/// A change that goes on is looked at where the last response said, and after the time that it said, and a
/// person who watches is told so.
pub proof fn a_change_is_looked_at_again(location: Seq<char>, retry_after: nat)
    ensures
        ({
            let poll = operation_poll(location, retry_after);
            &&& poll.method == Method::Get
            &&& poll.url == UrlView::Uri(location)
            &&& poll.body is None
            &&& poll.retry_after == retry_after
            &&& poll.waiting == (Report::<Seq<char>>::Message {
                message: "Waiting for "@ + crate::time2::shown(retry_after)
                    + " before rechecking async operation..."@,
            })
            &&& poll.checking == (Report::<Seq<char>>::Message {
                message: "Checking async operation "@ + location + " ..."@,
            })
        }),
{
}

/// A certificate of a custom domain is shown with all that names it.
pub proof fn a_secret_is_shown_by_its_name(secret: SecretView)
    ensures
        ({
            let shown = "CustomDomainKeyVaultSecret { subscription_id: "@ + text::quoted(
                secret.subscription_id,
            ) + ", resource_group: "@ + text::quoted(secret.resource_group) + ", key_vault_name: "@
                + text::quoted(secret.key_vault_name) + ", secret_name: "@ + text::quoted(
                secret.secret_name,
            ) + ", secret_version: "@ + text::quoted(secret.secret_version) + " }"@;
            &&& secret_shown(secret) == shown
            &&& <SecretGetResponse as Shown>::shown(Some(CustomDomainSecretView::KeyVault(secret)))
                == "Some("@ + ("KeyVault("@ + shown + ")"@) + ")"@
            &&& <SecretGetResponse as Shown>::shown(Some(CustomDomainSecretView::Cdn)) == "Some("@ + "Cdn"@
                + ")"@
            &&& <SecretGetResponse as Shown>::shown(None) == "None"@
        }),
{
}

/// The body of a response counts where its status and its media type are the expected ones.
pub proof fn bodies_count_where_they_are_expected(status: u16, content_type: Seq<u8>, headers: ResponseHeaders)
    ensures
        <SecretGetResponse as FromResponse>::reads(status, content_type, headers)
            <==> status == 200 && http_common::is_json(content_type),
        <AsyncOperationResponse as FromResponse>::reads(status, content_type, headers) <==> false,
{
}

} // verus!
