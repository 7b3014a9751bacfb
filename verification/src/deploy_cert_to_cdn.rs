//! Makes a CDN endpoint use the latest certificate of a KeyVault.

use vstd::prelude::*;

use crate::azure::management::cdn;
use crate::azure::management::cdn::{
    CustomDomainKeyVaultSecret, CustomDomainSecret, CustomDomainSecretView, SecretView,
};
use crate::azure::management::Client;
use crate::azure::Call;
use crate::error;
use crate::error::Error;
use crate::text;

verus! {

/// Whether this function serves a path.
pub fn handles(path: &str) -> (r: bool)
    ensures
        r == (path@ == "deploy-cert-to-cdn"@),
{
    text::str_eq(path, "deploy-cert-to-cdn")
}

/// The settings of the deployment.
#[derive(Debug)]
pub struct Settings {
    /// The name of the Azure resource group of the CDN.
    pub azure_cdn_resource_group_name: String,
    /// The name of the CDN profile.
    pub azure_cdn_profile_name: String,
    /// The name of the CDN endpoint in the profile.
    pub azure_cdn_endpoint_name: String,
    /// The name of the custom domain of the endpoint.
    pub azure_cdn_custom_domain_name: String,
    /// The name of the Azure resource group of the KeyVault.
    pub azure_key_vault_resource_group_name: String,
    /// The name of the KeyVault.
    pub azure_key_vault_name: String,
    /// The name of the certificate in the KeyVault.
    pub azure_key_vault_certificate_name: String,
}

/// What has been found so far of the version of the certificate in the KeyVault, and of the secret
/// that the CDN uses. They are looked for at the same time.
#[derive(Debug)]
pub enum Lookup<S> {
    Neither,
    Version(String),
    Secret(Option<S>),
}

/// What has been found so far.
pub enum LookupView<V> {
    Neither,
    Version(Seq<char>),
    Secret(Option<V>),
}

/// The view of an optional secret.
pub open spec fn optional_view<S: View>(secret: Option<S>) -> Option<S::V> {
    match secret {
        Some(secret) => Some(secret@),
        None => None,
    }
}

impl<S: View> View for Lookup<S> {
    type V = LookupView<S::V>;

    open spec fn view(&self) -> LookupView<S::V> {
        match self {
            Lookup::Neither => LookupView::Neither,
            Lookup::Version(version) => LookupView::Version(version@),
            Lookup::Secret(secret) => LookupView::Secret(optional_view(*secret)),
        }
    }
}

/// What a lookup comes to when one more thing has been found.
#[derive(Debug)]
pub enum Found<S> {
    /// The other thing is still looked for.
    Wait(Lookup<S>),
    /// There is no certificate. The secret does not matter then.
    NoCertificate,
    Both { version: String, secret: Option<S> },
}

/// What a lookup comes to when one more thing has been found.
pub enum FoundView<V> {
    Wait(LookupView<V>),
    NoCertificate,
    Both { version: Seq<char>, secret: Option<V> },
}

impl<S: View> View for Found<S> {
    type V = FoundView<S::V>;

    open spec fn view(&self) -> FoundView<S::V> {
        match self {
            Found::Wait(lookup) => FoundView::Wait(lookup@),
            Found::NoCertificate => FoundView::NoCertificate,
            Found::Both { version, secret } => FoundView::Both {
                version: version@,
                secret: optional_view(*secret),
            },
        }
    }
}

/// The view of what was found.
pub open spec fn found_view<S: View>(found: Result<Option<S>, Error>) -> Result<
    Option<S::V>,
    Seq<Seq<char>>,
> {
    match found {
        Ok(found) => Ok(optional_view(found)),
        Err(err) => Err(err@),
    }
}

/// A lookup after the certificate, with a version, has been found or not.
pub open spec fn with_certificate<V>(
    lookup: LookupView<V>,
    version: Result<Option<Seq<char>>, Seq<Seq<char>>>,
) -> Result<FoundView<V>, Seq<Seq<char>>> {
    match version {
        Err(err) => Err(err),
        Ok(None) => Ok(FoundView::NoCertificate),
        Ok(Some(version)) => Ok(
            match lookup {
                LookupView::Secret(secret) => FoundView::Both { version, secret },
                _ => FoundView::Wait(LookupView::Version(version)),
            },
        ),
    }
}

/// A lookup after the secret has been found or not.
pub open spec fn with_secret<V>(
    lookup: LookupView<V>,
    secret: Result<Option<V>, Seq<Seq<char>>>,
) -> Result<FoundView<V>, Seq<Seq<char>>> {
    match secret {
        Err(err) => Err(err),
        Ok(secret) => Ok(
            match lookup {
                LookupView::Version(version) => FoundView::Both { version, secret },
                _ => FoundView::Wait(LookupView::Secret(secret)),
            },
        ),
    }
}

impl<S: View> Lookup<S> {
    /// Goes on after the certificate, with a version, has been found or not.
    pub fn certificate_received(self, version: Result<Option<String>, Error>) -> (r: Result<
        Found<S>,
        Error,
    >)
        ensures
            error::result_view(r) == with_certificate(self@, found_view(version)),
    {
        match version {
            Err(err) => Err(err),
            Ok(None) => Ok(Found::NoCertificate),
            Ok(Some(version)) => Ok(
                match self {
                    Lookup::Secret(secret) => Found::Both { version, secret },
                    _ => Found::Wait(Lookup::Version(version)),
                },
            ),
        }
    }

    /// Goes on after the secret has been found or not.
    pub fn secret_received(self, secret: Result<Option<S>, Error>) -> (r: Result<Found<S>, Error>)
        ensures
            error::result_view(r) == with_secret(self@, found_view(secret)),
    {
        match secret {
            Err(err) => Err(err),
            Ok(secret) => Ok(
                match self {
                    Lookup::Version(version) => Found::Both { version, secret },
                    _ => Found::Wait(Lookup::Secret(secret)),
                },
            ),
        }
    }
}

/// What is said where there is no certificate.
pub const NOTHING_TO_DO: &'static str = "Nothing to do.";

/// What is to be done about the CDN.
#[derive(Debug)]
pub struct Deployment {
    /// What is said about it.
    pub message: &'static str,
    /// The certificate that the CDN is made to use, unless it uses it already.
    pub secret: Option<CustomDomainKeyVaultSecret>,
}

/// What is to be done about the CDN.
#[verifier::ext_equal]
pub struct DeploymentView {
    pub message: Seq<char>,
    pub secret: Option<SecretView>,
}

impl View for Deployment {
    type V = DeploymentView;

    open spec fn view(&self) -> DeploymentView {
        DeploymentView { message: self.message@, secret: optional_view(self.secret) }
    }
}

/// The certificate that the CDN should use, where the KeyVault has a certificate of a version.
pub open spec fn expected_secret(
    azure_subscription_id: Seq<char>,
    settings: Settings,
    version: Seq<char>,
) -> SecretView {
    SecretView {
        subscription_id: azure_subscription_id,
        resource_group: settings.azure_key_vault_resource_group_name@,
        key_vault_name: settings.azure_key_vault_name@,
        secret_name: settings.azure_key_vault_certificate_name@,
        secret_version: version,
    }
}

/// What is to be done about a CDN that should use `expected`, and uses `actual`.
pub open spec fn deployment(
    expected: SecretView,
    actual: Option<CustomDomainSecretView>,
) -> DeploymentView {
    match actual {
        Some(CustomDomainSecretView::KeyVault(actual)) if actual == expected => DeploymentView {
            message: "CDN is up-to-date."@,
            secret: None,
        },
        Some(CustomDomainSecretView::Cdn) => DeploymentView {
            message: "CDN-managed cert will be replaced by user-managed cert."@,
            secret: Some(expected),
        },
        _ => DeploymentView {
            message: "User-managed cert will be deployed."@,
            secret: Some(expected),
        },
    }
}

impl Deployment {
    /// What is to be done about a CDN that uses `actual`, where the KeyVault has a certificate of a
    /// version.
    pub fn new(
        azure_subscription_id: &str,
        settings: &Settings,
        version: String,
        actual: &Option<CustomDomainSecret>,
    ) -> (r: Deployment)
        ensures
            r@ == deployment(
                expected_secret(azure_subscription_id@, *settings, version@),
                optional_view(*actual),
            ),
    {
        let expected = CustomDomainKeyVaultSecret {
            subscription_id: azure_subscription_id.to_owned(),
            resource_group: settings.azure_key_vault_resource_group_name.clone(),
            key_vault_name: settings.azure_key_vault_name.clone(),
            secret_name: settings.azure_key_vault_certificate_name.clone(),
            secret_version: version,
        };
        match actual {
            Some(CustomDomainSecret::KeyVault(actual)) => {
                if expected.same_as(actual) {
                    Deployment { message: "CDN is up-to-date.", secret: None }
                } else {
                    Deployment {
                        message: "User-managed cert will be deployed.",
                        secret: Some(expected),
                    }
                }
            },
            Some(CustomDomainSecret::Cdn) => Deployment {
                message: "CDN-managed cert will be replaced by user-managed cert.",
                secret: Some(expected),
            },
            None => Deployment {
                message: "User-managed cert will be deployed.",
                secret: Some(expected),
            },
        }
    }
}

/// Looks at the certificate that the CDN uses.
pub fn lookup(client: &Client<'_>, settings: &Settings) -> (r: Call)
    ensures
        r@ == cdn::secret_get_call(
            settings.azure_cdn_profile_name@,
            settings.azure_cdn_endpoint_name@,
            settings.azure_cdn_custom_domain_name@,
        ),
{
    client.cdn_custom_domain_secret_get(
        settings.azure_cdn_profile_name.as_str(),
        settings.azure_cdn_endpoint_name.as_str(),
        settings.azure_cdn_custom_domain_name.as_str(),
    )
}

impl Deployment {
    /// What makes the CDN of the settings use the certificate, unless it uses it already.
    pub fn change(&self, client: &Client<'_>, settings: &Settings) -> (r: Option<Call>)
        ensures
            optional_view(r) == (match self@.secret {
                Some(secret) => Some(
                    cdn::secret_set_call(
                        settings.azure_cdn_profile_name@,
                        settings.azure_cdn_endpoint_name@,
                        settings.azure_cdn_custom_domain_name@,
                        secret,
                    ),
                ),
                None => None,
            }),
    {
        match &self.secret {
            Some(secret) => Some(
                client.cdn_custom_domain_secret_set(
                    settings.azure_cdn_profile_name.as_str(),
                    settings.azure_cdn_endpoint_name.as_str(),
                    settings.azure_cdn_custom_domain_name.as_str(),
                    secret,
                ),
            ),
            None => None,
        }
    }
}

/// Whether the certificate or the secret is found first does not matter.
pub proof fn the_order_does_not_matter<V>(version: Seq<char>, secret: Option<V>)
    ensures
        ({
            let certificate_first = with_certificate(
                LookupView::<V>::Neither,
                Ok::<Option<Seq<char>>, Seq<Seq<char>>>(Some(version)),
            );
            let secret_first = with_secret(
                LookupView::<V>::Neither,
                Ok::<Option<V>, Seq<Seq<char>>>(secret),
            );
            let both = Ok::<FoundView<V>, Seq<Seq<char>>>(FoundView::Both { version, secret });
            &&& certificate_first matches Ok(FoundView::Wait(lookup)) && with_secret(
                lookup,
                Ok::<Option<V>, Seq<Seq<char>>>(secret),
            ) == both
            &&& secret_first matches Ok(FoundView::Wait(lookup)) && with_certificate(
                lookup,
                Ok::<Option<Seq<char>>, Seq<Seq<char>>>(Some(version)),
            ) == both
        }),
{
}

/// The CDN is changed if and only if it does not use the expected certificate; and once it has been
/// changed to what it is to use, it is left alone.
pub proof fn the_cdn_is_changed_once(
    expected: SecretView,
    actual: Option<CustomDomainSecretView>,
)
    ensures
        deployment(expected, actual).secret is None <==> actual == Some(
            CustomDomainSecretView::KeyVault(expected),
        ),
        deployment(expected, actual).secret matches Some(secret) ==> secret == expected
            && deployment(expected, Some(CustomDomainSecretView::KeyVault(secret))).secret is None,
{
}

/// The CDN is to use the certificate of the settings in the version that was found, and a person who watches
/// is told whether it does already, whether a certificate of the CDN is replaced, or whether the certificate
/// is deployed.
pub proof fn the_certificate_of_the_settings_is_deployed(
    subscription_id: Seq<char>,
    settings: Settings,
    version: Seq<char>,
    expected: SecretView,
    actual: Option<CustomDomainSecretView>,
)
    ensures
        expected_secret(subscription_id, settings, version) == (SecretView {
            subscription_id,
            resource_group: settings.azure_key_vault_resource_group_name@,
            key_vault_name: settings.azure_key_vault_name@,
            secret_name: settings.azure_key_vault_certificate_name@,
            secret_version: version,
        }),
        deployment(expected, actual).message == match actual {
            Some(CustomDomainSecretView::KeyVault(found)) => if found == expected {
                "CDN is up-to-date."@
            } else {
                "User-managed cert will be deployed."@
            },
            Some(CustomDomainSecretView::Cdn) =>
                "CDN-managed cert will be replaced by user-managed cert."@,
            None => "User-managed cert will be deployed."@,
        },
{
}

/// What goes wrong with either lookup is the error of both, and without a certificate the secret does not
/// matter.
pub proof fn a_lookup_needs_a_certificate<V>(lookup: LookupView<V>, err: Seq<Seq<char>>)
    ensures
        with_certificate(lookup, Err(err)) == Err::<FoundView<V>, Seq<Seq<char>>>(err),
        with_secret(lookup, Err(err)) == Err::<FoundView<V>, Seq<Seq<char>>>(err),
        with_certificate(lookup, Ok(None)) == Ok::<FoundView<V>, Seq<Seq<char>>>(
            FoundView::NoCertificate,
        ),
{
}

} // verus!
