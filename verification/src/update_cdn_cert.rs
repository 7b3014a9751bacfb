//! Makes a CDN endpoint use the latest certificate of a KeyVault in the same resource group.

use vstd::prelude::*;

use crate::azure::auth::Auth;
use crate::azure::cdn;
use crate::azure::cdn::{AnnouncedCall, AnnouncedCallView, CustomDomainSecret};
use crate::azure::management::ClientView;
use crate::azure::Account;
use crate::deploy_cert_to_cdn;
use crate::deploy_cert_to_cdn::{FoundView, LookupView};
use crate::http_common::HeaderValue;
use crate::text;

verus! {

/// Whether this function serves a path.
pub fn handles(path: &str) -> (r: bool)
    ensures
        r == (path@ == "update-cdn-cert"@),
{
    text::str_eq(path, "update-cdn-cert")
}

/// The settings of the update.
#[derive(Debug)]
pub struct Settings {
    /// The Azure subscription ID.
    pub azure_subscription_id: String,
    /// The name of the Azure resource group.
    pub azure_resource_group_name: String,
    /// The name of the CDN profile.
    pub azure_cdn_profile_name: String,
    /// The name of the CDN endpoint in the profile.
    pub azure_cdn_endpoint_name: String,
    /// The name of the custom domain of the endpoint.
    pub azure_cdn_custom_domain_name: String,
    /// The name of the KeyVault.
    pub azure_key_vault_name: String,
    /// The name of the certificate in the KeyVault.
    pub azure_key_vault_certificate_name: String,
}

/// Whether a CDN uses a version of a certificate.
pub open spec fn is_current(
    certificate_name: Seq<char>,
    version: Seq<char>,
    actual: Option<(Seq<char>, Seq<char>)>,
) -> bool {
    actual == Some((certificate_name, version))
}

/// Whether a CDN that uses `actual` has to be made to use a version of the certificate. If not, there
/// is [nothing to do](deploy_cert_to_cdn::NOTHING_TO_DO).
pub fn is_outdated(settings: &Settings, version: &str, actual: &Option<CustomDomainSecret>) -> (r:
    bool)
    ensures
        r == !is_current(
            settings.azure_key_vault_certificate_name@,
            version@,
            deploy_cert_to_cdn::optional_view(*actual),
        ),
{
    match actual {
        Some(actual) => !(text::str_eq(
            actual.name.as_str(),
            settings.azure_key_vault_certificate_name.as_str(),
        ) && text::str_eq(actual.version.as_str(), version)),
        None => true,
    }
}

/// Opens the account of the settings.
pub fn open_account<'a>(settings: &Settings, auth: &'a Auth, user_agent: HeaderValue) -> (r: Account<
    'a,
>)
    ensures
        r@ == (ClientView {
            subscription_id: settings.azure_subscription_id@,
            resource_group_name: settings.azure_resource_group_name@,
            auth: auth@,
            user_agent: user_agent@,
            cached_authorization: None,
        }),
{
    Account::new(
        settings.azure_subscription_id.as_str(),
        settings.azure_resource_group_name.as_str(),
        auth,
        user_agent,
    )
}

/// Looks at the certificate that the CDN uses.
pub fn lookup(account: &Account<'_>, settings: &Settings) -> (r: AnnouncedCall)
    ensures
        r@ == cdn::secret_get_call(
            settings.azure_cdn_profile_name@,
            settings.azure_cdn_endpoint_name@,
            settings.azure_cdn_custom_domain_name@,
        ),
{
    account.cdn_custom_domain_secret_get(
        settings.azure_cdn_profile_name.as_str(),
        settings.azure_cdn_endpoint_name.as_str(),
        settings.azure_cdn_custom_domain_name.as_str(),
    )
}

/// What makes a CDN that uses `actual` use a version of the certificate, with what is said when it does.
/// There is nothing to be done if the CDN uses that version.
pub open spec fn update(
    account: ClientView,
    settings: Settings,
    version: Seq<char>,
    actual: Option<(Seq<char>, Seq<char>)>,
) -> Option<(AnnouncedCallView, Seq<char>)> {
    if is_current(settings.azure_key_vault_certificate_name@, version, actual) {
        None
    } else {
        Some(
            (
                cdn::secret_set_call(
                    account,
                    settings.azure_cdn_profile_name@,
                    settings.azure_cdn_endpoint_name@,
                    settings.azure_cdn_custom_domain_name@,
                    settings.azure_key_vault_name@,
                    settings.azure_key_vault_certificate_name@,
                    version,
                ),
                cdn::secret_set(
                    settings.azure_cdn_profile_name@,
                    settings.azure_cdn_endpoint_name@,
                    settings.azure_cdn_custom_domain_name@,
                    settings.azure_key_vault_name@,
                    settings.azure_key_vault_certificate_name@,
                    version,
                ),
            ),
        )
    }
}

/// Makes a CDN that uses `actual` use a version of the certificate. If there is nothing to be done, that
/// is [said](deploy_cert_to_cdn::NOTHING_TO_DO).
pub fn change(
    account: &Account<'_>,
    settings: &Settings,
    version: &str,
    actual: &Option<CustomDomainSecret>,
) -> (r: Option<(AnnouncedCall, String)>)
    ensures
        (match r {
            Some((call, conclusion)) => Some((call@, conclusion@)),
            None => None,
        }) == update(
            account@,
            *settings,
            version@,
            deploy_cert_to_cdn::optional_view(*actual),
        ),
{
    if !is_outdated(settings, version, actual) {
        return None;
    }
    let change = account.cdn_custom_domain_secret_set(
        settings.azure_cdn_profile_name.as_str(),
        settings.azure_cdn_endpoint_name.as_str(),
        settings.azure_cdn_custom_domain_name.as_str(),
        settings.azure_key_vault_name.as_str(),
        settings.azure_key_vault_certificate_name.as_str(),
        version,
    );
    Some(change)
}

/// What an update comes to, where looking for the certificate gave `version`, and looking at the CDN gave
/// `actual`: what makes the CDN use the certificate, if there is one and the CDN does not use it.
pub open spec fn concluded(
    account: ClientView,
    settings: Settings,
    found: Result<FoundView<(Seq<char>, Seq<char>)>, Seq<Seq<char>>>,
) -> Option<(AnnouncedCallView, Seq<char>)> {
    match found {
        Ok(FoundView::Both { version, secret }) => update(account, settings, version, secret),
        _ => None,
    }
}

/// The CDN is changed if and only if there is a certificate, and the CDN does not use the certificate of
/// that name in that version; and it is then made to use the certificate of the settings, in that version,
/// whichever of the two is found first. Once it uses it, it is left alone.
pub proof fn the_latest_certificate_is_used(
    account: ClientView,
    settings: Settings,
    version: Option<Seq<char>>,
    actual: Option<(Seq<char>, Seq<char>)>,
)
    ensures
        ({
            let name = settings.azure_key_vault_certificate_name@;
            let certificate = Ok::<Option<Seq<char>>, Seq<Seq<char>>>(version);
            let secret = Ok::<Option<(Seq<char>, Seq<char>)>, Seq<Seq<char>>>(actual);
            let expected = match version {
                Some(version) if !is_current(name, version, actual) => update(
                    account,
                    settings,
                    version,
                    actual,
                ),
                _ => None,
            };
            let certificate_first = match deploy_cert_to_cdn::with_certificate(
                LookupView::Neither,
                certificate,
            ) {
                Ok(FoundView::Wait(lookup)) => deploy_cert_to_cdn::with_secret(lookup, secret),
                found => found,
            };
            let secret_first = match deploy_cert_to_cdn::with_secret(LookupView::Neither, secret) {
                Ok(FoundView::Wait(lookup)) => deploy_cert_to_cdn::with_certificate(
                    lookup,
                    certificate,
                ),
                found => found,
            };
            &&& concluded(account, settings, certificate_first) == expected
            &&& concluded(account, settings, secret_first) == expected
            &&& expected is Some <==> (version matches Some(version) && !is_current(
                name,
                version,
                actual,
            ))
            &&& version matches Some(version) ==> update(
                account,
                settings,
                version,
                Some((name, version)),
            ) is None
        }),
{
}

/// The CDN is left alone if and only if it uses the certificate of the settings in the version that was
/// found; else the custom domain of the settings is told to use that certificate in that version, and a
/// person who watches is told so.
pub proof fn the_certificate_of_the_settings_is_used(
    account: ClientView,
    settings: Settings,
    version: Seq<char>,
    actual: Option<(Seq<char>, Seq<char>)>,
)
    ensures
        ({
            let name = settings.azure_key_vault_certificate_name@;
            let current = actual matches Some((actual_name, actual_version)) && actual_name == name
                && actual_version == version;
            &&& is_current(name, version, actual) == current
            &&& update(account, settings, version, actual) == if current {
                None
            } else {
                Some(
                    (
                        cdn::secret_set_call(
                            account,
                            settings.azure_cdn_profile_name@,
                            settings.azure_cdn_endpoint_name@,
                            settings.azure_cdn_custom_domain_name@,
                            settings.azure_key_vault_name@,
                            name,
                            version,
                        ),
                        cdn::secret_set(
                            settings.azure_cdn_profile_name@,
                            settings.azure_cdn_endpoint_name@,
                            settings.azure_cdn_custom_domain_name@,
                            settings.azure_key_vault_name@,
                            name,
                            version,
                        ),
                    ),
                )
            }
        }),
{
}

} // verus!
