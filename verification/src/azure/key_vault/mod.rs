//! KeyVaults: keys and certificates.

use vstd::prelude::*;

use crate::azure;
use crate::azure::auth::AuthView;
use crate::azure::Auth;
use crate::error;
use crate::error::Error;
use crate::http_common;
use crate::http_common::{HeaderValue, Uri};
use crate::text;

pub mod certificate;
pub mod key;

pub use certificate::{Certificate, CreateCsrKeyType};
pub use key::{EcKty, Key};

verus! {

/// A client of a KeyVault.
#[derive(Debug)]
pub struct Client<'a> {
    key_vault_name: String,
    auth: &'a Auth,
    client: http_common::Client,
    authority: String,
    cached_authorization: Option<HeaderValue>,
}

/// What a client of a KeyVault is made of.
#[verifier::ext_equal]
pub struct ClientView {
    pub key_vault_name: Seq<char>,
    pub auth: AuthView,
    pub user_agent: Seq<u8>,
    pub cached_authorization: Option<Seq<u8>>,
}

impl<'a> View for Client<'a> {
    type V = ClientView;

    closed spec fn view(&self) -> ClientView {
        ClientView {
            key_vault_name: self.key_vault_name@,
            auth: self.auth@,
            user_agent: self.client@,
            cached_authorization: http_common::header_view(self.cached_authorization),
        }
    }
}

/// The authority of the URLs of a KeyVault.
pub open spec fn authority(key_vault_name: Seq<char>) -> Seq<char> {
    key_vault_name + ".vault.azure.net"@
}

impl<'a> Client<'a> {
    #[verifier::type_invariant]
    spec fn named(self) -> bool {
        self.authority@ == authority(self.key_vault_name@)
    }

    /// A client of the KeyVault with this name.
    pub fn new(key_vault_name: &str, auth: &'a Auth, user_agent: HeaderValue) -> (r: Result<
        Client<'a>,
        Error,
    >)
        ensures
            match http_common::authority_text(authority(key_vault_name@)) {
                Ok(_) => r matches Ok(client) && client@ == (ClientView {
                    key_vault_name: key_vault_name@,
                    auth: auth@,
                    user_agent: user_agent@,
                    cached_authorization: None,
                }),
                Err(err) => r matches Err(e) && e@ == error::in_context(
                    "could not construct URL authority"@,
                    error::message(err),
                ),
            },
    {
        let mut name = key_vault_name.to_owned();
        name.append(".vault.azure.net");
        match http_common::parse_authority(name.as_str()) {
            Ok(authority) => Ok(
                Client {
                    key_vault_name: key_vault_name.to_owned(),
                    auth,
                    client: http_common::Client::new(user_agent),
                    authority,
                    cached_authorization: None,
                },
            ),
            Err(err) => Err(Error::new(err.as_str()).context("could not construct URL authority")),
        }
    }

    /// The name of the KeyVault.
    pub fn key_vault_name(&self) -> (r: &str)
        ensures
            r@ == self@.key_vault_name,
    {
        self.key_vault_name.as_str()
    }
}

impl<'a> azure::Client for Client<'a> {
    open spec fn resource() -> Seq<char> {
        "https://vault.azure.net"@
    }

    open spec fn url_of(&self, path_and_query: Seq<char>) -> Result<Seq<char>, Seq<Seq<char>>> {
        azure::api_url(authority(self@.key_vault_name), path_and_query)
    }

    open spec fn parameters(&self) -> (AuthView, Seq<u8>) {
        (self@.auth, self@.user_agent)
    }

    open spec fn cached(&self) -> Option<Seq<u8>> {
        self@.cached_authorization
    }

    open spec fn same_but_authorization(&self, other: Client<'a>) -> bool {
        self@ == (ClientView { cached_authorization: self@.cached_authorization, ..other@ })
    }

    fn auth_resource() -> (r: &'static str) {
        "https://vault.azure.net"
    }

    /// The URL of something that the KeyVault offers, which is under its name.
    fn make_url(&self, path_and_query: &str) -> (r: Result<Uri, Error>)
        ensures
            r matches Ok(uri) ==> text::has_prefix(
                uri@,
                "https://"@ + authority(self@.key_vault_name),
            ),
    {
        proof {
            use_type_invariant(self);
        }
        azure::make_api_url(self.authority.as_str(), path_and_query)
    }

    fn request_parameters(&self) -> (r: (&Auth, &http_common::Client)) {
        (self.auth, &self.client)
    }

    fn cached_authorization(&self) -> (r: Option<HeaderValue>) {
        match &self.cached_authorization {
            Some(authorization) => Some(authorization.clone()),
            None => None,
        }
    }

    fn set_authorization(&mut self, authorization: HeaderValue) {
        proof {
            use_type_invariant(&*self);
        }
        if self.cached_authorization.is_none() {
            self.cached_authorization = Some(authorization);
        }
    }
}

/// Something that a KeyVault offers is at its path, at the authority that has the name of the KeyVault.
pub proof fn a_key_vault_is_at_its_own_authority(client: Client<'_>, path_and_query: Seq<char>)
    ensures
        <Client<'_> as azure::Client>::url_of(&client, path_and_query) == azure::api_url(
            client@.key_vault_name + ".vault.azure.net"@,
            path_and_query,
        ),
        <Client<'_> as azure::Client>::resource() == "https://vault.azure.net"@,
{
}

} // verus!
