//! The resource manager: DNS zones, CDN endpoints and Log Analytics workspaces.

use vstd::prelude::*;

use crate::azure;
use crate::azure::auth::AuthView;
use crate::azure::Auth;
use crate::error::Error;
use crate::http_common;
use crate::http_common::{HeaderValue, Uri};
use crate::text;

pub mod cdn;
pub mod dns;
pub mod log_analytics;

verus! {

/// A client of the resource manager, for the resources of one resource group.
#[derive(Debug)]
pub struct Client<'a> {
    subscription_id: String,
    resource_group_name: String,
    auth: &'a Auth,
    client: http_common::Client,
    cached_authorization: Option<HeaderValue>,
}

/// What a client of the resource manager is made of.
#[verifier::ext_equal]
pub struct ClientView {
    pub subscription_id: Seq<char>,
    pub resource_group_name: Seq<char>,
    pub auth: AuthView,
    pub user_agent: Seq<u8>,
    pub cached_authorization: Option<Seq<u8>>,
}

impl<'a> View for Client<'a> {
    type V = ClientView;

    closed spec fn view(&self) -> ClientView {
        ClientView {
            subscription_id: self.subscription_id@,
            resource_group_name: self.resource_group_name@,
            auth: self.auth@,
            user_agent: self.client@,
            cached_authorization: http_common::header_view(self.cached_authorization),
        }
    }
}

/// The path of something in a resource group.
pub open spec fn group_path(
    subscription_id: Seq<char>,
    resource_group_name: Seq<char>,
    path_and_query: Seq<char>,
) -> Seq<char> {
    "/subscriptions/"@ + subscription_id + "/resourceGroups/"@ + resource_group_name
        + path_and_query
}

impl<'a> Client<'a> {
    /// A client for the resources of a resource group.
    pub fn new(
        subscription_id: &str,
        resource_group_name: &str,
        auth: &'a Auth,
        user_agent: HeaderValue,
    ) -> (r: Client<'a>)
        ensures
            r@ == (ClientView {
                subscription_id: subscription_id@,
                resource_group_name: resource_group_name@,
                auth: auth@,
                user_agent: user_agent@,
                cached_authorization: None,
            }),
    {
        Client {
            subscription_id: subscription_id.to_owned(),
            resource_group_name: resource_group_name.to_owned(),
            auth,
            client: http_common::Client::new(user_agent),
            cached_authorization: None,
        }
    }

    /// The subscription that the resource group belongs to.
    pub fn subscription_id(&self) -> (r: &str)
        ensures
            r@ == self@.subscription_id,
    {
        self.subscription_id.as_str()
    }

    /// The name of the resource group.
    pub fn resource_group_name(&self) -> (r: &str)
        ensures
            r@ == self@.resource_group_name,
    {
        self.resource_group_name.as_str()
    }
}

impl<'a> azure::Client for Client<'a> {
    open spec fn resource() -> Seq<char> {
        "https://management.azure.com"@
    }

    open spec fn url_of(&self, path_and_query: Seq<char>) -> Result<Seq<char>, Seq<Seq<char>>> {
        azure::api_url(
            "management.azure.com"@,
            group_path(self@.subscription_id, self@.resource_group_name, path_and_query),
        )
    }

    open spec fn parameters(&self) -> (AuthView, Seq<u8>) {
        (self@.auth, self@.user_agent)
    }

    open spec fn cached(&self) -> Option<Seq<u8>> {
        self@.cached_authorization
    }

    open spec fn same_but_authorization(&self, other: Client<'a>) -> bool {
        self@ == (ClientView { cached_authorization: self@.cached_authorization, ..other@ })
    }

    fn auth_resource() -> (r: &'static str) {
        "https://management.azure.com"
    }

    fn make_url(&self, path_and_query: &str) -> (r: Result<Uri, Error>)
        ensures
            r matches Ok(uri) ==> text::has_prefix(
                uri@,
                "https://"@ + "management.azure.com"@,
            ),
    {
        let mut path = "/subscriptions/".to_owned();
        path.append(self.subscription_id.as_str());
        path.append("/resourceGroups/");
        path.append(self.resource_group_name.as_str());
        path.append(path_and_query);
        azure::make_api_url("management.azure.com", path.as_str())
    }

    fn request_parameters(&self) -> (r: (&Auth, &http_common::Client)) {
        (self.auth, &self.client)
    }

    fn cached_authorization(&self) -> (r: Option<HeaderValue>) {
        match &self.cached_authorization {
            Some(authorization) => Some(authorization.clone()),
            None => None,
        }
    }

    fn set_authorization(&mut self, authorization: HeaderValue) {
        if self.cached_authorization.is_none() {
            self.cached_authorization = Some(authorization);
        }
    }
}

/// Something in a resource group is at its path below the group and its subscription, at the resource
/// manager.
pub proof fn resources_are_below_their_group(client: Client<'_>, path_and_query: Seq<char>)
    ensures
        <Client<'_> as azure::Client>::url_of(&client, path_and_query) == azure::api_url(
            "management.azure.com"@,
            "/subscriptions/"@ + client@.subscription_id + "/resourceGroups/"@
                + client@.resource_group_name + path_and_query,
        ),
        <Client<'_> as azure::Client>::resource() == "https://management.azure.com"@,
{
}

} // verus!
