//! An Azure account: the resources of one resource group.

use vstd::prelude::*;

use crate::azure::management;
use crate::azure::Auth;
use crate::http_common::HeaderValue;

verus! {

/// An Azure account.
#[derive(Debug)]
pub struct Account<'a> {
    management: management::Client<'a>,
}

impl<'a> View for Account<'a> {
    type V = management::ClientView;

    closed spec fn view(&self) -> management::ClientView {
        self.management@
    }
}

impl<'a> Account<'a> {
    /// An account with the resources of a resource group.
    pub fn new(
        subscription_id: &str,
        resource_group_name: &str,
        auth: &'a Auth,
        user_agent: HeaderValue,
    ) -> (r: Account<'a>)
        ensures
            r@ == (management::ClientView {
                subscription_id: subscription_id@,
                resource_group_name: resource_group_name@,
                auth: auth@,
                user_agent: user_agent@,
                cached_authorization: None,
            }),
    {
        Account {
            management: management::Client::new(
                subscription_id,
                resource_group_name,
                auth,
                user_agent,
            ),
        }
    }

    /// The client of the resource manager.
    pub fn management(&self) -> (r: &management::Client<'a>)
        ensures
            r@ == self@,
    {
        &self.management
    }

    /// The client of the resource manager.
    pub fn into_management(self) -> (r: management::Client<'a>)
        ensures
            r@ == self@,
    {
        self.management
    }
}

} // verus!
