//! The client configuration shared by every operation.

use vstd::prelude::*;
use crate::builder::opt_view;
use crate::error::AzureError;

verus! {

/// Settings that apply to every operation: whether to check the login before
/// each one, and which subscription to scope commands to (none means the
/// tool's own default).
#[derive(Debug, Clone)]
pub struct AzureClient {
    auto_check_auth: bool,
    subscription_id: Option<String>,
}

impl View for AzureClient {
    /// Whether the login is checked, and the chosen subscription.
    type V = (bool, Option<Seq<char>>);

    closed spec fn view(&self) -> (bool, Option<Seq<char>>) {
        (
            self.auto_check_auth,
            match self.subscription_id {
                Some(s) => Some(s@),
                None => None,
            },
        )
    }
}

impl AzureClient {
    /// A client that checks the login and uses the default subscription.
    pub fn new() -> (r: Result<Self, AzureError>)
        ensures
            r matches Ok(c) && c@ == (true, None::<Seq<char>>),
    {
        Ok(AzureClient { auto_check_auth: true, subscription_id: None })
    }

    /// A client that does not check the login before each operation.
    pub fn new_no_auth_check() -> (r: Self)
        ensures
            r@ == (false, None::<Seq<char>>),
    {
        AzureClient { auto_check_auth: false, subscription_id: None }
    }

    /// A client that checks the login and scopes commands to the given
    /// subscription.
    pub fn with_subscription(subscription_id: String) -> (r: Result<Self, AzureError>)
        ensures
            r matches Ok(c) && c@ == (true, Some(subscription_id@)),
    {
        Ok(AzureClient { auto_check_auth: true, subscription_id: Some(subscription_id) })
    }

    /// Scopes all later commands to the given subscription.
    pub fn use_subscription(&mut self, subscription_id: String)
        ensures
            final(self)@ == (old(self)@.0, Some(subscription_id@)),
    {
        self.subscription_id = Some(subscription_id);
    }

    /// Goes back to the tool's default subscription.
    pub fn clear_subscription(&mut self)
        ensures
            final(self)@ == (old(self)@.0, None::<Seq<char>>),
    {
        self.subscription_id = None;
    }

    /// The subscription that commands are scoped to, if any.
    pub fn get_subscription(&self) -> (r: Option<&str>)
        ensures
            opt_view(r) == self@.1,
    {
        match &self.subscription_id {
            Some(s) => Some(s.as_str()),
            None => None,
        }
    }

    /// Whether the installation and the login are checked before each
    /// operation.
    pub fn checks_authentication(&self) -> (r: bool)
        ensures
            r == self@.0,
    {
        self.auto_check_auth
    }

    /// The subscription for an operation that may name its own: the one
    /// named wins over the client's.
    pub fn subscription_for<'a>(&'a self, explicit: Option<&'a str>) -> (r: Option<&'a str>)
        ensures
            opt_view(r) == (if explicit is Some {
                opt_view(explicit)
            } else {
                self@.1
            }),
    {
        match explicit {
            Some(s) => Some(s),
            None => self.get_subscription(),
        }
    }
}

impl Default for AzureClient {
    fn default() -> (r: Self)
        ensures
            r@ == (true, None::<Seq<char>>),
    {
        AzureClient { auto_check_auth: true, subscription_id: None }
    }
}

} // verus!
