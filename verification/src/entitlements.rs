//! The entitlement tokens obtained from the local client.

use vstd::prelude::*;
use vstd::string::*;

verus! {

/// The two tokens every remote call authenticates with: the bearer
/// access token and the entitlements JWT.
#[derive(Debug, PartialEq)]
pub struct Config {
    pub token: String,
    pub jwt: String,
}

/// Mathematical view of the entitlement tokens.
pub ghost struct ConfigView {
    pub token: Seq<char>,
    pub jwt: Seq<char>,
}

impl View for Config {
    type V = ConfigView;

    open spec fn view(&self) -> ConfigView {
        ConfigView { token: self.token@, jwt: self.jwt@ }
    }
}

impl DeepView for Config {
    type V = ConfigView;

    open spec fn deep_view(&self) -> ConfigView {
        self.view()
    }
}

impl Clone for Config {
    fn clone(&self) -> (r: Self)
        ensures
            r@ == self@,
    {
        Config { token: self.token.clone(), jwt: self.jwt.clone() }
    }
}

} // verus!
