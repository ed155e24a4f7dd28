use vstd::prelude::*;

use crate::apply::{plan_of, Apply};
use crate::configuration::Configuration;

verus! {

/// The hosting providers a site can be published to.
#[derive(Debug, Clone, Copy, PartialEq, Eq, Structural)]
pub enum HostingProvider {
    CloudflarePages,
    LocalStatic,
    S3Static,
    CriomosHost,
}

/// Where a site is hosted.
#[derive(Debug, Clone, Copy)]
pub struct Hosting {
    pub provider: HostingProvider,
}

impl Hosting {
    /// The apply run that publishing `configuration` takes on this provider.
    /// Cloudflare Pages drives the provider tool through every step; the other
    /// providers have nothing to run yet and succeed at once.
    pub fn apply(&self, configuration: Configuration) -> (r: Option<Apply>)
        ensures
            r is Some <==> self.provider == HostingProvider::CloudflarePages,
            r matches Some(a) ==> {
                &&& a.spec_configuration() == configuration@
                &&& a.plan() == plan_of(configuration@)
                &&& a.position() == 0
                &&& a.failure() is None
            },
    {
        match self.provider {
            HostingProvider::CloudflarePages => Some(Apply::from_configuration(configuration)),
            HostingProvider::LocalStatic => None,
            HostingProvider::S3Static => None,
            HostingProvider::CriomosHost => None,
        }
    }
}

} // verus!
