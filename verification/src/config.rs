//! Configuration, fixed at startup: tenant identifier,
//! expected audience, required scope, and clock-skew tolerance; and the
//! fixed derivations from the tenant identifier — the discovery
//! document location and the two accepted issuer forms.

use vstd::prelude::*;
use vstd::string::StrSliceExecFns;
use vstd::string::StringExecFns;

verus! {

/// The legacy issuer form minted for a tenant.
pub open spec fn issuer_v1_spec(tenant: Seq<char>) -> Seq<char> {
    "https://sts.windows.net/"@ + tenant + "/"@
}

/// The current issuer form minted for a tenant.
pub open spec fn issuer_v2_spec(tenant: Seq<char>) -> Seq<char> {
    "https://login.microsoftonline.com/"@ + tenant + "/v2.0"@
}

/// Where the tenant's metadata document lives: the well-known suffix
/// appended to the provider base URL.
pub open spec fn discovery_url_spec(tenant: Seq<char>) -> Seq<char> {
    "https://login.microsoftonline.com/"@ + tenant + "/.well-known/openid-configuration"@
}

/// The audience derived from a client identifier by the fixed prefix
/// convention.
pub open spec fn audience_spec(client_id: Seq<char>) -> Seq<char> {
    "api://"@ + client_id
}

/// Read-only configuration shared by every validation.
#[derive(Debug)]
pub struct Config {
    /// The tenant whose tokens are accepted.
    pub tenant: String,
    /// The exact audience value a token must carry.
    pub audience: String,
    /// The scope name this endpoint demands, one whole token of `scp`.
    pub required_scope: String,
    /// Tolerated clock skew, in seconds; zero by default.
    pub clock_skew: u64,
}

impl Config {
    /// A usable configuration names a tenant and a space-free,
    /// nonempty required scope.
    pub open spec fn wf(&self) -> bool {
        &&& self.tenant@.len() >= 1
        &&& self.required_scope@.len() >= 1
        &&& !self.required_scope@.contains(' ')
    }

    /// Builds a configuration, rejecting an empty tenant, an empty
    /// required scope, and a required scope containing a space (such a
    /// name could never be one whole token of a scope claim).
    pub fn new(tenant: String, audience: String, required_scope: String, clock_skew: u64) -> (r:
        Option<Config>)
        ensures
            r matches Some(c) ==> c.wf() && c.tenant == tenant && c.audience == audience
                && c.required_scope == required_scope && c.clock_skew == clock_skew,
            r is None <==> !(tenant@.len() >= 1 && required_scope@.len() >= 1
                && !required_scope@.contains(' ')),
    {
        if tenant.as_str().unicode_len() == 0 {
            return None;
        }
        let k = required_scope.as_str().unicode_len();
        if k == 0 {
            return None;
        }
        let mut i: usize = 0;
        while i < k
            invariant
                k == required_scope@.len(),
                i <= k,
                forall|j: int| 0 <= j < i ==> required_scope@[j] != ' ',
            decreases k - i,
        {
            if required_scope.as_str().get_char(i) == ' ' {
                return None;
            }
            i += 1;
        }
        Some(Config { tenant, audience, required_scope, clock_skew })
    }

    /// The audience value for a client identifier, by the fixed prefix
    /// convention.
    pub fn audience_for_client(client_id: &str) -> (a: String)
        ensures
            a@ == audience_spec(client_id@),
    {
        let mut a = String::from_str("api://");
        a.append(client_id);
        a
    }

    /// The location of the tenant's metadata document.
    pub fn discovery_url(&self) -> (u: String)
        ensures
            u@ == discovery_url_spec(self.tenant@),
    {
        let mut u = String::from_str("https://login.microsoftonline.com/");
        u.append(self.tenant.as_str());
        u.append("/.well-known/openid-configuration");
        u
    }

    /// The legacy issuer form for this tenant.
    pub fn issuer_v1(&self) -> (u: String)
        ensures
            u@ == issuer_v1_spec(self.tenant@),
    {
        let mut u = String::from_str("https://sts.windows.net/");
        u.append(self.tenant.as_str());
        u.append("/");
        u
    }

    /// The current issuer form for this tenant.
    pub fn issuer_v2(&self) -> (u: String)
        ensures
            u@ == issuer_v2_spec(self.tenant@),
    {
        let mut u = String::from_str("https://login.microsoftonline.com/");
        u.append(self.tenant.as_str());
        u.append("/v2.0");
        u
    }
}

} // verus!
