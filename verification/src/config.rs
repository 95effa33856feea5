//! The configuration data model: one record per credential provider and
//! the root `Config` that the store persists as a whole.
//!
//! Every field is optional; an absent field means "not configured".
//! Each type has a mathematical view (`*V`) whose string fields are
//! sequences of characters, so that contracts can speak of the values
//! independently of allocation.

use vstd::prelude::*;

verus! {

/// Credentials for the GoDaddy DNS provider.
#[derive(Debug)]
pub struct GodaddyConfig {
    pub api_key: Option<String>,
    pub api_secret: Option<String>,
    pub environment: Option<String>,
}

/// Credentials for the Cloudflare DNS provider.
#[derive(Debug)]
pub struct CloudflareConfig {
    pub api_token: Option<String>,
}

/// Credentials for the Namecheap DNS provider.
#[derive(Debug)]
pub struct NamecheapConfig {
    pub api_user: Option<String>,
    pub api_key: Option<String>,
    pub client_ip: Option<String>,
}

/// Credentials for GitHub (source hosting, not a DNS provider).
#[derive(Debug)]
pub struct GithubConfig {
    pub token: Option<String>,
}

/// The root persisted entity: provider selection plus one optional
/// credential record per provider.
#[derive(Debug)]
pub struct Config {
    pub dns_provider: Option<String>,
    pub godaddy: Option<GodaddyConfig>,
    pub cloudflare: Option<CloudflareConfig>,
    pub namecheap: Option<NamecheapConfig>,
    pub github: Option<GithubConfig>,
}

/// Mathematical view of an optional string field.
pub open spec fn opt_str_view(o: Option<String>) -> Option<Seq<char>> {
    match o {
        Option::Some(s) => Option::Some(s@),
        Option::None => Option::None,
    }
}

pub ghost struct GodaddyV {
    pub api_key: Option<Seq<char>>,
    pub api_secret: Option<Seq<char>>,
    pub environment: Option<Seq<char>>,
}

pub ghost struct CloudflareV {
    pub api_token: Option<Seq<char>>,
}

pub ghost struct NamecheapV {
    pub api_user: Option<Seq<char>>,
    pub api_key: Option<Seq<char>>,
    pub client_ip: Option<Seq<char>>,
}

pub ghost struct GithubV {
    pub token: Option<Seq<char>>,
}

pub ghost struct ConfigV {
    pub dns_provider: Option<Seq<char>>,
    pub godaddy: Option<GodaddyV>,
    pub cloudflare: Option<CloudflareV>,
    pub namecheap: Option<NamecheapV>,
    pub github: Option<GithubV>,
}

impl View for GodaddyConfig {
    type V = GodaddyV;

    open spec fn view(&self) -> GodaddyV {
        GodaddyV {
            api_key: opt_str_view(self.api_key),
            api_secret: opt_str_view(self.api_secret),
            environment: opt_str_view(self.environment),
        }
    }
}

impl View for CloudflareConfig {
    type V = CloudflareV;

    open spec fn view(&self) -> CloudflareV {
        CloudflareV { api_token: opt_str_view(self.api_token) }
    }
}

impl View for NamecheapConfig {
    type V = NamecheapV;

    open spec fn view(&self) -> NamecheapV {
        NamecheapV {
            api_user: opt_str_view(self.api_user),
            api_key: opt_str_view(self.api_key),
            client_ip: opt_str_view(self.client_ip),
        }
    }
}

impl View for GithubConfig {
    type V = GithubV;

    open spec fn view(&self) -> GithubV {
        GithubV { token: opt_str_view(self.token) }
    }
}

/// Mathematical view of an optional provider record.
pub open spec fn opt_view<T: View>(o: Option<T>) -> Option<T::V> {
    match o {
        Option::Some(v) => Option::Some(v@),
        Option::None => Option::None,
    }
}

impl View for Config {
    type V = ConfigV;

    open spec fn view(&self) -> ConfigV {
        ConfigV {
            dns_provider: opt_str_view(self.dns_provider),
            godaddy: opt_view(self.godaddy),
            cloudflare: opt_view(self.cloudflare),
            namecheap: opt_view(self.namecheap),
            github: opt_view(self.github),
        }
    }
}

impl GodaddyV {
    /// The view of a GoDaddy record with every field absent.
    pub open spec fn all_absent() -> GodaddyV {
        GodaddyV { api_key: Option::None, api_secret: Option::None, environment: Option::None }
    }
}

impl CloudflareV {
    /// The view of a Cloudflare record with every field absent.
    pub open spec fn all_absent() -> CloudflareV {
        CloudflareV { api_token: Option::None }
    }
}

impl NamecheapV {
    /// The view of a Namecheap record with every field absent.
    pub open spec fn all_absent() -> NamecheapV {
        NamecheapV { api_user: Option::None, api_key: Option::None, client_ip: Option::None }
    }
}

impl GithubV {
    /// The view of a GitHub record with every field absent.
    pub open spec fn all_absent() -> GithubV {
        GithubV { token: Option::None }
    }
}

impl ConfigV {
    /// The view of a configuration with every field absent.
    pub open spec fn all_absent() -> ConfigV {
        ConfigV {
            dns_provider: Option::None,
            godaddy: Option::None,
            cloudflare: Option::None,
            namecheap: Option::None,
            github: Option::None,
        }
    }
}

impl Default for Config {
    /// A fresh configuration: every field absent.  This is what `load`
    /// yields when no config file exists yet.
    fn default() -> (r: Config)
        ensures
            r@ == ConfigV::all_absent(),
    {
        Config {
            dns_provider: Option::None,
            godaddy: Option::None,
            cloudflare: Option::None,
            namecheap: Option::None,
            github: Option::None,
        }
    }
}

/// Equality of optional string fields, decided value by value.
fn opt_str_eq(a: &Option<String>, b: &Option<String>) -> (r: bool)
    ensures
        r == (opt_str_view(*a) == opt_str_view(*b)),
{
    match (a, b) {
        (Option::Some(x), Option::Some(y)) => *x == *y,
        (Option::None, Option::None) => true,
        _ => false,
    }
}

impl PartialEq for GodaddyConfig {
    fn eq(&self, other: &Self) -> (r: bool) {
        opt_str_eq(&self.api_key, &other.api_key)
            && opt_str_eq(&self.api_secret, &other.api_secret)
            && opt_str_eq(&self.environment, &other.environment)
    }
}

impl vstd::std_specs::cmp::PartialEqSpecImpl for GodaddyConfig {
    open spec fn obeys_eq_spec() -> bool {
        true
    }

    open spec fn eq_spec(&self, other: &Self) -> bool {
        self@ == other@
    }
}

impl PartialEq for CloudflareConfig {
    fn eq(&self, other: &Self) -> (r: bool) {
        opt_str_eq(&self.api_token, &other.api_token)
    }
}

impl vstd::std_specs::cmp::PartialEqSpecImpl for CloudflareConfig {
    open spec fn obeys_eq_spec() -> bool {
        true
    }

    open spec fn eq_spec(&self, other: &Self) -> bool {
        self@ == other@
    }
}

impl PartialEq for NamecheapConfig {
    fn eq(&self, other: &Self) -> (r: bool) {
        opt_str_eq(&self.api_user, &other.api_user)
            && opt_str_eq(&self.api_key, &other.api_key)
            && opt_str_eq(&self.client_ip, &other.client_ip)
    }
}

impl vstd::std_specs::cmp::PartialEqSpecImpl for NamecheapConfig {
    open spec fn obeys_eq_spec() -> bool {
        true
    }

    open spec fn eq_spec(&self, other: &Self) -> bool {
        self@ == other@
    }
}

impl PartialEq for GithubConfig {
    fn eq(&self, other: &Self) -> (r: bool) {
        opt_str_eq(&self.token, &other.token)
    }
}

impl vstd::std_specs::cmp::PartialEqSpecImpl for GithubConfig {
    open spec fn obeys_eq_spec() -> bool {
        true
    }

    open spec fn eq_spec(&self, other: &Self) -> bool {
        self@ == other@
    }
}

/// Equality of optional GoDaddy records.
fn opt_godaddy_eq(a: &Option<GodaddyConfig>, b: &Option<GodaddyConfig>) -> (r: bool)
    ensures
        r == (opt_view(*a) == opt_view(*b)),
{
    match (a, b) {
        (Option::Some(x), Option::Some(y)) => x == y,
        (Option::None, Option::None) => true,
        _ => false,
    }
}

/// Equality of optional Cloudflare records.
fn opt_cloudflare_eq(a: &Option<CloudflareConfig>, b: &Option<CloudflareConfig>) -> (r: bool)
    ensures
        r == (opt_view(*a) == opt_view(*b)),
{
    match (a, b) {
        (Option::Some(x), Option::Some(y)) => x == y,
        (Option::None, Option::None) => true,
        _ => false,
    }
}

/// Equality of optional Namecheap records.
fn opt_namecheap_eq(a: &Option<NamecheapConfig>, b: &Option<NamecheapConfig>) -> (r: bool)
    ensures
        r == (opt_view(*a) == opt_view(*b)),
{
    match (a, b) {
        (Option::Some(x), Option::Some(y)) => x == y,
        (Option::None, Option::None) => true,
        _ => false,
    }
}

/// Equality of optional GitHub records.
fn opt_github_eq(a: &Option<GithubConfig>, b: &Option<GithubConfig>) -> (r: bool)
    ensures
        r == (opt_view(*a) == opt_view(*b)),
{
    match (a, b) {
        (Option::Some(x), Option::Some(y)) => x == y,
        (Option::None, Option::None) => true,
        _ => false,
    }
}

impl PartialEq for Config {
    fn eq(&self, other: &Self) -> (r: bool) {
        opt_str_eq(&self.dns_provider, &other.dns_provider)
            && opt_godaddy_eq(&self.godaddy, &other.godaddy)
            && opt_cloudflare_eq(&self.cloudflare, &other.cloudflare)
            && opt_namecheap_eq(&self.namecheap, &other.namecheap)
            && opt_github_eq(&self.github, &other.github)
    }
}

impl vstd::std_specs::cmp::PartialEqSpecImpl for Config {
    open spec fn obeys_eq_spec() -> bool {
        true
    }

    open spec fn eq_spec(&self, other: &Self) -> bool {
        self@ == other@
    }
}

} // verus!
