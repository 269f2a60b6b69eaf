//! Application settings: the layered configuration that every process loads, and the defaults
//! of the provider section.
use vstd::prelude::*;

verus! {

#[derive(Clone, Debug)]
pub struct Settings {
    pub environment: String,
    pub http: HttpSettings,
    pub database: DatabaseSettings,
    pub redis: RedisSettings,
    pub provider: ProviderSettings,
}

#[derive(Clone, Debug)]
pub struct HttpSettings {
    pub host: String,
    pub port: u16,
}

#[derive(Clone, Debug)]
pub struct DatabaseSettings {
    pub url: String,
    pub max_connections: u32,
}

#[derive(Clone, Debug)]
pub struct RedisSettings {
    pub url: String,
}

/// The provider section: the credential master key with its version, and the API base URLs.
#[derive(Clone, Debug)]
pub struct ProviderSettings {
    pub credential_master_key: String,
    pub credential_key_version: i32,
    pub cloudflare_base_url: String,
    pub vultr_base_url: String,
    pub ovh_base_url: String,
}

/// A provider section that is absent altogether: every field empty or zero.
impl Default for ProviderSettings {
    fn default() -> (r: ProviderSettings)
        ensures
            r.credential_master_key@.len() == 0,
            r.credential_key_version == 0,
            r.cloudflare_base_url@.len() == 0,
            r.vultr_base_url@.len() == 0,
            r.ovh_base_url@.len() == 0,
    {
        ProviderSettings {
            credential_master_key: String::new(),
            credential_key_version: 0,
            cloudflare_base_url: String::new(),
            vultr_base_url: String::new(),
            ovh_base_url: String::new(),
        }
    }
}

/// The key version when the provider section leaves it out.
pub fn default_key_version() -> (r: i32)
    ensures
        r == 1,
{
    1
}

/// The Cloudflare API when the provider section leaves it out.
pub fn default_cloudflare_base_url() -> (r: String)
    ensures
        r@ == "https://api.cloudflare.com/client/v4"@,
{
    "https://api.cloudflare.com/client/v4".to_owned()
}

/// The Vultr API when the provider section leaves it out.
pub fn default_vultr_base_url() -> (r: String)
    ensures
        r@ == "https://api.vultr.com/v2"@,
{
    "https://api.vultr.com/v2".to_owned()
}

/// The OVHcloud API (its European endpoint) when the provider section leaves it out.
pub fn default_ovh_base_url() -> (r: String)
    ensures
        r@ == "https://eu.api.ovh.com/1.0"@,
{
    "https://eu.api.ovh.com/1.0".to_owned()
}

/// The database pool of the administration utility: at most two connections.
pub fn admin_pool_size(configured: u32) -> (r: u32)
    ensures
        r == if configured < 2 {
            configured
        } else {
            2
        },
{
    if configured < 2 {
        configured
    } else {
        2
    }
}

} // verus!
