//! Configs of the portal and block-explorer apps, for the whole ecosystem and
//! for each chain.

use vstd::prelude::*;
use vstd::string::*;
use crate::parsed_url::{ParsedUrl, url_parse_outcome};
use crate::paths::{
    chain_configs_dir, ecosystem_configs_dir, join, join_path, APPS_CONFIG_FILE,
    LOCAL_CHAINS_PATH, LOCAL_CONFIGS_PATH,
};
use crate::text::{decimal, decimal_string};

verus! {

/// Port of the block-explorer app unless configured otherwise.
pub const DEFAULT_EXPLORER_PORT: u16 = 3010;
/// Port of the portal app unless configured otherwise.
pub const DEFAULT_PORTAL_PORT: u16 = 3030;

/// Ecosystem-wide config of the apps.
pub struct AppsEcosystemConfig {
    pub portal: AppEcosystemConfig,
    pub explorer: AppEcosystemConfig,
}

/// Ecosystem-wide config of one app.
pub struct AppEcosystemConfig {
    pub http_port: u16,
    pub http_url: String,
    pub chains_enabled: Option<Vec<String>>,
}

/// Per-chain config of the apps.
pub struct AppsChainConfig {
    pub portal: PortalAppChainConfig,
    pub explorer: ExplorerAppChainConfig,
}

/// Per-chain config of the portal.
pub struct PortalAppChainConfig {
    pub l2_rpc_url: ParsedUrl,
}

/// Per-chain config of the block explorer.
pub struct ExplorerAppChainConfig {
    pub l2_rpc_url: ParsedUrl,
    pub verification_api_url: Option<ParsedUrl>,
    pub database_url: Option<ParsedUrl>,
    pub services: Option<ServicesConfig>,
}

/// The explorer's backend services of a chain.
pub struct ServicesConfig {
    pub worker: WorkerConfig,
    pub data_fetcher: DataFetcherConfig,
    pub api: ApiConfig,
}

/// The explorer worker of a chain.
pub struct WorkerConfig {
    pub http_port: u16,
    pub batches_processing_polling_interval: u64,
}

/// The explorer data fetcher of a chain.
pub struct DataFetcherConfig {
    pub http_port: u16,
}

/// The explorer API of a chain.
pub struct ApiConfig {
    pub http_port: u16,
    pub http_url: ParsedUrl,
    pub metrics_port: u16,
}

/// The URL of an app served on the local host at `port`.
pub open spec fn local_http_url(port: u16) -> Seq<char> {
    "http://127.0.0.1:"@ + decimal(port as nat)
}

fn local_http_url_string(port: u16) -> (s: String)
    ensures
        s@ == local_http_url(port),
{
    "http://127.0.0.1:".to_owned().concat(decimal_string(port as u64).as_str())
}

/// The L2 RPC URL that a chain's apps config starts with.
pub open spec fn placeholder_l2_rpc_url() -> Seq<char> {
    "http://fuck.com"@
}

impl AppsEcosystemConfig {
    /// Both apps on their default ports of the local host, enabled for no chain
    /// in particular.
    pub fn default() -> (c: Self)
        ensures
            c.portal.http_port == DEFAULT_PORTAL_PORT,
            c.portal.http_url@ == local_http_url(DEFAULT_PORTAL_PORT),
            c.portal.chains_enabled is None,
            c.explorer.http_port == DEFAULT_EXPLORER_PORT,
            c.explorer.http_url@ == local_http_url(DEFAULT_EXPLORER_PORT),
            c.explorer.chains_enabled is None,
    {
        AppsEcosystemConfig {
            portal: AppEcosystemConfig {
                http_port: DEFAULT_PORTAL_PORT,
                http_url: local_http_url_string(DEFAULT_PORTAL_PORT),
                chains_enabled: None,
            },
            explorer: AppEcosystemConfig {
                http_port: DEFAULT_EXPLORER_PORT,
                http_url: local_http_url_string(DEFAULT_EXPLORER_PORT),
                chains_enabled: None,
            },
        }
    }

    /// `<base>/configs/apps.yaml`.
    pub fn get_config_path(ecosystem_base_path: &str) -> (p: String)
        ensures
            p@ == join_path(ecosystem_configs_dir(ecosystem_base_path@), APPS_CONFIG_FILE@),
    {
        let configs = join(ecosystem_base_path, LOCAL_CONFIGS_PATH);
        join(configs.as_str(), APPS_CONFIG_FILE)
    }
}

impl AppsChainConfig {
    /// The config made of the two app configs.
    pub fn new(portal: PortalAppChainConfig, explorer: ExplorerAppChainConfig) -> (c: Self)
        ensures
            c.portal == portal,
            c.explorer == explorer,
    {
        AppsChainConfig { portal, explorer }
    }

    /// Both apps pointed at the placeholder L2 RPC URL, with nothing else set.
    /// The placeholder must be a URL that parses.
    pub fn default() -> (c: Self)
        requires
            url_parse_outcome(placeholder_l2_rpc_url()) is Some,
        ensures
            Some(c.portal.l2_rpc_url@) == url_parse_outcome(placeholder_l2_rpc_url()),
            Some(c.explorer.l2_rpc_url@) == url_parse_outcome(placeholder_l2_rpc_url()),
            c.explorer.database_url is None,
            c.explorer.services is None,
            c.explorer.verification_api_url is None,
    {
        let portal_url = match ParsedUrl::parse("http://fuck.com") {
            Ok(u) => u,
            Err(_) => vstd::pervasive::unreached(),
        };
        let explorer_url = match ParsedUrl::parse("http://fuck.com") {
            Ok(u) => u,
            Err(_) => vstd::pervasive::unreached(),
        };
        AppsChainConfig {
            portal: PortalAppChainConfig { l2_rpc_url: portal_url },
            explorer: ExplorerAppChainConfig {
                l2_rpc_url: explorer_url,
                database_url: None,
                services: None,
                verification_api_url: None,
            },
        }
    }

    /// [`AppsChainConfig::default`] where the placeholder URL parses; `None` where it
    /// does not.
    pub fn try_default() -> (r: Option<Self>)
        ensures
            r is None <==> url_parse_outcome(placeholder_l2_rpc_url()) is None,
            r matches Some(c) ==> {
                &&& Some(c.portal.l2_rpc_url@) == url_parse_outcome(placeholder_l2_rpc_url())
                &&& Some(c.explorer.l2_rpc_url@) == url_parse_outcome(placeholder_l2_rpc_url())
                &&& c.explorer.database_url is None
                &&& c.explorer.services is None
                &&& c.explorer.verification_api_url is None
            },
    {
        match ParsedUrl::parse("http://fuck.com") {
            Ok(_) => Some(AppsChainConfig::default()),
            Err(_) => None,
        }
    }

    /// `<base>/chains/<chain>/configs/apps.yaml`.
    pub fn get_config_path(ecosystem_base_path: &str, chain_name: &str) -> (p: String)
        ensures
            p@ == join_path(chain_configs_dir(ecosystem_base_path@, chain_name@), APPS_CONFIG_FILE@),
    {
        let chains = join(ecosystem_base_path, LOCAL_CHAINS_PATH);
        let chain = join(chains.as_str(), chain_name);
        let configs = join(chain.as_str(), LOCAL_CONFIGS_PATH);
        join(configs.as_str(), APPS_CONFIG_FILE)
    }
}

} // verus!
