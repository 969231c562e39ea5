//! Where the wallet lives and which network and server it talks to.
use vstd::prelude::*;

use crate::text::{join, join_path, same_text};

verus! {

/// The Zcash network.
#[derive(Debug, Clone, Copy, PartialEq, Eq)]
pub enum Network {
    MainNetwork,
    TestNetwork,
}

/// The resolved settings every command runs with.
#[derive(Debug, Clone, PartialEq, Eq)]
pub struct Config {
    pub data_dir: String,
    pub server_url: String,
    pub network: Network,
    pub human: bool,
}

/// The light-client server used when none is given.
pub open spec fn default_server_text(network: Network) -> Seq<char> {
    match network {
        Network::MainNetwork => "https://zec.rocks:443"@,
        Network::TestNetwork => "https://testnet.zec.rocks:443"@,
    }
}

/// The light-client server used when none is given.
pub fn default_server(network: Network) -> (s: &'static str)
    ensures
        s@ == default_server_text(network),
{
    match network {
        Network::MainNetwork => "https://zec.rocks:443",
        Network::TestNetwork => "https://testnet.zec.rocks:443",
    }
}

/// The network's name: `testnet` or `mainnet`.
pub open spec fn network_name_text(network: Network) -> Seq<char> {
    match network {
        Network::TestNetwork => "testnet"@,
        Network::MainNetwork => "mainnet"@,
    }
}

/// The network's name, also the name of its data directory.
pub fn network_name(network: Network) -> (s: &'static str)
    ensures
        s@ == network_name_text(network),
{
    match network {
        Network::TestNetwork => "testnet",
        Network::MainNetwork => "mainnet",
    }
}

/// The default data directory: `<home>/.zumbra/<network>`.
pub open spec fn default_data_dir(home: Seq<char>, network: Network) -> Seq<char> {
    join_path(join_path(home, ".zumbra"@), network_name_text(network))
}

/// Resolves the settings from the command line: testnet or mainnet, the given server or the
/// network's default, the given data directory or `<home>/.zumbra/<network>`. Without a data
/// directory the home directory must be known.
pub fn resolve_config(
    testnet: bool,
    server: Option<String>,
    data_dir: Option<String>,
    human: bool,
    home: Option<String>,
) -> (cfg: Config)
    requires
        data_dir is Some || home is Some,
    ensures
        cfg.network == (if testnet {
            Network::TestNetwork
        } else {
            Network::MainNetwork
        }),
        cfg.server_url@ == match server {
            Some(s) => s@,
            None => default_server_text(cfg.network),
        },
        cfg.data_dir@ == match data_dir {
            Some(d) => d@,
            None => default_data_dir(home.unwrap()@, cfg.network),
        },
        cfg.human == human,
{
    let network = if testnet {
        Network::TestNetwork
    } else {
        Network::MainNetwork
    };
    let server_url = match server {
        Some(s) => s,
        None => String::from_str(default_server(network)),
    };
    let data_dir = match data_dir {
        Some(d) => d,
        None => {
            let home = home.unwrap();
            let base = join(home.as_str(), ".zumbra");
            join(base.as_str(), network_name(network))
        },
    };
    Config { data_dir, server_url, network, human }
}

/// Resolves the MCP server's settings from its environment: `ZUMBRA_TESTNET` set to `1`
/// selects testnet, `ZUMBRA_SERVER` and `ZUMBRA_DATA_DIR` override the defaults.
pub fn server_config(
    testnet_var: Option<String>,
    server_var: Option<String>,
    data_dir_var: Option<String>,
    home: Option<String>,
) -> (cfg: Config)
    requires
        data_dir_var is Some || home is Some,
    ensures
        cfg.network == (if testnet_var matches Some(v) && v@ == "1"@ {
            Network::TestNetwork
        } else {
            Network::MainNetwork
        }),
        cfg.server_url@ == match server_var {
            Some(s) => s@,
            None => default_server_text(cfg.network),
        },
        cfg.data_dir@ == match data_dir_var {
            Some(d) => d@,
            None => default_data_dir(home.unwrap()@, cfg.network),
        },
        !cfg.human,
{
    let testnet = match &testnet_var {
        Some(v) => same_text(v.as_str(), "1"),
        None => false,
    };
    resolve_config(testnet, server_var, data_dir_var, false, home)
}

/// The network a paywall must name to be paid from this wallet.
pub fn expected_network(cfg: &Config) -> (s: &'static str)
    ensures
        s@ == match cfg.network {
            Network::TestNetwork => "zcash:testnet"@,
            Network::MainNetwork => "zcash:mainnet"@,
        },
{
    match cfg.network {
        Network::TestNetwork => "zcash:testnet",
        Network::MainNetwork => "zcash:mainnet",
    }
}

} // verus!
