//! Settings of the proxy: where it listens, and advisory options for later use.
use vstd::prelude::*;

verus! {

/// The listener's default bind address.
pub open spec fn default_proxy_addr() -> Seq<char> {
    "0.0.0.0:8888"@
}

/// Settings for the payment placeholders.
#[derive(Clone, Debug)]
pub struct BlockchainConfig {
    pub eth_rpc: String,
    pub payment_contract: String,
    pub wallet_address: Option<String>,
}

/// The proxy's settings, and the file they were read from.
#[derive(Clone, Debug)]
pub struct Config {
    /// Listener bind address.
    pub proxy_addr: String,
    /// Number of hops for multi-hop routing (advisory).
    pub num_hops: usize,
    /// Resolver endpoints.
    pub dns_servers: Vec<String>,
    /// Whether outbound requests carry a randomized browser fingerprint.
    pub fingerprint_protection: bool,
    /// Blocklist sources for a later refresh.
    pub tracker_lists: Vec<String>,
    pub blockchain: BlockchainConfig,
    /// Node registry database path.
    pub node_db_path: String,
    /// The file these settings were read from or written to.
    pub config_path: String,
}

impl Config {
    /// The defaults, read from or written to `path`.
    pub fn default_with_path(path: String) -> (r: Self)
        ensures
            r.proxy_addr@ == default_proxy_addr(),
            r.num_hops == 3,
            r.fingerprint_protection,
            r.config_path@ == path@,
    {
        let mut config = Config::default();
        config.config_path = path;
        config
    }

    pub fn config_path(&self) -> (r: &str)
        ensures
            r@ == self.config_path@,
    {
        self.config_path.as_str()
    }

    pub fn proxy_addr(&self) -> (r: &str)
        ensures
            r@ == self.proxy_addr@,
    {
        self.proxy_addr.as_str()
    }
}

impl Default for Config {
    fn default() -> (r: Self)
        ensures
            r.proxy_addr@ == default_proxy_addr(),
            r.num_hops == 3,
            r.dns_servers@.len() == 2,
            r.dns_servers@[0]@ == "1.1.1.1:853"@,
            r.dns_servers@[1]@ == "8.8.8.8:853"@,
            r.fingerprint_protection,
            r.tracker_lists@.len() == 2,
            r.tracker_lists@[0]@ == "https://easylist.to/easylist/easylist.txt"@,
            r.tracker_lists@[1]@ == "https://easylist.to/easylist/easyprivacy.txt"@,
            r.blockchain.eth_rpc@ == "https://mainnet.infura.io/v3/YOUR_PROJECT_ID"@,
            r.blockchain.payment_contract@ == "0x0000000000000000000000000000000000000000"@,
            r.blockchain.wallet_address.is_none(),
            r.node_db_path@ == "~/.privacy_suite/nodes.db"@,
            r.config_path@.len() == 0,
    {
        Config {
            proxy_addr: String::from_str("0.0.0.0:8888"),
            num_hops: 3,
            dns_servers: vec![String::from_str("1.1.1.1:853"), String::from_str("8.8.8.8:853")],
            fingerprint_protection: true,
            tracker_lists: vec![
                String::from_str("https://easylist.to/easylist/easylist.txt"),
                String::from_str("https://easylist.to/easylist/easyprivacy.txt"),
            ],
            blockchain: BlockchainConfig {
                eth_rpc: String::from_str("https://mainnet.infura.io/v3/YOUR_PROJECT_ID"),
                payment_contract: String::from_str("0x0000000000000000000000000000000000000000"),
                wallet_address: None,
            },
            node_db_path: String::from_str("~/.privacy_suite/nodes.db"),
            config_path: String::new(),
        }
    }
}

} // verus!
