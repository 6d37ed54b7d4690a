//! Configuration text of the validators and indexers that a local network runs.
//!
//! Each renderer is a pure function of its parameters; writing the text to a
//! file is left to the caller.

use vstd::prelude::*;
use vstd::string::*;

use crate::network::{network_name, ActivationHeights, Network};
use crate::text::{decimal, push_decimal};

verus! {

/// Port numbers, as the port picker names them.
pub type Port = portpicker::Port;

/// Why a configuration cannot be rendered.
#[derive(Clone, Copy, Debug, PartialEq, Eq, Structural)]
pub enum ConfigError {
    /// A Regtest validator of the chain-advancing kind needs Canopy, and every
    /// earlier upgrade, active from height 1.
    ConfigInvariantViolation,
}

/// The view of an optional string slice.
pub open spec fn opt_view(o: Option<&str>) -> Option<Seq<char>> {
    match o {
        Some(a) => Some(a@),
        None => None,
    }
}

/// The zcashd configuration without the mining section.
pub open spec fn zcashd_base_text(rpc_port: u16, h: ActivationHeights) -> Seq<char> {
    "### Blockchain Configuration
regtest=1
nuparams=5ba81b19:"@ + decimal(h.overwinter as nat)
        + " # Overwinter
nuparams=76b809bb:"@ + decimal(h.sapling as nat)
        + " # Sapling
nuparams=2bb40e60:"@ + decimal(h.blossom as nat)
        + " # Blossom
nuparams=f5b9230b:"@ + decimal(h.heartwood as nat)
        + " # Heartwood
nuparams=e9ff75a6:"@ + decimal(h.canopy as nat)
        + " # Canopy
nuparams=c2d6d0b4:"@ + decimal(h.nu5 as nat)
        + " # NU5 (Orchard)

### MetaData Storage and Retrieval
# txindex:
# https://zcash.readthedocs.io/en/latest/rtd_pages/zcash_conf_guide.html#miscellaneous-options
txindex=1
# insightexplorer:
# https://zcash.readthedocs.io/en/latest/rtd_pages/insight_explorer.html?highlight=insightexplorer#additional-getrawtransaction-fields
insightexplorer=1
experimentalfeatures=1
lightwalletd=1

### RPC Server Interface Options:
# https://zcash.readthedocs.io/en/latest/rtd_pages/zcash_conf_guide.html#json-rpc-options
rpcuser=xxxxxx
rpcpassword=xxxxxx
rpcport="@ + decimal(rpc_port as nat)
        + "
rpcallowip=127.0.0.1

# Buried config option to allow non-canonical RPC-PORT:
# https://zcash.readthedocs.io/en/latest/rtd_pages/zcash_conf_guide.html#zcash-conf-guide
listen=0"@
}

/// The zcashd mining section that names the miner address `addr`.
pub open spec fn zcashd_mining_text(addr: Seq<char>) -> Seq<char> {
    "

### Zcashd Help provides documentation of the following:
mineraddress="@ + addr + "
minetolocalwallet=0 # This is set to false so that we can mine to a wallet, other than the zcashd wallet."@
}

/// The zcashd configuration: the base text, then the mining section exactly
/// when a miner address is given.
pub open spec fn zcashd_text(rpc_port: u16, h: ActivationHeights, miner: Option<Seq<char>>) -> Seq<char> {
    match miner {
        Some(addr) => zcashd_base_text(rpc_port, h) + zcashd_mining_text(addr),
        None => zcashd_base_text(rpc_port, h),
    }
}

/// Renders the zcashd configuration.
pub fn zcashd(rpc_port: Port, activation_heights: &ActivationHeights, miner_address: Option<&str>) -> (r: String)
    ensures
        r@ == zcashd_text(rpc_port, *activation_heights, opt_view(miner_address)),
{
    let h = activation_heights;
    let mut s = String::from_str("### Blockchain Configuration
regtest=1
nuparams=5ba81b19:");
    push_decimal(&mut s, h.overwinter);
    s.append(" # Overwinter
nuparams=76b809bb:");
    push_decimal(&mut s, h.sapling);
    s.append(" # Sapling
nuparams=2bb40e60:");
    push_decimal(&mut s, h.blossom);
    s.append(" # Blossom
nuparams=f5b9230b:");
    push_decimal(&mut s, h.heartwood);
    s.append(" # Heartwood
nuparams=e9ff75a6:");
    push_decimal(&mut s, h.canopy);
    s.append(" # Canopy
nuparams=c2d6d0b4:");
    push_decimal(&mut s, h.nu5);
    s.append(" # NU5 (Orchard)

### MetaData Storage and Retrieval
# txindex:
# https://zcash.readthedocs.io/en/latest/rtd_pages/zcash_conf_guide.html#miscellaneous-options
txindex=1
# insightexplorer:
# https://zcash.readthedocs.io/en/latest/rtd_pages/insight_explorer.html?highlight=insightexplorer#additional-getrawtransaction-fields
insightexplorer=1
experimentalfeatures=1
lightwalletd=1

### RPC Server Interface Options:
# https://zcash.readthedocs.io/en/latest/rtd_pages/zcash_conf_guide.html#json-rpc-options
rpcuser=xxxxxx
rpcpassword=xxxxxx
rpcport=");
    push_decimal(&mut s, rpc_port as u32);
    s.append("
rpcallowip=127.0.0.1

# Buried config option to allow non-canonical RPC-PORT:
# https://zcash.readthedocs.io/en/latest/rtd_pages/zcash_conf_guide.html#zcash-conf-guide
listen=0");
    let ghost base = s@;
    assert(base == zcashd_base_text(rpc_port, *h));
    match miner_address {
        Some(addr) => {
            s.append("

### Zcashd Help provides documentation of the following:
mineraddress=");
            s.append(addr);
            s.append("
minetolocalwallet=0 # This is set to false so that we can mine to a wallet, other than the zcashd wallet.");
            assert(s@ =~= base + zcashd_mining_text(addr@));
        },
        None => {},
    }
    s
}

/// The zebrad configuration up to its mining section.
pub open spec fn zebrad_base_text(
    cache_dir: Seq<char>,
    network_listen_port: u16,
    rpc_listen_port: u16,
    network: Network,
) -> Seq<char> {
    "[consensus]
checkpoint_sync = true

[mempool]
eviction_memory_time = \"1h\"
tx_cost_limit = 80000000

[metrics]

[network]
cache_dir = false
crawl_new_peer_interval = \"1m 1s\"
initial_mainnet_peers = [
    \"dnsseed.z.cash:8233\",
    \"dnsseed.str4d.xyz:8233\",
    \"mainnet.seeder.zfnd.org:8233\",
    \"mainnet.is.yolo.money:8233\",
]
initial_testnet_peers = [
    \"dnsseed.testnet.z.cash:18233\",
    \"testnet.seeder.zfnd.org:18233\",
    \"testnet.is.yolo.money:18233\",
]
listen_addr = \"127.0.0.1:"@ + decimal(network_listen_port as nat)
        + "\"
max_connections_per_ip = 1
network = \""@ + network_name(network)
        + "\"
peerset_initial_target_size = 25

[rpc]
cookie_dir = \""@ + cache_dir
        + "\"
debug_force_finished_sync = false
enable_cookie_auth = false
parallel_cpu_threads = 0
listen_addr = \"127.0.0.1:"@ + decimal(rpc_listen_port as nat)
        + "\"

[state]
cache_dir = \""@ + cache_dir
        + "\"
delete_old_database = true
# ephemeral is set false to enable chain caching
ephemeral = false

[sync]
checkpoint_verify_concurrency_limit = 1000
download_concurrency_limit = 50
full_verify_concurrency_limit = 20
parallel_cpu_threads = 0

[tracing]
buffer_limit = 128000
force_use_color = false
use_color = true
use_journald = false"@
}

/// The zebrad mining section: on Regtest it names the miner and sets the NU5
/// activation height, elsewhere it only turns on zcashd-like mining.
pub open spec fn zebrad_mining_text(miner_address: Seq<char>, nu5: u32, network: Network) -> Seq<char> {
    if network == Network::Regtest {
        "

[mining]
debug_like_zcashd = true
miner_address = \""@ + miner_address + "\"

[network.testnet_parameters]
disable_pow = true

[network.testnet_parameters.activation_heights]
# Configured activation heights must be greater than or equal to 1,
# block height 0 is reserved for the Genesis network upgrade in Zebra
NU5 = "@ + decimal(nu5 as nat)
    } else {
        "

[mining]
debug_like_zcashd = true"@
    }
}

/// The zebrad configuration.
pub open spec fn zebrad_text(
    cache_dir: Seq<char>,
    network_listen_port: u16,
    rpc_listen_port: u16,
    h: ActivationHeights,
    miner_address: Seq<char>,
    network: Network,
) -> Seq<char> {
    zebrad_base_text(cache_dir, network_listen_port, rpc_listen_port, network)
        + zebrad_mining_text(miner_address, h.nu5, network)
}

/// Whether zebrad refuses these heights on this network: on Regtest Canopy
/// must activate at height 1.
pub open spec fn zebrad_heights_refused(h: ActivationHeights, network: Network) -> bool {
    network == Network::Regtest && h.canopy != 1
}

/// Renders the zebrad configuration, or refuses a Regtest configuration whose
/// Canopy activation height is not 1.
pub fn zebrad(
    cache_dir: &str,
    network_listen_port: Port,
    rpc_listen_port: Port,
    activation_heights: &ActivationHeights,
    miner_address: &str,
    network: Network,
) -> (r: Result<String, ConfigError>)
    ensures
        zebrad_heights_refused(*activation_heights, network) <==> r is Err,
        r matches Err(e) ==> e == ConfigError::ConfigInvariantViolation,
        r matches Ok(s) ==> s@ == zebrad_text(
            cache_dir@,
            network_listen_port,
            rpc_listen_port,
            *activation_heights,
            miner_address@,
            network,
        ),
{
    if network == Network::Regtest && activation_heights.canopy != 1 {
        return Err(ConfigError::ConfigInvariantViolation);
    }
    let network_string = network.to_string();
    let mut s = String::from_str("[consensus]
checkpoint_sync = true

[mempool]
eviction_memory_time = \"1h\"
tx_cost_limit = 80000000

[metrics]

[network]
cache_dir = false
crawl_new_peer_interval = \"1m 1s\"
initial_mainnet_peers = [
    \"dnsseed.z.cash:8233\",
    \"dnsseed.str4d.xyz:8233\",
    \"mainnet.seeder.zfnd.org:8233\",
    \"mainnet.is.yolo.money:8233\",
]
initial_testnet_peers = [
    \"dnsseed.testnet.z.cash:18233\",
    \"testnet.seeder.zfnd.org:18233\",
    \"testnet.is.yolo.money:18233\",
]
listen_addr = \"127.0.0.1:");
    push_decimal(&mut s, network_listen_port as u32);
    s.append("\"
max_connections_per_ip = 1
network = \"");
    s.append(network_string.as_str());
    s.append("\"
peerset_initial_target_size = 25

[rpc]
cookie_dir = \"");
    s.append(cache_dir);
    s.append("\"
debug_force_finished_sync = false
enable_cookie_auth = false
parallel_cpu_threads = 0
listen_addr = \"127.0.0.1:");
    push_decimal(&mut s, rpc_listen_port as u32);
    s.append("\"

[state]
cache_dir = \"");
    s.append(cache_dir);
    s.append("\"
delete_old_database = true
# ephemeral is set false to enable chain caching
ephemeral = false

[sync]
checkpoint_verify_concurrency_limit = 1000
download_concurrency_limit = 50
full_verify_concurrency_limit = 20
parallel_cpu_threads = 0

[tracing]
buffer_limit = 128000
force_use_color = false
use_color = true
use_journald = false");
    let ghost base = s@;
    assert(base == zebrad_base_text(cache_dir@, network_listen_port, rpc_listen_port, network));
    if network == Network::Regtest {
        s.append("

[mining]
debug_like_zcashd = true
miner_address = \"");
        s.append(miner_address);
        s.append("\"

[network.testnet_parameters]
disable_pow = true

[network.testnet_parameters.activation_heights]
# Configured activation heights must be greater than or equal to 1,
# block height 0 is reserved for the Genesis network upgrade in Zebra
NU5 = ");
        push_decimal(&mut s, activation_heights.nu5);
    } else {
        s.append("

[mining]
debug_like_zcashd = true");
    }
    assert(s@ =~= base + zebrad_mining_text(miner_address@, activation_heights.nu5, network));
    Ok(s)
}

/// The zainod configuration.
pub open spec fn zainod_text(listen_port: u16, validator_port: u16) -> Seq<char> {
    "# Configuration for Zaino

# Sets the TcpIngestor's status (true or false)
tcp_active = true

# Optional TcpIngestors listen port (use None or specify a port number)
listen_port = "@ + decimal(listen_port as nat)
        + "

# Sets the NymIngestor's and NymDispatchers status (true or false)
nym_active = false

# Optional Nym conf path used for micnet client conf
nym_conf_path = \"/tmp/indexer/nym\"

# LightWalletD listen port [DEPRECATED]
lightwalletd_port = 9067

# Full node / validator listen port
zebrad_port = "@ + decimal(validator_port as nat)
        + "

# Optional full node Username
node_user = \"xxxxxx\"

# Optional full node Password
node_password = \"xxxxxx\"

# Maximum requests allowed in the request queue
max_queue_size = 1024

# Maximum workers allowed in the worker pool
max_worker_pool_size = 64

# Minimum number of workers held in the worker pool when idle
idle_worker_pool_size = 4"@
}

/// Renders the zainod configuration, pointing it at the validator's RPC port.
pub fn zainod(listen_port: Port, validator_port: Port) -> (r: String)
    ensures
        r@ == zainod_text(listen_port, validator_port),
{
    let mut s = String::from_str("# Configuration for Zaino

# Sets the TcpIngestor's status (true or false)
tcp_active = true

# Optional TcpIngestors listen port (use None or specify a port number)
listen_port = ");
    push_decimal(&mut s, listen_port as u32);
    s.append("

# Sets the NymIngestor's and NymDispatchers status (true or false)
nym_active = false

# Optional Nym conf path used for micnet client conf
nym_conf_path = \"/tmp/indexer/nym\"

# LightWalletD listen port [DEPRECATED]
lightwalletd_port = 9067

# Full node / validator listen port
zebrad_port = ");
    push_decimal(&mut s, validator_port as u32);
    s.append("

# Optional full node Username
node_user = \"xxxxxx\"

# Optional full node Password
node_password = \"xxxxxx\"

# Maximum requests allowed in the request queue
max_queue_size = 1024

# Maximum workers allowed in the worker pool
max_worker_pool_size = 64

# Minimum number of workers held in the worker pool when idle
idle_worker_pool_size = 4");
    s
}

/// The lightwalletd configuration.
pub open spec fn lightwalletd_text(grpc_bind_addr_port: u16, log_file: Seq<char>, validator_conf: Seq<char>) -> Seq<char> {
    "grpc-bind-addr: 127.0.0.1:"@ + decimal(grpc_bind_addr_port as nat)
        + "
cache-size: 10
log-file: "@ + log_file
        + "
log-level: 10
zcash-conf-path: "@ + validator_conf
}

/// Renders the lightwalletd configuration, which reads the validator's own
/// configuration file.
pub fn lightwalletd(grpc_bind_addr_port: Port, log_file: &str, validator_conf: &str) -> (r: String)
    ensures
        r@ == lightwalletd_text(grpc_bind_addr_port, log_file@, validator_conf@),
{
    let mut s = String::from_str("grpc-bind-addr: 127.0.0.1:");
    push_decimal(&mut s, grpc_bind_addr_port as u32);
    s.append("
cache-size: 10
log-file: ");
    s.append(log_file);
    s.append("
log-level: 10
zcash-conf-path: ");
    s.append(validator_conf);
    s
}


/// Rendering is a function of the parameters alone: equal parameters give
/// equal text, for every renderer.
pub proof fn rendering_is_deterministic(
    rpc_port: u16,
    h1: ActivationHeights,
    h2: ActivationHeights,
    miner: Option<Seq<char>>,
    cache_dir: Seq<char>,
    network_listen_port: u16,
    miner_address: Seq<char>,
    network: Network,
)
    requires
        h1 == h2,
    ensures
        zcashd_text(rpc_port, h1, miner) == zcashd_text(rpc_port, h2, miner),
        zebrad_heights_refused(h1, network) == zebrad_heights_refused(h2, network),
        zebrad_text(cache_dir, network_listen_port, rpc_port, h1, miner_address, network)
            == zebrad_text(cache_dir, network_listen_port, rpc_port, h2, miner_address, network),
{
}

/// Adding a miner address to a zcashd configuration appends exactly the
/// mining section naming it, and changes nothing before it.
pub proof fn miner_address_appends_mining_section(rpc_port: u16, h: ActivationHeights, addr: Seq<char>)
    ensures
        zcashd_text(rpc_port, h, Some(addr)) == zcashd_text(rpc_port, h, None) + zcashd_mining_text(addr),
        zcashd_text(rpc_port, h, Some(addr)).subrange(0, zcashd_text(rpc_port, h, None).len() as int)
            == zcashd_text(rpc_port, h, None),
{
    let base = zcashd_text(rpc_port, h, None);
    let full = zcashd_text(rpc_port, h, Some(addr));
    assert(full.subrange(0, base.len() as int) =~= base);
}

/// Without a miner address the zcashd configuration ends with its `listen=0`
/// line: nothing, not even an empty mining section, follows it.
pub proof fn zcashd_without_miner_ends_at_listen(rpc_port: u16, h: ActivationHeights)
    ensures
        zcashd_text(rpc_port, h, None).len() >= 8,
        zcashd_text(rpc_port, h, None).subrange(
            zcashd_text(rpc_port, h, None).len() - 8,
            zcashd_text(rpc_port, h, None).len() as int,
        ) == "listen=0"@,
{
    reveal_strlit("
rpcallowip=127.0.0.1

# Buried config option to allow non-canonical RPC-PORT:
# https://zcash.readthedocs.io/en/latest/rtd_pages/zcash_conf_guide.html#zcash-conf-guide
listen=0");
    reveal_strlit("listen=0");
    let t = zcashd_text(rpc_port, h, None);
    let tail = "
rpcallowip=127.0.0.1

# Buried config option to allow non-canonical RPC-PORT:
# https://zcash.readthedocs.io/en/latest/rtd_pages/zcash_conf_guide.html#zcash-conf-guide
listen=0"@;
    let head = t.subrange(0, t.len() - tail.len());
    assert(t == head + tail);
    assert(t.subrange(t.len() - 8, t.len() as int) =~= tail.subrange(tail.len() - 8, tail.len() as int));
    assert(tail.subrange(tail.len() - 8, tail.len() as int) =~= "listen=0"@);
}

} // verus!
