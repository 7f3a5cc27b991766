use vstd::prelude::*;

verus! {

/// An IP address, version 4 or 6, as the number its octets spell in network
/// order (`127.0.0.1` is `0x7f00_0001`).
#[derive(Clone, Copy, Debug, PartialEq, Eq, Structural)]
pub enum IpAddress {
    V4(u32),
    V6(u128),
}

/// `127.0.0.1`.
pub const LOCALHOST_V4: u32 = 0x7f00_0001;

/// An IP address and a port.
#[derive(Clone, Copy, Debug, PartialEq, Eq, Structural)]
pub struct SocketAddress {
    pub ip: IpAddress,
    pub port: u16,
}

impl SocketAddress {
    pub open spec fn localhost_spec(port: u16) -> Self {
        SocketAddress { ip: IpAddress::V4(LOCALHOST_V4), port }
    }

    /// Local IPv4 address `127.0.0.1` with the given port; port 0 asks the
    /// operating system to assign one when the socket is bound.
    pub fn localhost(port: u16) -> (r: Self)
        ensures
            r == Self::localhost_spec(port),
    {
        SocketAddress { ip: IpAddress::V4(LOCALHOST_V4), port }
    }
}

/// The role a node plays in the network.
#[derive(Clone, Copy, Debug, PartialEq, Eq, Structural)]
pub enum NodeType {
    Full,
    Light,
    Archive,
    Miner,
    Bootstrap,
    Validator,
}

/// A node's signing keys, as raw bytes.
pub struct KeyPair {
    pub secret_key: Vec<u8>,
    pub public_key: Vec<u8>,
}

/// An element-for-element copy of `v`.
pub fn copy_vec<T: Copy>(v: &Vec<T>) -> (r: Vec<T>)
    ensures
        r@ == v@,
{
    let mut r: Vec<T> = Vec::new();
    let mut i: usize = 0;
    while i < v.len()
        invariant
            i <= v@.len(),
            r@ == v@.take(i as int),
        decreases v@.len() - i,
    {
        r.push(v[i]);
        i = i + 1;
        assert(r@ =~= v@.take(i as int));
    }
    assert(v@.take(i as int) =~= v@);
    r
}

impl KeyPair {
    pub fn copy(&self) -> (r: Self)
        ensures
            r.secret_key@ == self.secret_key@,
            r.public_key@ == self.public_key@,
    {
        KeyPair { secret_key: copy_vec(&self.secret_key), public_key: copy_vec(&self.public_key) }
    }
}

/// What a node is started with: identity, addresses, storage paths and keys.
pub struct NodeConfig {
    pub id: String,
    pub idx: u16,
    pub data_dir: String,
    pub db_path: String,
    pub node_type: NodeType,
    pub raptorq_gossip_address: SocketAddress,
    pub udp_gossip_address: SocketAddress,
    pub http_api_address: SocketAddress,
    pub http_api_title: String,
    pub http_api_version: String,
    pub http_api_shutdown_timeout: Option<u64>,
    pub jsonrpc_server_address: SocketAddress,
    pub preload_mock_state: bool,
    pub bootstrap_node_addresses: Vec<SocketAddress>,
    pub keypair: KeyPair,
    pub disable_networking: bool,
}

/// Two configurations that agree on every field.
pub open spec fn same_config(a: NodeConfig, b: NodeConfig) -> bool {
    &&& a.id@ == b.id@
    &&& a.idx == b.idx
    &&& a.data_dir@ == b.data_dir@
    &&& a.db_path@ == b.db_path@
    &&& a.node_type == b.node_type
    &&& a.raptorq_gossip_address == b.raptorq_gossip_address
    &&& a.udp_gossip_address == b.udp_gossip_address
    &&& a.http_api_address == b.http_api_address
    &&& a.http_api_title@ == b.http_api_title@
    &&& a.http_api_version@ == b.http_api_version@
    &&& a.http_api_shutdown_timeout == b.http_api_shutdown_timeout
    &&& a.jsonrpc_server_address == b.jsonrpc_server_address
    &&& a.preload_mock_state == b.preload_mock_state
    &&& a.bootstrap_node_addresses@ == b.bootstrap_node_addresses@
    &&& a.keypair.secret_key@ == b.keypair.secret_key@
    &&& a.keypair.public_key@ == b.keypair.public_key@
    &&& a.disable_networking == b.disable_networking
}

impl NodeConfig {
    pub fn copy(&self) -> (r: Self)
        ensures
            same_config(r, *self),
    {
        NodeConfig {
            id: self.id.clone(),
            idx: self.idx,
            data_dir: self.data_dir.clone(),
            db_path: self.db_path.clone(),
            node_type: self.node_type,
            raptorq_gossip_address: self.raptorq_gossip_address,
            udp_gossip_address: self.udp_gossip_address,
            http_api_address: self.http_api_address,
            http_api_title: self.http_api_title.clone(),
            http_api_version: self.http_api_version.clone(),
            http_api_shutdown_timeout: self.http_api_shutdown_timeout,
            jsonrpc_server_address: self.jsonrpc_server_address,
            preload_mock_state: self.preload_mock_state,
            bootstrap_node_addresses: copy_vec(&self.bootstrap_node_addresses),
            keypair: self.keypair.copy(),
            disable_networking: self.disable_networking,
        }
    }
}

} // verus!
