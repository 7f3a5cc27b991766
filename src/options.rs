use vstd::prelude::*;

use crate::config::{copy_vec, NodeConfig, NodeType, SocketAddress};

verus! {

/// The node type a name stands for, if any.
pub open spec fn node_type_named(s: Seq<char>) -> Option<NodeType> {
    if s == "full"@ {
        Some(NodeType::Full)
    } else if s == "light"@ {
        Some(NodeType::Light)
    } else if s == "archive"@ {
        Some(NodeType::Archive)
    } else if s == "miner"@ {
        Some(NodeType::Miner)
    } else if s == "bootstrap"@ {
        Some(NodeType::Bootstrap)
    } else if s == "validator"@ {
        Some(NodeType::Validator)
    } else {
        None
    }
}

/// Reads a node type from its lower-case name.
pub fn parse_node_type(s: &String) -> (r: Option<NodeType>)
    ensures
        r == node_type_named(s@),
{
    if *s == "full".to_owned() {
        Some(NodeType::Full)
    } else if *s == "light".to_owned() {
        Some(NodeType::Light)
    } else if *s == "archive".to_owned() {
        Some(NodeType::Archive)
    } else if *s == "miner".to_owned() {
        Some(NodeType::Miner)
    } else if *s == "bootstrap".to_owned() {
        Some(NodeType::Bootstrap)
    } else if *s == "validator".to_owned() {
        Some(NodeType::Validator)
    } else {
        None
    }
}

fn copy_addresses(v: &Option<Vec<SocketAddress>>) -> (r: Option<Vec<SocketAddress>>)
    ensures
        r is None <==> v is None,
        r is Some ==> r->0@ == v->0@,
{
    match v {
        None => None,
        Some(a) => Some(copy_vec(a)),
    }
}

/// `s` when it is not empty, `fallback` otherwise.
pub open spec fn non_empty_or(s: Seq<char>, fallback: Seq<char>) -> Seq<char> {
    if s.len() > 0 {
        s
    } else {
        fallback
    }
}

fn pick_non_empty(s: &String, fallback: &String) -> (r: String)
    ensures
        r@ == non_empty_or(s@, fallback@),
{
    if !s.as_str().is_empty() {
        s.clone()
    } else {
        fallback.clone()
    }
}

/// The options a node is run with.
pub struct RunOpts {
    /// Start the node as a background process.
    pub dettached: bool,
    /// Show the configuration that was put together.
    pub debug_config: bool,
    pub id: Option<String>,
    pub idx: Option<u16>,
    /// Name of the node's type.
    pub node_type: String,
    pub data_dir: String,
    pub db_path: String,
    pub udp_gossip_address: SocketAddress,
    pub raptorq_gossip_address: SocketAddress,
    pub http_api_address: SocketAddress,
    pub jsonrpc_api_address: SocketAddress,
    pub bootstrap: bool,
    pub bootstrap_node_addresses: Option<Vec<SocketAddress>>,
    /// Title of the API shown in its docs.
    pub http_api_title: String,
    /// API version shown in its docs.
    pub http_api_version: String,
    /// Run the node without networking.
    pub disable_networking: bool,
}

pub open spec fn opt_view(o: Option<String>) -> Option<Seq<char>> {
    match o {
        Some(s) => Some(s@),
        None => None,
    }
}

pub open spec fn addrs_view(o: Option<Vec<SocketAddress>>) -> Option<Seq<SocketAddress>> {
    match o {
        Some(v) => Some(v@),
        None => None,
    }
}

impl Default for RunOpts {
    /// Everything empty, false or absent; every address is `127.0.0.1` with a
    /// port the operating system assigns.
    fn default() -> (r: Self)
        ensures
            !r.dettached,
            !r.debug_config,
            r.id is None,
            r.idx is None,
            r.node_type@.len() == 0,
            r.data_dir@.len() == 0,
            r.db_path@.len() == 0,
            r.udp_gossip_address == SocketAddress::localhost_spec(0),
            r.raptorq_gossip_address == SocketAddress::localhost_spec(0),
            r.http_api_address == SocketAddress::localhost_spec(0),
            r.jsonrpc_api_address == SocketAddress::localhost_spec(0),
            !r.bootstrap,
            r.bootstrap_node_addresses is None,
            r.http_api_title@.len() == 0,
            r.http_api_version@.len() == 0,
            !r.disable_networking,
    {
        let localhost_with_random_port = SocketAddress::localhost(0);
        RunOpts {
            dettached: false,
            debug_config: false,
            id: None,
            idx: None,
            node_type: String::new(),
            data_dir: String::new(),
            db_path: String::new(),
            udp_gossip_address: localhost_with_random_port,
            raptorq_gossip_address: localhost_with_random_port,
            http_api_address: localhost_with_random_port,
            jsonrpc_api_address: localhost_with_random_port,
            bootstrap: false,
            bootstrap_node_addresses: None,
            http_api_title: String::new(),
            http_api_version: String::new(),
            disable_networking: false,
        }
    }
}

impl RunOpts {
    /// Combines these options with `other`: the node type, paths, API title and
    /// version, id and index are taken from `self` where it has them (a known
    /// node type, a non-empty text, a value), the bootstrap addresses from
    /// `other` where it has them, the flags and the other addresses from
    /// `other`; networking is left enabled.
    pub fn merge(&self, other: &Self) -> (r: Self)
        ensures
            r.node_type@ == (if node_type_named(self.node_type@) is Some {
                self.node_type@
            } else {
                other.node_type@
            }),
            r.data_dir@ == non_empty_or(self.data_dir@, other.data_dir@),
            r.db_path@ == non_empty_or(self.db_path@, other.db_path@),
            addrs_view(r.bootstrap_node_addresses) == (if other.bootstrap_node_addresses is None {
                addrs_view(self.bootstrap_node_addresses)
            } else {
                addrs_view(other.bootstrap_node_addresses)
            }),
            r.http_api_title@ == non_empty_or(self.http_api_title@, other.http_api_title@),
            r.http_api_version@ == non_empty_or(self.http_api_version@, other.http_api_version@),
            r.dettached == other.dettached,
            r.debug_config == other.debug_config,
            opt_view(r.id) == (if self.id is Some {
                opt_view(self.id)
            } else {
                opt_view(other.id)
            }),
            r.idx == (if self.idx is Some {
                self.idx
            } else {
                other.idx
            }),
            r.udp_gossip_address == other.udp_gossip_address,
            r.raptorq_gossip_address == other.raptorq_gossip_address,
            r.jsonrpc_api_address == other.jsonrpc_api_address,
            r.bootstrap == other.bootstrap,
            r.http_api_address == other.http_api_address,
            !r.disable_networking,
    {
        let node_type = match parse_node_type(&self.node_type) {
            Some(_) => self.node_type.clone(),
            None => other.node_type.clone(),
        };
        let data_dir = pick_non_empty(&self.data_dir, &other.data_dir);
        let db_path = pick_non_empty(&self.db_path, &other.db_path);
        let bootstrap_node_addresses = if other.bootstrap_node_addresses.is_none() {
            copy_addresses(&self.bootstrap_node_addresses)
        } else {
            copy_addresses(&other.bootstrap_node_addresses)
        };
        let http_api_title = pick_non_empty(&self.http_api_title, &other.http_api_title);
        let http_api_version = pick_non_empty(&self.http_api_version, &other.http_api_version);
        let id = match &self.id {
            Some(s) => Some(s.clone()),
            None => match &other.id {
                Some(s) => Some(s.clone()),
                None => None,
            },
        };
        let idx = match self.idx {
            Some(i) => Some(i),
            None => other.idx,
        };
        RunOpts {
            dettached: other.dettached,
            debug_config: other.debug_config,
            id,
            idx,
            node_type,
            data_dir,
            db_path,
            udp_gossip_address: other.udp_gossip_address,
            raptorq_gossip_address: other.raptorq_gossip_address,
            jsonrpc_api_address: other.jsonrpc_api_address,
            bootstrap: other.bootstrap,
            bootstrap_node_addresses,
            http_api_address: other.http_api_address,
            http_api_title,
            http_api_version,
            disable_networking: false,
        }
    }
}

impl NodeConfig {
    /// The configuration these options describe, with `defaults` where they
    /// leave something open: an unknown node type, an empty API title, no id,
    /// index or bootstrap addresses. The shutdown timeout, mock state and keys
    /// always come from `defaults`.
    pub fn from_opts(opts: RunOpts, defaults: NodeConfig) -> (r: NodeConfig)
        ensures
            r.node_type == (match node_type_named(opts.node_type@) {
                Some(t) => t,
                None => defaults.node_type,
            }),
            r.http_api_title@ == non_empty_or(opts.http_api_title@, defaults.http_api_title@),
            r.id@ == (match opt_view(opts.id) {
                Some(s) => s,
                None => defaults.id@,
            }),
            r.idx == (match opts.idx {
                Some(i) => i,
                None => defaults.idx,
            }),
            r.data_dir@ == opts.data_dir@,
            r.db_path@ == opts.db_path@,
            r.raptorq_gossip_address == opts.raptorq_gossip_address,
            r.udp_gossip_address == opts.udp_gossip_address,
            r.http_api_address == opts.http_api_address,
            r.http_api_version@ == opts.http_api_version@,
            r.http_api_shutdown_timeout == defaults.http_api_shutdown_timeout,
            r.jsonrpc_server_address == opts.jsonrpc_api_address,
            r.preload_mock_state == defaults.preload_mock_state,
            r.bootstrap_node_addresses@ == (match addrs_view(opts.bootstrap_node_addresses) {
                Some(a) => a,
                None => defaults.bootstrap_node_addresses@,
            }),
            r.keypair.secret_key@ == defaults.keypair.secret_key@,
            r.keypair.public_key@ == defaults.keypair.public_key@,
            r.disable_networking == opts.disable_networking,
    {
        let node_type = match parse_node_type(&opts.node_type) {
            Some(t) => t,
            None => defaults.node_type,
        };
        let http_api_title = pick_non_empty(&opts.http_api_title, &defaults.http_api_title);
        let id = match opts.id {
            Some(s) => s,
            None => defaults.id,
        };
        let idx = match opts.idx {
            Some(i) => i,
            None => defaults.idx,
        };
        let bootstrap_node_addresses = match opts.bootstrap_node_addresses {
            Some(a) => a,
            None => defaults.bootstrap_node_addresses,
        };
        NodeConfig {
            id,
            idx,
            data_dir: opts.data_dir,
            db_path: opts.db_path,
            node_type,
            raptorq_gossip_address: opts.raptorq_gossip_address,
            udp_gossip_address: opts.udp_gossip_address,
            http_api_address: opts.http_api_address,
            http_api_title,
            http_api_version: opts.http_api_version,
            http_api_shutdown_timeout: defaults.http_api_shutdown_timeout,
            jsonrpc_server_address: opts.jsonrpc_api_address,
            preload_mock_state: defaults.preload_mock_state,
            bootstrap_node_addresses,
            keypair: defaults.keypair,
            disable_networking: opts.disable_networking,
        }
    }
}

} // verus!
