//! The configuration's document form: which JSON document stands for a
//! configuration, and which documents are read back as one.
use vstd::prelude::*;
use crate::config::{Config, ConfigError, ConfigView, InterfaceConfig, default_view};
use crate::json::{
    JsonTree, as_text, as_unsigned, get_member, member, object_of, object_value, parse_document,
    parsed, pretty_text, render_pretty, text_value, tree_of, unsigned_value,
};

verus! {


pub open spec fn network_key() -> Seq<char> {
    seq!['n', 'e', 't', 'w', 'o', 'r', 'k']
}

pub open spec fn interface_key() -> Seq<char> {
    seq!['i', 'n', 't', 'e', 'r', 'f', 'a', 'c', 'e']
}

pub open spec fn port_key() -> Seq<char> {
    seq!['p', 'o', 'r', 't']
}

pub open spec fn database_path_key() -> Seq<char> {
    seq!['d', 'a', 't', 'a', 'b', 'a', 's', 'e', '_', 'p', 'a', 't', 'h']
}

/// The document written for a configuration:
/// `{"network": {"interface": .., "port": ..}, "database_path": ..}`.
pub open spec fn config_tree(c: ConfigView) -> JsonTree {
    JsonTree::Object(
        map![
            network_key() => JsonTree::Object(
                map![
                    interface_key() => JsonTree::Str(c.interface),
                    port_key() => JsonTree::UInt(c.port as nat),
                ],
            ),
            database_path_key() => JsonTree::Str(c.database_path),
        ],
    )
}

/// The configuration that a document holds: an object with a `network` object
/// (a string `interface` and an integer `port` that fits in 16 bits) and a
/// string `database_path`. Other members are ignored; a missing one is an error.
pub open spec fn config_of_tree(t: JsonTree) -> Option<ConfigView> {
    match (member(t, network_key()), member(t, database_path_key())) {
        (Some(net), Some(JsonTree::Str(path))) => match (
            member(net, interface_key()),
            member(net, port_key()),
        ) {
            (Some(JsonTree::Str(iface)), Some(JsonTree::UInt(port))) => if port <= u16::MAX {
                Some(ConfigView { interface: iface, port: port as u16, database_path: path })
            } else {
                None
            },
            _ => None,
        },
        _ => None,
    }
}

/// The configuration that a text holds, if it holds one.
pub open spec fn config_of_text(text: Seq<char>) -> Option<ConfigView> {
    match parsed(text) {
        Some(t) => config_of_tree(t),
        None => None,
    }
}

/// Reading back the document written for a configuration gives that same
/// configuration, field for field.
pub proof fn lemma_round_trip(c: ConfigView)
    ensures
        config_of_tree(config_tree(c)) == Some(c),
{
    let t = config_tree(c);
    let net = JsonTree::Object(
        map![interface_key() => JsonTree::Str(c.interface), port_key() => JsonTree::UInt(c.port as nat)],
    );
    assert(network_key() != database_path_key()) by {
        assert(network_key().len() != database_path_key().len());
    }
    assert(interface_key() != port_key()) by {
        assert(interface_key().len() != port_key().len());
    }
    assert(member(t, network_key()) == Some(net));
    assert(member(t, database_path_key()) == Some(JsonTree::Str(c.database_path)));
    assert(member(net, interface_key()) == Some(JsonTree::Str(c.interface)));
    assert(member(net, port_key()) == Some(JsonTree::UInt(c.port as nat)));
}

/// The document for a configuration.
pub fn to_value(c: &Config) -> (r: serde_jsonrc::Value)
    ensures
        tree_of(r) == config_tree(c@),
{
    proof {
        reveal_strlit("interface");
        reveal_strlit("port");
        reveal_strlit("network");
        reveal_strlit("database_path");
    }
    let k_iface = "interface".to_owned();
    let k_port = "port".to_owned();
    let iface = text_value(c.network.interface.clone());
    let port = unsigned_value(c.network.port);
    let net_entries = vec![(k_iface, iface), (k_port, port)];
    assert(net_entries@[0].0@ != net_entries@[1].0@) by {
        assert(net_entries@[0].0@.len() != net_entries@[1].0@.len());
    }
    let net = object_value(net_entries);
    let ghost net_tree = tree_of(net);
    let k_net = "network".to_owned();
    let k_path = "database_path".to_owned();
    let path = text_value(c.database_path.clone());
    let entries = vec![(k_net, net), (k_path, path)];
    assert(entries@[0].0@ != entries@[1].0@) by {
        assert(entries@[0].0@.len() != entries@[1].0@.len());
    }
    let r = object_value(entries);
    proof {
        reveal_with_fuel(object_of, 3);
        assert(net_entries@.len() == 2);
        assert(net_entries@[0].0@ == interface_key());
        assert(net_entries@[1].0@ == port_key());
        assert(tree_of(net_entries@[0].1) == JsonTree::Str(c.network.interface@));
        assert(net_entries@.drop_last().drop_last() =~= Seq::empty());
        assert(entries@.drop_last().drop_last() =~= Seq::empty());
        assert(entries@.len() == 2);
        assert(entries@[0].0@ == network_key());
        assert(entries@[1].0@ == database_path_key());
        assert(tree_of(entries@[0].1) == net_tree);
        assert(tree_of(entries@[1].1) == JsonTree::Str(c.database_path@));
        assert(object_of(net_entries@) =~= map![
            interface_key() => JsonTree::Str(c.network.interface@),
            port_key() => JsonTree::UInt(c.network.port as nat),
        ]);
        assert(object_of(entries@) =~= map![
            network_key() => net_tree,
            database_path_key() => JsonTree::Str(c.database_path@),
        ]);
    }
    r
}

/// The configuration that a document holds; `Parse` where it holds none.
pub fn from_value(v: &serde_jsonrc::Value) -> (r: Result<Config, ConfigError>)
    ensures
        match config_of_tree(tree_of(*v)) {
            Some(cv) => r is Ok && r->Ok_0@ == cv,
            None => r == Err::<Config, ConfigError>(ConfigError::Parse),
        },
{
    proof {
        reveal_strlit("interface");
        reveal_strlit("port");
        reveal_strlit("network");
        reveal_strlit("database_path");
        assert("network"@ =~= network_key());
        assert("database_path"@ =~= database_path_key());
        assert("interface"@ =~= interface_key());
        assert("port"@ =~= port_key());
    }
    let net = match get_member(v, "network") {
        Some(n) => n,
        None => return Err(ConfigError::Parse),
    };
    let path = match get_member(v, "database_path") {
        Some(p) => p,
        None => return Err(ConfigError::Parse),
    };
    let database_path = match as_text(&path) {
        Some(s) => s,
        None => return Err(ConfigError::Parse),
    };
    let iface = match get_member(&net, "interface") {
        Some(i) => i,
        None => return Err(ConfigError::Parse),
    };
    let interface = match as_text(&iface) {
        Some(s) => s,
        None => return Err(ConfigError::Parse),
    };
    let port_value = match get_member(&net, "port") {
        Some(p) => p,
        None => return Err(ConfigError::Parse),
    };
    let port = match as_unsigned(&port_value) {
        Some(p) => p,
        None => return Err(ConfigError::Parse),
    };
    if port > u16::MAX as u64 {
        return Err(ConfigError::Parse);
    }
    Ok(Config { network: InterfaceConfig { interface, port: port as u16 }, database_path })
}

/// The pretty-printed text of a configuration's document.
pub fn encode(c: &Config) -> (r: Result<String, ConfigError>)
    ensures
        r is Ok,
        r->Ok_0@ == pretty_text(config_tree(c@)),
{
    let v = to_value(c);
    match render_pretty(&v) {
        Ok(text) => Ok(text),
        Err(_) => Err(ConfigError::Serialize),
    }
}

/// The configuration that a text holds; `Parse` where the text is not a
/// document, or a document that is not a configuration.
pub fn decode(text: &str) -> (r: Result<Config, ConfigError>)
    ensures
        match config_of_text(text@) {
            Some(cv) => r is Ok && r->Ok_0@ == cv,
            None => r == Err::<Config, ConfigError>(ConfigError::Parse),
        },
{
    match parse_document(text) {
        Ok(v) => from_value(&v),
        Err(_) => Err(ConfigError::Parse),
    }
}

/// What is written where no configuration file exists: the default
/// configuration and its text.
pub fn materialize_defaults() -> (r: Result<(Config, String), ConfigError>)
    ensures
        r is Ok,
        r->Ok_0.0@ == default_view(),
        r->Ok_0.1@ == pretty_text(config_tree(default_view())),
{
    let c = Config::default();
    match encode(&c) {
        Ok(text) => Ok((c, text)),
        Err(e) => Err(e),
    }
}

} // verus!
