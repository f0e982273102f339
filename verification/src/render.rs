//! Rendering the model as document nodes. A record becomes a mapping whose
//! keys are the fixed field names of the output format, in a fixed order; a
//! field that the record does not have is left out.

use crate::document::{
    entries_view, lemma_mapping_view, lemma_sequence_view, node_view, nodes_view, Node, NodeView,
};
use crate::model::{
    ClashConfig, ClashConfigView, GrpcOpts, GrpcOptsView, Hysteria2Proxy, Hysteria2View, Proxy,
    ProxyGroup, ProxyGroupView, ProxyView, RealityOpts, RealityOptsView, ShadowsocksProxy,
    ShadowsocksView, TrojanProxy, TrojanView, TuicProxy, TuicView, VlessProxy, VlessView,
    VmessProxy, VmessView, WireGuardProxy, WireGuardView, WsOpts, WsOptsView,
};
use vstd::prelude::*;

verus! {

pub type Entries = Seq<(NodeView, NodeView)>;

/// One entry: `value` under the string key `key`.
pub open spec fn entry(key: Seq<char>, value: NodeView) -> Entries {
    seq![(NodeView::Text(key), value)]
}

/// One entry for a value that is there, none for one that is not.
pub open spec fn opt_entry(key: Seq<char>, value: Option<NodeView>) -> Entries {
    match value {
        Some(v) => entry(key, v),
        None => Seq::empty(),
    }
}

pub open spec fn text(value: Seq<char>) -> NodeView {
    NodeView::Text(value)
}

pub open spec fn opt_text(value: Option<Seq<char>>) -> Option<NodeView> {
    match value {
        Some(v) => Some(NodeView::Text(v)),
        None => None,
    }
}

pub open spec fn opt_bool(value: Option<bool>) -> Option<NodeView> {
    match value {
        Some(v) => Some(NodeView::Bool(v)),
        None => None,
    }
}

pub open spec fn number(value: int) -> NodeView {
    NodeView::Unsigned(value as u64)
}

pub open spec fn opt_number(value: Option<u32>) -> Option<NodeView> {
    match value {
        Some(v) => Some(number(v as int)),
        None => None,
    }
}

/// A sequence of strings.
pub open spec fn text_list(values: Seq<Seq<char>>) -> NodeView {
    NodeView::Sequence(Seq::new(values.len(), |i: int| NodeView::Text(values[i])))
}

pub open spec fn opt_text_list(values: Option<Seq<Seq<char>>>) -> Option<NodeView> {
    match values {
        Some(v) => Some(text_list(v)),
        None => None,
    }
}

/// A sequence of small numbers.
pub open spec fn byte_list(values: Seq<u8>) -> NodeView {
    NodeView::Sequence(Seq::new(values.len(), |i: int| number(values[i] as int)))
}

pub open spec fn opt_byte_list(values: Option<Seq<u8>>) -> Option<NodeView> {
    match values {
        Some(v) => Some(byte_list(v)),
        None => None,
    }
}

/// A mapping from strings to strings, in the order of the pairs.
pub open spec fn text_map(pairs: Seq<(Seq<char>, Seq<char>)>) -> NodeView {
    NodeView::Mapping(
        Seq::new(pairs.len(), |i: int| (NodeView::Text(pairs[i].0), NodeView::Text(pairs[i].1))),
    )
}

pub open spec fn opt_text_map(pairs: Option<Seq<(Seq<char>, Seq<char>)>>) -> Option<NodeView> {
    match pairs {
        Some(v) => Some(text_map(v)),
        None => None,
    }
}

pub open spec fn reality_node(o: RealityOptsView) -> NodeView {
    NodeView::Mapping(
        entry("public-key"@, text(o.public_key)) + entry("short-id"@, text(o.short_id)),
    )
}

pub open spec fn ws_node(o: WsOptsView) -> NodeView {
    NodeView::Mapping(entry("path"@, text(o.path)) + opt_entry("headers"@, opt_text_map(o.headers)))
}

pub open spec fn grpc_node(o: GrpcOptsView) -> NodeView {
    NodeView::Mapping(entry("grpc-service-name"@, text(o.grpc_service_name)))
}

pub open spec fn opt_reality(o: Option<RealityOptsView>) -> Option<NodeView> {
    match o {
        Some(v) => Some(reality_node(v)),
        None => None,
    }
}

pub open spec fn opt_ws(o: Option<WsOptsView>) -> Option<NodeView> {
    match o {
        Some(v) => Some(ws_node(v)),
        None => None,
    }
}

pub open spec fn opt_grpc(o: Option<GrpcOptsView>) -> Option<NodeView> {
    match o {
        Some(v) => Some(grpc_node(v)),
        None => None,
    }
}

/// The entries that every proxy begins with.
pub open spec fn head_entries(kind: Seq<char>, name: Seq<char>, server: Seq<char>, port: u16) -> Entries {
    entry("type"@, text(kind)) + entry("name"@, text(name)) + entry("server"@, text(server))
        + entry("port"@, number(port as int))
}

pub open spec fn vless_entries(p: VlessView) -> Entries {
    head_entries("vless"@, p.name, p.server, p.port) + entry("uuid"@, text(p.uuid)) + opt_entry(
        "flow"@,
        opt_text(p.flow),
    ) + opt_entry("udp"@, opt_bool(p.udp)) + opt_entry("tls"@, opt_bool(p.tls)) + opt_entry(
        "skip-cert-verify"@,
        opt_bool(p.skip_cert_verify),
    ) + opt_entry("servername"@, opt_text(p.servername)) + opt_entry(
        "network"@,
        opt_text(p.network),
    ) + opt_entry("client-fingerprint"@, opt_text(p.client_fingerprint)) + opt_entry(
        "reality-opts"@,
        opt_reality(p.reality_opts),
    ) + opt_entry("ws-opts"@, opt_ws(p.ws_opts)) + opt_entry("grpc-opts"@, opt_grpc(p.grpc_opts))
}

pub open spec fn vmess_entries(p: VmessView) -> Entries {
    head_entries("vmess"@, p.name, p.server, p.port) + entry("uuid"@, text(p.uuid)) + entry(
        "alterId"@,
        number(p.alter_id as int),
    ) + entry("cipher"@, text(p.cipher)) + opt_entry("udp"@, opt_bool(p.udp)) + opt_entry(
        "tls"@,
        opt_bool(p.tls),
    ) + opt_entry("skip-cert-verify"@, opt_bool(p.skip_cert_verify)) + opt_entry(
        "servername"@,
        opt_text(p.servername),
    ) + opt_entry("network"@, opt_text(p.network)) + opt_entry("ws-opts"@, opt_ws(p.ws_opts))
}

pub open spec fn hysteria2_entries(p: Hysteria2View) -> Entries {
    head_entries("hysteria2"@, p.name, p.server, p.port) + entry("password"@, text(p.password))
        + opt_entry("sni"@, opt_text(p.sni)) + opt_entry(
        "skip-cert-verify"@,
        opt_bool(p.skip_cert_verify),
    ) + opt_entry("obfs"@, opt_text(p.obfs)) + opt_entry(
        "obfs-password"@,
        opt_text(p.obfs_password),
    )
}

pub open spec fn trojan_entries(p: TrojanView) -> Entries {
    head_entries("trojan"@, p.name, p.server, p.port) + entry("password"@, text(p.password))
        + opt_entry("udp"@, opt_bool(p.udp)) + opt_entry("tls"@, opt_bool(p.tls)) + opt_entry(
        "skip-cert-verify"@,
        opt_bool(p.skip_cert_verify),
    ) + opt_entry("servername"@, opt_text(p.servername)) + opt_entry(
        "network"@,
        opt_text(p.network),
    ) + opt_entry("client-fingerprint"@, opt_text(p.client_fingerprint)) + opt_entry(
        "flow"@,
        opt_text(p.flow),
    ) + opt_entry("reality-opts"@, opt_reality(p.reality_opts))
}

pub open spec fn shadowsocks_entries(p: ShadowsocksView) -> Entries {
    head_entries("ss"@, p.name, p.server, p.port) + entry("password"@, text(p.password)) + entry(
        "cipher"@,
        text(p.cipher),
    ) + opt_entry("udp"@, opt_bool(p.udp)) + opt_entry("network"@, opt_text(p.network))
        + opt_entry("plugin"@, opt_text(p.plugin)) + opt_entry(
        "plugin-opts"@,
        opt_text_map(p.plugin_opts),
    )
}

pub open spec fn tuic_entries(p: TuicView) -> Entries {
    head_entries("tuic"@, p.name, p.server, p.port) + entry("password"@, text(p.password)) + entry(
        "uuid"@,
        text(p.uuid),
    ) + opt_entry("udp"@, opt_bool(p.udp)) + opt_entry("tls"@, opt_bool(p.tls)) + opt_entry(
        "skip-cert-verify"@,
        opt_bool(p.skip_cert_verify),
    ) + opt_entry("servername"@, opt_text(p.servername)) + opt_entry(
        "alpn"@,
        opt_text_list(p.alpn),
    ) + opt_entry("congestion-controller"@, opt_text(p.congestion_controller)) + opt_entry(
        "zero-rtt"@,
        opt_bool(p.zero_rtt),
    )
}

pub open spec fn wireguard_entries(p: WireGuardView) -> Entries {
    head_entries("wireguard"@, p.name, p.server, p.port) + opt_entry("ip"@, opt_text(p.ip))
        + opt_entry("ipv6"@, opt_text(p.ipv6)) + entry("private-key"@, text(p.private_key)) + entry("public-key"@, text(p.public_key))
        + opt_entry("pre-shared-key"@, opt_text(p.pre_shared_key)) + entry(
        "allowed-ips"@,
        text_list(p.allowed_ips),
    ) + opt_entry("udp"@, opt_bool(p.udp)) + opt_entry("mtu"@, opt_number(p.mtu)) + opt_entry(
        "reserved"@,
        opt_byte_list(p.reserved),
    )
}

/// The mapping that a proxy is rendered as.
pub open spec fn proxy_node(p: ProxyView) -> NodeView {
    NodeView::Mapping(
        match p {
            ProxyView::Vless(v) => vless_entries(v),
            ProxyView::Vmess(v) => vmess_entries(v),
            ProxyView::Hysteria2(v) => hysteria2_entries(v),
            ProxyView::Trojan(v) => trojan_entries(v),
            ProxyView::Shadowsocks(v) => shadowsocks_entries(v),
            ProxyView::Tuic(v) => tuic_entries(v),
            ProxyView::WireGuard(v) => wireguard_entries(v),
        },
    )
}

/// The nodes that the proxies are rendered as, in order.
pub open spec fn proxy_nodes(proxies: Seq<ProxyView>) -> Seq<NodeView> {
    Seq::new(proxies.len(), |i: int| proxy_node(proxies[i]))
}

/// The mapping that a group is rendered as.
pub open spec fn group_node(g: ProxyGroupView) -> NodeView {
    NodeView::Mapping(
        entry("name"@, text(g.name)) + entry("type"@, text(g.group_type)) + entry(
            "proxies"@,
            text_list(g.proxies),
        ) + opt_entry("url"@, opt_text(g.url)) + opt_entry("interval"@, opt_number(g.interval)),
    )
}

/// The document that a configuration is rendered as.
pub open spec fn config_node(c: ClashConfigView) -> NodeView {
    NodeView::Mapping(
        entry(
            "proxies"@,
            NodeView::Sequence(proxy_nodes(c.proxies)),
        ) + entry(
            "proxy-groups"@,
            NodeView::Sequence(Seq::new(c.proxy_groups.len(), |i: int| group_node(c.proxy_groups[i]))),
        ) + entry("rules"@, text_list(c.rules)),
    )
}

/// Appends `value` under the string key `key`.
fn push_entry(entries: &mut Vec<(Node, Node)>, key: &str, value: Node)
    ensures
        entries_view(final(entries)@) == entries_view(old(entries)@) + entry(
            key@,
            node_view(value),
        ),
{
    entries.push((Node::Text(key.to_owned()), value));
    assert(entries_view(entries@) =~= entries_view(old(entries)@) + entry(key@, node_view(value)));
}

/// Appends `value` under `key` where there is one.
fn push_opt(entries: &mut Vec<(Node, Node)>, key: &str, value: Option<Node>)
    ensures
        entries_view(final(entries)@) == entries_view(old(entries)@) + opt_entry(
            key@,
            match value {
                Some(v) => Some(node_view(v)),
                None => None,
            },
        ),
{
    match value {
        Some(v) => push_entry(entries, key, v),
        None => {
            assert(entries_view(entries@) + Seq::<(NodeView, NodeView)>::empty() =~= entries_view(
                entries@,
            ));
        },
    }
}

fn text_node(value: &String) -> (r: Node)
    ensures
        node_view(r) == text(value@),
{
    Node::Text(value.clone())
}

fn opt_text_node(value: &Option<String>) -> (r: Option<Node>)
    ensures
        (match r {
            Some(v) => Some(node_view(v)),
            None => None,
        }) == opt_text(value.deep_view()),
{
    match value {
        Some(v) => Some(Node::Text(v.clone())),
        None => None,
    }
}

fn opt_bool_node(value: Option<bool>) -> (r: Option<Node>)
    ensures
        (match r {
            Some(v) => Some(node_view(v)),
            None => None,
        }) == opt_bool(value),
{
    match value {
        Some(v) => Some(Node::Bool(v)),
        None => None,
    }
}

fn opt_number_node(value: Option<u32>) -> (r: Option<Node>)
    ensures
        (match r {
            Some(v) => Some(node_view(v)),
            None => None,
        }) == opt_number(value),
{
    match value {
        Some(v) => Some(Node::Unsigned(v as u64)),
        None => None,
    }
}

fn text_list_node(values: &Vec<String>) -> (r: Node)
    ensures
        node_view(r) == text_list(values.deep_view()),
{
    let mut items: Vec<Node> = Vec::new();
    let mut i: usize = 0;
    while i < values.len()
        invariant
            i <= values.len(),
            items.len() == i,
            forall|j: int| 0 <= j < i ==> node_view(#[trigger] items@[j]) == NodeView::Text(values@[j]@),
        decreases values.len() - i,
    {
        items.push(Node::Text(values[i].clone()));
        i += 1;
    }
    proof {
        lemma_sequence_view(items);
        assert(nodes_view(items@) =~= text_list(values.deep_view())->Sequence_0);
    }
    Node::Sequence(items)
}

fn byte_list_node(values: &Vec<u8>) -> (r: Node)
    ensures
        node_view(r) == byte_list(values@),
{
    let mut items: Vec<Node> = Vec::new();
    let mut i: usize = 0;
    while i < values.len()
        invariant
            i <= values.len(),
            items.len() == i,
            forall|j: int| 0 <= j < i ==> node_view(#[trigger] items@[j]) == number(values@[j] as int),
        decreases values.len() - i,
    {
        items.push(Node::Unsigned(values[i] as u64));
        i += 1;
    }
    proof {
        lemma_sequence_view(items);
        assert(nodes_view(items@) =~= byte_list(values@)->Sequence_0);
    }
    Node::Sequence(items)
}

fn text_map_node(pairs: &Vec<(String, String)>) -> (r: Node)
    ensures
        node_view(r) == text_map(pairs.deep_view()),
{
    let mut entries: Vec<(Node, Node)> = Vec::new();
    let mut i: usize = 0;
    while i < pairs.len()
        invariant
            i <= pairs.len(),
            entries.len() == i,
            forall|j: int|
                0 <= j < i ==> node_view((#[trigger] entries@[j]).0) == NodeView::Text(
                    pairs@[j].0@,
                ) && node_view(entries@[j].1) == NodeView::Text(pairs@[j].1@),
        decreases pairs.len() - i,
    {
        entries.push((Node::Text(pairs[i].0.clone()), Node::Text(pairs[i].1.clone())));
        i += 1;
    }
    proof {
        lemma_mapping_view(entries);
        assert(entries_view(entries@) =~= text_map(pairs.deep_view())->Mapping_0);
    }
    Node::Mapping(entries)
}

fn opt_text_list_node(values: &Option<Vec<String>>) -> (r: Option<Node>)
    ensures
        (match r {
            Some(v) => Some(node_view(v)),
            None => None,
        }) == opt_text_list(values.deep_view()),
{
    match values {
        Some(v) => Some(text_list_node(v)),
        None => None,
    }
}

fn opt_byte_list_node(values: &Option<Vec<u8>>) -> (r: Option<Node>)
    ensures
        (match r {
            Some(v) => Some(node_view(v)),
            None => None,
        }) == opt_byte_list(values.deep_view()),
{
    match values {
        Some(v) => {
            assert(v.deep_view() =~= v@);
            Some(byte_list_node(v))
        },
        None => None,
    }
}

fn opt_text_map_node(pairs: &Option<Vec<(String, String)>>) -> (r: Option<Node>)
    ensures
        (match r {
            Some(v) => Some(node_view(v)),
            None => None,
        }) == opt_text_map(pairs.deep_view()),
{
    match pairs {
        Some(v) => Some(text_map_node(v)),
        None => None,
    }
}

/// Renders the options of the "reality" security mode.
pub fn render_reality(o: &RealityOpts) -> (r: Node)
    ensures
        node_view(r) == reality_node(o.deep_view()),
{
    let mut e: Vec<(Node, Node)> = Vec::new();
    assert(entries_view(e@) =~= Seq::<(NodeView, NodeView)>::empty());
    push_entry(&mut e, "public-key", text_node(&o.public_key));
    push_entry(&mut e, "short-id", text_node(&o.short_id));
    proof {
        lemma_mapping_view(e);
        assert(entries_view(e@) =~= reality_node(o.deep_view())->Mapping_0);
    }
    Node::Mapping(e)
}

/// Renders the options of the "ws" transport.
pub fn render_ws(o: &WsOpts) -> (r: Node)
    ensures
        node_view(r) == ws_node(o.deep_view()),
{
    let mut e: Vec<(Node, Node)> = Vec::new();
    assert(entries_view(e@) =~= Seq::<(NodeView, NodeView)>::empty());
    push_entry(&mut e, "path", text_node(&o.path));
    push_opt(&mut e, "headers", opt_text_map_node(&o.headers));
    proof {
        lemma_mapping_view(e);
        assert(entries_view(e@) =~= ws_node(o.deep_view())->Mapping_0);
    }
    Node::Mapping(e)
}

/// Renders the options of the "grpc" transport.
pub fn render_grpc(o: &GrpcOpts) -> (r: Node)
    ensures
        node_view(r) == grpc_node(o.deep_view()),
{
    let mut e: Vec<(Node, Node)> = Vec::new();
    assert(entries_view(e@) =~= Seq::<(NodeView, NodeView)>::empty());
    push_entry(&mut e, "grpc-service-name", text_node(&o.grpc_service_name));
    proof {
        lemma_mapping_view(e);
        assert(entries_view(e@) =~= grpc_node(o.deep_view())->Mapping_0);
    }
    Node::Mapping(e)
}

fn opt_reality_node(o: &Option<RealityOpts>) -> (r: Option<Node>)
    ensures
        (match r {
            Some(v) => Some(node_view(v)),
            None => None,
        }) == opt_reality(o.deep_view()),
{
    match o {
        Some(v) => Some(render_reality(v)),
        None => None,
    }
}

fn opt_ws_node(o: &Option<WsOpts>) -> (r: Option<Node>)
    ensures
        (match r {
            Some(v) => Some(node_view(v)),
            None => None,
        }) == opt_ws(o.deep_view()),
{
    match o {
        Some(v) => Some(render_ws(v)),
        None => None,
    }
}

fn opt_grpc_node(o: &Option<GrpcOpts>) -> (r: Option<Node>)
    ensures
        (match r {
            Some(v) => Some(node_view(v)),
            None => None,
        }) == opt_grpc(o.deep_view()),
{
    match o {
        Some(v) => Some(render_grpc(v)),
        None => None,
    }
}

/// The entries that every proxy begins with.
fn head(kind: &str, name: &String, server: &String, port: u16) -> (e: Vec<(Node, Node)>)
    ensures
        entries_view(e@) == head_entries(kind@, name@, server@, port),
{
    let mut e: Vec<(Node, Node)> = Vec::new();
    assert(entries_view(e@) =~= Seq::<(NodeView, NodeView)>::empty());
    push_entry(&mut e, "type", Node::Text(kind.to_owned()));
    push_entry(&mut e, "name", text_node(name));
    push_entry(&mut e, "server", text_node(server));
    push_entry(&mut e, "port", Node::Unsigned(port as u64));
    assert(entries_view(e@) =~= head_entries(kind@, name@, server@, port));
    e
}

fn render_vless(p: &VlessProxy) -> (r: Node)
    ensures
        node_view(r) == NodeView::Mapping(vless_entries(p.deep_view())),
{
    let mut e = head("vless", &p.name, &p.server, p.port);
    push_entry(&mut e, "uuid", text_node(&p.uuid));
    push_opt(&mut e, "flow", opt_text_node(&p.flow));
    push_opt(&mut e, "udp", opt_bool_node(p.udp));
    push_opt(&mut e, "tls", opt_bool_node(p.tls));
    push_opt(&mut e, "skip-cert-verify", opt_bool_node(p.skip_cert_verify));
    push_opt(&mut e, "servername", opt_text_node(&p.servername));
    push_opt(&mut e, "network", opt_text_node(&p.network));
    push_opt(&mut e, "client-fingerprint", opt_text_node(&p.client_fingerprint));
    push_opt(&mut e, "reality-opts", opt_reality_node(&p.reality_opts));
    push_opt(&mut e, "ws-opts", opt_ws_node(&p.ws_opts));
    push_opt(&mut e, "grpc-opts", opt_grpc_node(&p.grpc_opts));
    proof {
        lemma_mapping_view(e);
    }
    Node::Mapping(e)
}

fn render_vmess(p: &VmessProxy) -> (r: Node)
    ensures
        node_view(r) == NodeView::Mapping(vmess_entries(p.deep_view())),
{
    let mut e = head("vmess", &p.name, &p.server, p.port);
    push_entry(&mut e, "uuid", text_node(&p.uuid));
    push_entry(&mut e, "alterId", Node::Unsigned(p.alter_id as u64));
    push_entry(&mut e, "cipher", text_node(&p.cipher));
    push_opt(&mut e, "udp", opt_bool_node(p.udp));
    push_opt(&mut e, "tls", opt_bool_node(p.tls));
    push_opt(&mut e, "skip-cert-verify", opt_bool_node(p.skip_cert_verify));
    push_opt(&mut e, "servername", opt_text_node(&p.servername));
    push_opt(&mut e, "network", opt_text_node(&p.network));
    push_opt(&mut e, "ws-opts", opt_ws_node(&p.ws_opts));
    proof {
        lemma_mapping_view(e);
    }
    Node::Mapping(e)
}

fn render_hysteria2(p: &Hysteria2Proxy) -> (r: Node)
    ensures
        node_view(r) == NodeView::Mapping(hysteria2_entries(p.deep_view())),
{
    let mut e = head("hysteria2", &p.name, &p.server, p.port);
    push_entry(&mut e, "password", text_node(&p.password));
    push_opt(&mut e, "sni", opt_text_node(&p.sni));
    push_opt(&mut e, "skip-cert-verify", opt_bool_node(p.skip_cert_verify));
    push_opt(&mut e, "obfs", opt_text_node(&p.obfs));
    push_opt(&mut e, "obfs-password", opt_text_node(&p.obfs_password));
    proof {
        lemma_mapping_view(e);
    }
    Node::Mapping(e)
}

fn render_trojan(p: &TrojanProxy) -> (r: Node)
    ensures
        node_view(r) == NodeView::Mapping(trojan_entries(p.deep_view())),
{
    let mut e = head("trojan", &p.name, &p.server, p.port);
    push_entry(&mut e, "password", text_node(&p.password));
    push_opt(&mut e, "udp", opt_bool_node(p.udp));
    push_opt(&mut e, "tls", opt_bool_node(p.tls));
    push_opt(&mut e, "skip-cert-verify", opt_bool_node(p.skip_cert_verify));
    push_opt(&mut e, "servername", opt_text_node(&p.servername));
    push_opt(&mut e, "network", opt_text_node(&p.network));
    push_opt(&mut e, "client-fingerprint", opt_text_node(&p.client_fingerprint));
    push_opt(&mut e, "flow", opt_text_node(&p.flow));
    push_opt(&mut e, "reality-opts", opt_reality_node(&p.reality_opts));
    proof {
        lemma_mapping_view(e);
    }
    Node::Mapping(e)
}

fn render_shadowsocks(p: &ShadowsocksProxy) -> (r: Node)
    ensures
        node_view(r) == NodeView::Mapping(shadowsocks_entries(p.deep_view())),
{
    let mut e = head("ss", &p.name, &p.server, p.port);
    push_entry(&mut e, "password", text_node(&p.password));
    push_entry(&mut e, "cipher", text_node(&p.cipher));
    push_opt(&mut e, "udp", opt_bool_node(p.udp));
    push_opt(&mut e, "network", opt_text_node(&p.network));
    push_opt(&mut e, "plugin", opt_text_node(&p.plugin));
    push_opt(&mut e, "plugin-opts", opt_text_map_node(&p.plugin_opts));
    proof {
        lemma_mapping_view(e);
    }
    Node::Mapping(e)
}

fn render_tuic(p: &TuicProxy) -> (r: Node)
    ensures
        node_view(r) == NodeView::Mapping(tuic_entries(p.deep_view())),
{
    let mut e = head("tuic", &p.name, &p.server, p.port);
    push_entry(&mut e, "password", text_node(&p.password));
    push_entry(&mut e, "uuid", text_node(&p.uuid));
    push_opt(&mut e, "udp", opt_bool_node(p.udp));
    push_opt(&mut e, "tls", opt_bool_node(p.tls));
    push_opt(&mut e, "skip-cert-verify", opt_bool_node(p.skip_cert_verify));
    push_opt(&mut e, "servername", opt_text_node(&p.servername));
    push_opt(&mut e, "alpn", opt_text_list_node(&p.alpn));
    push_opt(&mut e, "congestion-controller", opt_text_node(&p.congestion_controller));
    push_opt(&mut e, "zero-rtt", opt_bool_node(p.zero_rtt));
    proof {
        lemma_mapping_view(e);
    }
    Node::Mapping(e)
}

fn render_wireguard(p: &WireGuardProxy) -> (r: Node)
    ensures
        node_view(r) == NodeView::Mapping(wireguard_entries(p.deep_view())),
{
    let mut e = head("wireguard", &p.name, &p.server, p.port);
    push_opt(&mut e, "ip", opt_text_node(&p.ip));
    push_opt(&mut e, "ipv6", opt_text_node(&p.ipv6));
    push_entry(&mut e, "private-key", text_node(&p.private_key));
    push_entry(&mut e, "public-key", text_node(&p.public_key));
    push_opt(&mut e, "pre-shared-key", opt_text_node(&p.pre_shared_key));
    push_entry(&mut e, "allowed-ips", text_list_node(&p.allowed_ips));
    push_opt(&mut e, "udp", opt_bool_node(p.udp));
    push_opt(&mut e, "mtu", opt_number_node(p.mtu));
    push_opt(&mut e, "reserved", opt_byte_list_node(&p.reserved));
    proof {
        lemma_mapping_view(e);
    }
    Node::Mapping(e)
}

/// Renders a proxy as a mapping.
pub fn render_proxy(p: &Proxy) -> (r: Node)
    ensures
        node_view(r) == proxy_node(p.deep_view()),
{
    match p {
        Proxy::Vless(v) => render_vless(v),
        Proxy::Vmess(v) => render_vmess(v),
        Proxy::Hysteria2(v) => render_hysteria2(v),
        Proxy::Trojan(v) => render_trojan(v),
        Proxy::Shadowsocks(v) => render_shadowsocks(v),
        Proxy::Tuic(v) => render_tuic(v),
        Proxy::WireGuard(v) => render_wireguard(v),
    }
}

/// Renders the proxies, in order.
pub fn render_proxies(proxies: &Vec<Proxy>) -> (r: Vec<Node>)
    ensures
        nodes_view(r@) == proxy_nodes(proxies.deep_view()),
{
    let mut r: Vec<Node> = Vec::new();
    let mut i: usize = 0;
    while i < proxies.len()
        invariant
            i <= proxies.len(),
            r.len() == i,
            forall|j: int|
                0 <= j < i ==> node_view(#[trigger] r@[j]) == proxy_node(proxies@[j].deep_view()),
        decreases proxies.len() - i,
    {
        r.push(render_proxy(&proxies[i]));
        i += 1;
    }
    assert(nodes_view(r@) =~= proxy_nodes(proxies.deep_view()));
    r
}

/// Renders a group as a mapping.
pub fn render_group(g: &ProxyGroup) -> (r: Node)
    ensures
        node_view(r) == group_node(g.deep_view()),
{
    let mut e: Vec<(Node, Node)> = Vec::new();
    assert(entries_view(e@) =~= Seq::<(NodeView, NodeView)>::empty());
    push_entry(&mut e, "name", text_node(&g.name));
    push_entry(&mut e, "type", text_node(&g.group_type));
    push_entry(&mut e, "proxies", text_list_node(&g.proxies));
    push_opt(&mut e, "url", opt_text_node(&g.url));
    push_opt(&mut e, "interval", opt_number_node(g.interval));
    proof {
        lemma_mapping_view(e);
        assert(entries_view(e@) =~= group_node(g.deep_view())->Mapping_0);
    }
    Node::Mapping(e)
}

/// Renders a configuration as a document.
pub fn render_config(c: &ClashConfig) -> (r: Node)
    ensures
        node_view(r) == config_node(c.deep_view()),
{
    let proxies = render_proxies(&c.proxies);
    let mut groups: Vec<Node> = Vec::new();
    let mut i: usize = 0;
    while i < c.proxy_groups.len()
        invariant
            i <= c.proxy_groups.len(),
            groups.len() == i,
            forall|j: int|
                0 <= j < i ==> node_view(#[trigger] groups@[j]) == group_node(
                    c.proxy_groups@[j].deep_view(),
                ),
        decreases c.proxy_groups.len() - i,
    {
        groups.push(render_group(&c.proxy_groups[i]));
        i += 1;
    }
    let mut e: Vec<(Node, Node)> = Vec::new();
    assert(entries_view(e@) =~= Seq::<(NodeView, NodeView)>::empty());
    proof {
        lemma_sequence_view(proxies);
        lemma_sequence_view(groups);
        assert(nodes_view(groups@) =~= Seq::new(
            c.deep_view().proxy_groups.len(),
            |i: int| group_node(c.deep_view().proxy_groups[i]),
        ));
    }
    push_entry(&mut e, "proxies", Node::Sequence(proxies));
    push_entry(&mut e, "proxy-groups", Node::Sequence(groups));
    push_entry(&mut e, "rules", text_list_node(&c.rules));
    proof {
        lemma_mapping_view(e);
        assert(entries_view(e@) =~= config_node(c.deep_view())->Mapping_0);
    }
    Node::Mapping(e)
}

} // verus!
