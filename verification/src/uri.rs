//! The decoders of the links that are URIs: vless, hysteria2, trojan and
//! tuic. The `url` crate takes a link apart; what a decoder makes of the
//! parts is decided here.

use crate::model::{
    GrpcOpts, GrpcOptsView, Hysteria2Proxy, Hysteria2View, Proxy, ProxyView, RealityOpts,
    RealityOptsView, TrojanProxy, TrojanView, TuicProxy, TuicView, VlessProxy, VlessView, WsOpts,
    WsOptsView,
};
use crate::text::{chars_of, same_text, split_chars, split_on, string_of, views};
use vstd::prelude::*;

verus! {

/// What the decoders read of a parsed URI. The query holds its pairs in the
/// order of the link.
#[derive(Clone, Debug, PartialEq, Eq)]
pub struct UrlParts {
    pub username: String,
    pub password: Option<String>,
    pub host: Option<String>,
    pub port: Option<u16>,
    pub query: Vec<(String, String)>,
    pub fragment: Option<String>,
}

pub ghost struct UrlPartsView {
    pub username: Seq<char>,
    pub password: Option<Seq<char>>,
    pub host: Option<Seq<char>>,
    pub port: Option<u16>,
    pub query: Seq<(Seq<char>, Seq<char>)>,
    pub fragment: Option<Seq<char>>,
}

impl DeepView for UrlParts {
    type V = UrlPartsView;

    open spec fn deep_view(&self) -> UrlPartsView {
        UrlPartsView {
            username: self.username@,
            password: self.password.deep_view(),
            host: self.host.deep_view(),
            port: self.port,
            query: self.query.deep_view(),
            fragment: self.fragment.deep_view(),
        }
    }
}

/// The parts of a link as `url::Url::parse` finds them, where it accepts
/// the link: the user name, password, host, port, query pairs and fragment
/// that the methods of `url::Url` return.
pub uninterp spec fn url_parts(link: Seq<char>) -> Option<UrlPartsView>;

/// `url::Url::parse`, and of the URL that it returns `username`, `password`,
/// `host_str`, `port`, `query_pairs` and `fragment`: the result holds the
/// parts that `url_parts` names for the link, and is none where the link is
/// refused.
#[verifier::external_body]
fn split_url(link: &str) -> (r: Option<UrlParts>)
    ensures
        r.deep_view() == url_parts(link@),
{
    let url = url::Url::parse(link).ok()?;
    Some(
        UrlParts {
            username: url.username().to_owned(),
            password: url.password().map(str::to_owned),
            host: url.host_str().map(str::to_owned),
            port: url.port(),
            query: url.query_pairs().into_owned().collect(),
            fragment: url.fragment().map(str::to_owned),
        },
    )
}

/// The parts of a link, where it is a URI.
pub fn parse_url(link: &str) -> (r: Option<UrlParts>)
    ensures
        r.deep_view() == url_parts(link@),
{
    split_url(link)
}

/// The value of the last pair of the query whose key is `key`.
pub open spec fn query_get(query: Seq<(Seq<char>, Seq<char>)>, key: Seq<char>) -> Option<Seq<char>>
    decreases query.len(),
{
    if query.len() == 0 {
        None
    } else if query.last().0 == key {
        Some(query.last().1)
    } else {
        query_get(query.drop_last(), key)
    }
}

/// `value`, or `default` where there is none.
pub open spec fn value_or(value: Option<Seq<char>>, default: Seq<char>) -> Seq<char> {
    match value {
        Some(v) => v,
        None => default,
    }
}

/// The display name: the fragment where the link has one that is not empty,
/// else the default of the protocol.
pub open spec fn display_name(fragment: Option<Seq<char>>, default: Seq<char>) -> Seq<char> {
    match fragment {
        Some(f) => if f.len() > 0 {
            f
        } else {
            default
        },
        None => default,
    }
}

/// Whether the value of a flag switches it on.
pub open spec fn is_on(value: Seq<char>) -> bool {
    value == "1"@ || value == "true"@
}

/// Whether a flag is on, where the query has it.
pub open spec fn flag(value: Option<Seq<char>>) -> Option<bool> {
    match value {
        Some(v) => Some(is_on(v)),
        None => None,
    }
}

/// The server and the port of a link: there are none unless the link names
/// a host that is not empty and a port.
pub open spec fn server_of(u: UrlPartsView) -> Option<(Seq<char>, u16)> {
    match (u.host, u.port) {
        (Some(host), Some(port)) => if host.len() > 0 {
            Some((host, port))
        } else {
            None
        },
        _ => None,
    }
}

/// The reality options of a query.
pub open spec fn reality_of(query: Seq<(Seq<char>, Seq<char>)>) -> RealityOptsView {
    RealityOptsView {
        public_key: value_or(query_get(query, "pbk"@), ""@),
        short_id: value_or(query_get(query, "sid"@), ""@),
    }
}

/// The proxy that a vless link with these parts describes. The transport
/// decides the option block: "ws" and "grpc" bring their own, and the
/// security mode "reality" brings one for any other transport.
pub open spec fn vless_from(u: UrlPartsView) -> Option<ProxyView> {
    match server_of(u) {
        Some((server, port)) => {
            let q = u.query;
            let security = query_get(q, "security"@);
            let network = query_get(q, "type"@);
            let sni = query_get(q, "sni"@);
            let is_ws = network == Some("ws"@);
            let is_grpc = network == Some("grpc"@);
            Some(
                ProxyView::Vless(
                    VlessView {
                        name: display_name(u.fragment, "VLESS Node"@),
                        server,
                        port,
                        uuid: u.username,
                        flow: query_get(q, "flow"@),
                        udp: Some(true),
                        tls: Some(security is Some),
                        skip_cert_verify: if flag(query_get(q, "allowInsecure"@)) == Some(true) {
                            Some(true)
                        } else {
                            None
                        },
                        servername: sni,
                        network,
                        client_fingerprint: query_get(q, "fp"@),
                        reality_opts: if security == Some("reality"@) && !is_ws && !is_grpc {
                            Some(reality_of(q))
                        } else {
                            None
                        },
                        ws_opts: if is_ws {
                            Some(
                                WsOptsView {
                                    path: value_or(query_get(q, "path"@), "/"@),
                                    headers: Some(seq![("Host"@, value_or(sni, server))]),
                                },
                            )
                        } else {
                            None
                        },
                        grpc_opts: if is_grpc {
                            Some(
                                GrpcOptsView {
                                    grpc_service_name: value_or(query_get(q, "serviceName"@), ""@),
                                },
                            )
                        } else {
                            None
                        },
                    },
                ),
            )
        },
        None => None,
    }
}

/// The proxy that a hysteria2 link with these parts describes.
pub open spec fn hysteria2_from(u: UrlPartsView) -> Option<ProxyView> {
    match server_of(u) {
        Some((server, port)) => Some(
            ProxyView::Hysteria2(
                Hysteria2View {
                    name: display_name(u.fragment, "Hy2 Node"@),
                    server,
                    port,
                    password: u.username,
                    sni: query_get(u.query, "sni"@),
                    skip_cert_verify: Some(true),
                    obfs: query_get(u.query, "obfs"@),
                    obfs_password: query_get(u.query, "obfs-password"@),
                },
            ),
        ),
        None => None,
    }
}

/// The proxy that a trojan link with these parts describes.
pub open spec fn trojan_from(u: UrlPartsView) -> Option<ProxyView> {
    match server_of(u) {
        Some((server, port)) => Some(
            ProxyView::Trojan(
                TrojanView {
                    name: display_name(u.fragment, "Trojan Node"@),
                    server,
                    port,
                    password: u.username,
                    udp: Some(true),
                    tls: Some(true),
                    skip_cert_verify: Some(true),
                    servername: query_get(u.query, "sni"@),
                    network: None,
                    client_fingerprint: query_get(u.query, "fp"@),
                    flow: query_get(u.query, "flow"@),
                    reality_opts: if query_get(u.query, "security"@) == Some("reality"@) {
                        Some(reality_of(u.query))
                    } else {
                        None
                    },
                },
            ),
        ),
        None => None,
    }
}

/// The protocols of an `alpn` value: its pieces between commas.
pub open spec fn alpn_of(value: Option<Seq<char>>) -> Option<Seq<Seq<char>>> {
    match value {
        Some(v) => Some(split_on(v, ',')),
        None => None,
    }
}

/// The proxy that a tuic link with these parts describes. The user name of
/// the link is the uuid and its password the password, empty where the
/// link has none.
pub open spec fn tuic_from(u: UrlPartsView) -> Option<ProxyView> {
    match server_of(u) {
        Some((server, port)) => Some(
            ProxyView::Tuic(
                TuicView {
                    name: display_name(u.fragment, "TUIC Node"@),
                    server,
                    port,
                    password: value_or(u.password, ""@),
                    uuid: u.username,
                    udp: Some(true),
                    tls: Some(true),
                    skip_cert_verify: flag(query_get(u.query, "insecure"@)),
                    servername: query_get(u.query, "sni"@),
                    alpn: alpn_of(query_get(u.query, "alpn"@)),
                    congestion_controller: query_get(u.query, "congestion_control"@),
                    zero_rtt: flag(query_get(u.query, "zero_rtt"@)),
                },
            ),
        ),
        None => None,
    }
}

/// The proxies that the decoders of URI links make are well formed.
pub proof fn lemma_uri_proxies_well_formed(u: UrlPartsView)
    ensures
        vless_from(u) matches Some(p) ==> p.wf(),
        hysteria2_from(u) matches Some(p) ==> p.wf(),
        trojan_from(u) matches Some(p) ==> p.wf(),
        tuic_from(u) matches Some(p) ==> p.wf(),
{
    reveal_strlit("VLESS Node");
    reveal_strlit("Hy2 Node");
    reveal_strlit("Trojan Node");
    reveal_strlit("TUIC Node");
    reveal_strlit("ws");
    reveal_strlit("grpc");
    assert("ws"@ != "grpc"@) by {
        assert("ws"@.len() != "grpc"@.len());
    }
}

/// The proxy that a vless link describes: none where the link is no URI.
pub open spec fn vless_of(link: Seq<char>) -> Option<ProxyView> {
    match url_parts(link) {
        Some(u) => vless_from(u),
        None => None,
    }
}

/// The proxy that a hysteria2 link describes: none where the link is no URI.
pub open spec fn hysteria2_of(link: Seq<char>) -> Option<ProxyView> {
    match url_parts(link) {
        Some(u) => hysteria2_from(u),
        None => None,
    }
}

/// The proxy that a trojan link describes: none where the link is no URI.
pub open spec fn trojan_of(link: Seq<char>) -> Option<ProxyView> {
    match url_parts(link) {
        Some(u) => trojan_from(u),
        None => None,
    }
}

/// The proxy that a tuic link describes: none where the link is no URI.
pub open spec fn tuic_of(link: Seq<char>) -> Option<ProxyView> {
    match url_parts(link) {
        Some(u) => tuic_from(u),
        None => None,
    }
}

/// The value of the last pair of the query whose key is `key`.
pub fn lookup(query: &Vec<(String, String)>, key: &str) -> (r: Option<String>)
    ensures
        r.deep_view() == query_get(query.deep_view(), key@),
{
    let mut i: usize = query.len();
    assert(query.deep_view().take(i as int) =~= query.deep_view());
    while i > 0
        invariant
            i <= query.len(),
            query_get(query.deep_view(), key@) == query_get(
                query.deep_view().take(i as int),
                key@,
            ),
        decreases i,
    {
        i -= 1;
        assert(query.deep_view().take(i + 1).drop_last() =~= query.deep_view().take(i as int));
        if same_text(query[i].0.as_str(), key) {
            return Some(query[i].1.clone());
        }
    }
    None
}

fn or_text(value: Option<String>, default: &str) -> (r: String)
    ensures
        r@ == value_or(value.deep_view(), default@),
{
    match value {
        Some(v) => v,
        None => default.to_owned(),
    }
}

fn name_or(fragment: &Option<String>, default: &str) -> (r: String)
    ensures
        r@ == display_name(fragment.deep_view(), default@),
{
    match fragment {
        Some(f) => {
            if f.as_str().unicode_len() > 0 {
                f.clone()
            } else {
                default.to_owned()
            }
        },
        None => default.to_owned(),
    }
}

fn switch(value: Option<String>) -> (r: Option<bool>)
    ensures
        r == flag(value.deep_view()),
{
    match value {
        Some(v) => Some(same_text(v.as_str(), "1") || same_text(v.as_str(), "true")),
        None => None,
    }
}

fn is_text(value: &Option<String>, word: &str) -> (r: bool)
    ensures
        r == (value.deep_view() == Some(word@)),
{
    match value {
        Some(v) => same_text(v.as_str(), word),
        None => false,
    }
}

fn server_and_port(u: &UrlParts) -> (r: Option<(String, u16)>)
    ensures
        r.deep_view() == server_of(u.deep_view()),
{
    match (&u.host, u.port) {
        (Some(host), Some(port)) => {
            if host.as_str().unicode_len() > 0 {
                Some((host.clone(), port))
            } else {
                None
            }
        },
        _ => None,
    }
}

fn reality(query: &Vec<(String, String)>) -> (r: RealityOpts)
    ensures
        r.deep_view() == reality_of(query.deep_view()),
{
    RealityOpts {
        public_key: or_text(lookup(query, "pbk"), ""),
        short_id: or_text(lookup(query, "sid"), ""),
    }
}

/// The proxy that a vless link with these parts describes.
pub fn vless_from_url(u: &UrlParts) -> (r: Option<Proxy>)
    ensures
        r.deep_view() == vless_from(u.deep_view()),
        r matches Some(p) ==> p.deep_view().wf(),
{
    proof {
        lemma_uri_proxies_well_formed(u.deep_view());
    }
    let (server, port) = match server_and_port(u) {
        Some(found) => found,
        None => {
            return None;
        },
    };
    let q = &u.query;
    let security = lookup(q, "security");
    let network = lookup(q, "type");
    let sni = lookup(q, "sni");
    let is_ws = is_text(&network, "ws");
    let is_grpc = is_text(&network, "grpc");
    let reality_opts = if is_text(&security, "reality") && !is_ws && !is_grpc {
        Some(reality(q))
    } else {
        None
    };
    let ws_opts = if is_ws {
        let mut headers: Vec<(String, String)> = Vec::new();
        headers.push(("Host".to_owned(), or_text(sni.clone(), server.as_str())));
        assert(headers.deep_view() =~= seq![
            ("Host"@, value_or(sni.deep_view(), server@)),
        ]);
        Some(WsOpts { path: or_text(lookup(q, "path"), "/"), headers: Some(headers) })
    } else {
        None
    };
    let grpc_opts = if is_grpc {
        Some(GrpcOpts { grpc_service_name: or_text(lookup(q, "serviceName"), "") })
    } else {
        None
    };
    let insecure = switch(lookup(q, "allowInsecure"));
    Some(
        Proxy::Vless(
            VlessProxy {
                name: name_or(&u.fragment, "VLESS Node"),
                server,
                port,
                uuid: u.username.clone(),
                flow: lookup(q, "flow"),
                udp: Some(true),
                tls: Some(security.is_some()),
                skip_cert_verify: match insecure {
                    Some(true) => Some(true),
                    _ => None,
                },
                servername: sni,
                network,
                client_fingerprint: lookup(q, "fp"),
                reality_opts,
                ws_opts,
                grpc_opts,
            },
        ),
    )
}

/// The proxy that a hysteria2 link with these parts describes.
pub fn hysteria2_from_url(u: &UrlParts) -> (r: Option<Proxy>)
    ensures
        r.deep_view() == hysteria2_from(u.deep_view()),
        r matches Some(p) ==> p.deep_view().wf(),
{
    proof {
        lemma_uri_proxies_well_formed(u.deep_view());
    }
    let (server, port) = match server_and_port(u) {
        Some(found) => found,
        None => {
            return None;
        },
    };
    Some(
        Proxy::Hysteria2(
            Hysteria2Proxy {
                name: name_or(&u.fragment, "Hy2 Node"),
                server,
                port,
                password: u.username.clone(),
                sni: lookup(&u.query, "sni"),
                skip_cert_verify: Some(true),
                obfs: lookup(&u.query, "obfs"),
                obfs_password: lookup(&u.query, "obfs-password"),
            },
        ),
    )
}

/// The proxy that a trojan link with these parts describes.
pub fn trojan_from_url(u: &UrlParts) -> (r: Option<Proxy>)
    ensures
        r.deep_view() == trojan_from(u.deep_view()),
        r matches Some(p) ==> p.deep_view().wf(),
{
    proof {
        lemma_uri_proxies_well_formed(u.deep_view());
    }
    let (server, port) = match server_and_port(u) {
        Some(found) => found,
        None => {
            return None;
        },
    };
    let security = lookup(&u.query, "security");
    let reality_opts = if is_text(&security, "reality") {
        Some(reality(&u.query))
    } else {
        None
    };
    Some(
        Proxy::Trojan(
            TrojanProxy {
                name: name_or(&u.fragment, "Trojan Node"),
                server,
                port,
                password: u.username.clone(),
                udp: Some(true),
                tls: Some(true),
                skip_cert_verify: Some(true),
                servername: lookup(&u.query, "sni"),
                network: None,
                client_fingerprint: lookup(&u.query, "fp"),
                flow: lookup(&u.query, "flow"),
                reality_opts,
            },
        ),
    )
}

fn alpn_list(value: Option<String>) -> (r: Option<Vec<String>>)
    ensures
        r.deep_view() == alpn_of(value.deep_view()),
{
    match value {
        Some(v) => {
            let chars = chars_of(v.as_str());
            let pieces = split_chars(chars.as_slice(), ',');
            let mut list: Vec<String> = Vec::new();
            let mut i: usize = 0;
            while i < pieces.len()
                invariant
                    i <= pieces.len(),
                    list.len() == i,
                    forall|j: int| 0 <= j < i ==> (#[trigger] list@[j])@ == pieces@[j]@,
                decreases pieces.len() - i,
            {
                list.push(string_of(pieces[i].as_slice()));
                i += 1;
            }
            assert(list.deep_view() =~= views(pieces@));
            Some(list)
        },
        None => None,
    }
}

/// The proxy that a tuic link with these parts describes.
pub fn tuic_from_url(u: &UrlParts) -> (r: Option<Proxy>)
    ensures
        r.deep_view() == tuic_from(u.deep_view()),
        r matches Some(p) ==> p.deep_view().wf(),
{
    proof {
        lemma_uri_proxies_well_formed(u.deep_view());
    }
    let (server, port) = match server_and_port(u) {
        Some(found) => found,
        None => {
            return None;
        },
    };
    Some(
        Proxy::Tuic(
            TuicProxy {
                name: name_or(&u.fragment, "TUIC Node"),
                server,
                port,
                password: or_text(u.password.clone(), ""),
                uuid: u.username.clone(),
                udp: Some(true),
                tls: Some(true),
                skip_cert_verify: switch(lookup(&u.query, "insecure")),
                servername: lookup(&u.query, "sni"),
                alpn: alpn_list(lookup(&u.query, "alpn")),
                congestion_controller: lookup(&u.query, "congestion_control"),
                zero_rtt: switch(lookup(&u.query, "zero_rtt")),
            },
        ),
    )
}

/// Decodes a vless link.
pub fn parse_vless(link: &str) -> (r: Option<Proxy>)
    ensures
        r.deep_view() == vless_of(link@),
        r matches Some(p) ==> p.deep_view().wf(),
{
    match split_url(link) {
        Some(u) => vless_from_url(&u),
        None => None,
    }
}

/// Decodes a hysteria2 link.
pub fn parse_hy2(link: &str) -> (r: Option<Proxy>)
    ensures
        r.deep_view() == hysteria2_of(link@),
        r matches Some(p) ==> p.deep_view().wf(),
{
    match split_url(link) {
        Some(u) => hysteria2_from_url(&u),
        None => None,
    }
}

/// Decodes a trojan link.
pub fn parse_trojan(link: &str) -> (r: Option<Proxy>)
    ensures
        r.deep_view() == trojan_of(link@),
        r matches Some(p) ==> p.deep_view().wf(),
{
    match split_url(link) {
        Some(u) => trojan_from_url(&u),
        None => None,
    }
}

/// Decodes a tuic link.
pub fn parse_tuic(link: &str) -> (r: Option<Proxy>)
    ensures
        r.deep_view() == tuic_of(link@),
        r matches Some(p) ==> p.deep_view().wf(),
{
    match split_url(link) {
        Some(u) => tuic_from_url(&u),
        None => None,
    }
}

} // verus!
