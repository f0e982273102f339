//! The decoders of the links that wrap their payload in base64: vmess, whose
//! payload is a JSON object, and shadowsocks, whose payload is one line of
//! text.

use crate::codec::{json_members, member, unescape, unescaped, unwrap_text, unwrapped, JsonObject};
use crate::model::{
    Proxy, ProxyView, ShadowsocksProxy, ShadowsocksView, VmessProxy, VmessView, WsOpts, WsOptsView,
};
use crate::text::{
    chars_of, copy_range, count_char, count_of, find_first, find_last, first_index, last_index,
    parse_unsigned, read_unsigned, same_text, string_of, strip_leading, strip_leading_chars,
};
use crate::uri::display_name;
use vstd::prelude::*;

verus! {

/// The fields of a vmess payload that the decoder reads, each as the string
/// that the payload holds for it.
#[derive(Clone, Debug, PartialEq, Eq)]
pub struct VmessFields {
    pub ps: Option<String>,
    pub add: Option<String>,
    pub port: Option<String>,
    pub id: Option<String>,
    pub aid: Option<String>,
    pub net: Option<String>,
    pub host: Option<String>,
    pub path: Option<String>,
    pub tls: Option<String>,
}

pub ghost struct VmessFieldsView {
    pub ps: Option<Seq<char>>,
    pub add: Option<Seq<char>>,
    pub port: Option<Seq<char>>,
    pub id: Option<Seq<char>>,
    pub aid: Option<Seq<char>>,
    pub net: Option<Seq<char>>,
    pub host: Option<Seq<char>>,
    pub path: Option<Seq<char>>,
    pub tls: Option<Seq<char>>,
}

impl DeepView for VmessFields {
    type V = VmessFieldsView;

    open spec fn deep_view(&self) -> VmessFieldsView {
        VmessFieldsView {
            ps: self.ps.deep_view(),
            add: self.add.deep_view(),
            port: self.port.deep_view(),
            id: self.id.deep_view(),
            aid: self.aid.deep_view(),
            net: self.net.deep_view(),
            host: self.host.deep_view(),
            path: self.path.deep_view(),
            tls: self.tls.deep_view(),
        }
    }
}

/// The fields among the string members of a payload.
pub open spec fn fields_of(m: Map<Seq<char>, Seq<char>>) -> VmessFieldsView {
    VmessFieldsView {
        ps: member(m, "ps"@),
        add: member(m, "add"@),
        port: member(m, "port"@),
        id: member(m, "id"@),
        aid: member(m, "aid"@),
        net: member(m, "net"@),
        host: member(m, "host"@),
        path: member(m, "path"@),
        tls: member(m, "tls"@),
    }
}

/// The port that a text writes.
pub open spec fn port_of(text: Seq<char>) -> Option<u16> {
    match parse_unsigned(text, u16::MAX as nat) {
        Some(n) => Some(n as u16),
        None => None,
    }
}

/// The alter id of a payload: the number that `aid` writes, 0 where the
/// payload has none or one that writes no number.
pub open spec fn alter_id_of(aid: Option<Seq<char>>) -> u16 {
    match aid {
        Some(text) => match port_of(text) {
            Some(n) => n,
            None => 0,
        },
        None => 0,
    }
}

/// A text that is there and not empty.
pub open spec fn non_empty(text: Option<Seq<char>>) -> Option<Seq<char>> {
    match text {
        Some(t) => if t.len() > 0 {
            Some(t)
        } else {
            None
        },
        None => None,
    }
}

/// The ws options of a payload.
pub open spec fn vmess_ws(f: VmessFieldsView) -> WsOptsView {
    WsOptsView {
        path: match non_empty(f.path) {
            Some(p) => p,
            None => "/"@,
        },
        headers: match non_empty(f.host) {
            Some(h) => Some(seq![("Host"@, h)]),
            None => None,
        },
    }
}

/// The network of a payload: `net`, "tcp" where it has none.
pub open spec fn vmess_network(f: VmessFieldsView) -> Seq<char> {
    match f.net {
        Some(n) => n,
        None => "tcp"@,
    }
}

/// The proxy that a vmess payload with these fields describes. There is
/// none unless the payload has an address that is not empty, a port that
/// writes a number of 16 bits, and an id.
pub open spec fn vmess_from(f: VmessFieldsView) -> Option<ProxyView> {
    match (non_empty(f.add), f.port, f.id) {
        (Some(server), Some(port_text), Some(uuid)) => match port_of(port_text) {
            Some(port) => Some(
                ProxyView::Vmess(
                    VmessView {
                        name: display_name(f.ps, "VMess Node"@),
                        server,
                        port,
                        uuid,
                        alter_id: alter_id_of(f.aid),
                        cipher: "auto"@,
                        udp: Some(true),
                        tls: if f.tls == Some("tls"@) {
                            Some(true)
                        } else {
                            None
                        },
                        skip_cert_verify: Some(true),
                        servername: non_empty(f.host),
                        network: Some(vmess_network(f)),
                        ws_opts: if vmess_network(f) == "ws"@ {
                            Some(vmess_ws(f))
                        } else {
                            None
                        },
                    },
                ),
            ),
            None => None,
        },
        _ => None,
    }
}

/// The proxy that a vmess link describes: the link without its scheme is
/// base64 that wraps a JSON text.
pub open spec fn vmess_of(link: Seq<char>) -> Option<ProxyView> {
    match unwrapped(strip_leading(link, "vmess://"@)) {
        Some(text) => match json_members(text) {
            Some(m) => vmess_from(fields_of(m)),
            None => None,
        },
        None => None,
    }
}

/// The default name of a shadowsocks proxy.
pub open spec fn ss_default_name() -> Seq<char> {
    "Shadowsocks Node"@
}

/// The two sides of the first `c` in `s`.
pub open spec fn split_first(s: Seq<char>, c: char) -> Option<(Seq<char>, Seq<char>)> {
    match first_index(s, c) {
        Some(i) => Some((s.take(i), s.skip(i + 1))),
        None => None,
    }
}

/// The proxy that a shadowsocks payload describes under a name. The payload
/// has the shape `cipher:password@server:port` with one `@`; the cipher ends
/// at the first colon before it, the server at the first colon after it.
pub open spec fn shadowsocks_from(payload: Seq<char>, name: Seq<char>) -> Option<ProxyView> {
    if count_of(payload, '@') != 1 {
        None
    } else {
        match split_first(payload, '@') {
            Some((left, right)) => match (split_first(left, ':'), split_first(right, ':')) {
                (Some((cipher, password)), Some((server, port_text))) => match port_of(port_text) {
                    Some(port) => if server.len() > 0 {
                        Some(
                            ProxyView::Shadowsocks(
                                ShadowsocksView {
                                    name,
                                    server,
                                    port,
                                    password,
                                    cipher,
                                    udp: Some(true),
                                    network: None,
                                    plugin: None,
                                    plugin_opts: None,
                                },
                            ),
                        )
                    } else {
                        None
                    },
                    None => None,
                },
                _ => None,
            },
            None => None,
        }
    }
}

/// The base64 part of a shadowsocks link without its scheme: what stands
/// before the last `#`.
pub open spec fn ss_config(rest: Seq<char>) -> Seq<char> {
    match last_index(rest, '#') {
        Some(i) => rest.take(i),
        None => rest,
    }
}

/// The name of a shadowsocks link without its scheme: what stands after the
/// last `#`, with its percent escapes resolved; the default where the link
/// has no `#` or nothing after it.
pub open spec fn ss_name(rest: Seq<char>) -> Seq<char> {
    match last_index(rest, '#') {
        Some(i) => display_name(Some(unescaped(rest.skip(i + 1))), ss_default_name()),
        None => ss_default_name(),
    }
}

/// The proxy that a shadowsocks link describes.
pub open spec fn shadowsocks_of(link: Seq<char>) -> Option<ProxyView> {
    let rest = strip_leading(link, "ss://"@);
    match unwrapped(ss_config(rest)) {
        Some(payload) => shadowsocks_from(payload, ss_name(rest)),
        None => None,
    }
}

/// The proxy that the vmess decoder makes is well formed.
pub proof fn lemma_vmess_well_formed(f: VmessFieldsView)
    ensures
        vmess_from(f) matches Some(p) ==> p.wf(),
{
    reveal_strlit("VMess Node");
}

/// The name of a shadowsocks link is never empty.
pub proof fn lemma_ss_name(rest: Seq<char>)
    ensures
        ss_name(rest).len() > 0,
{
    reveal_strlit("Shadowsocks Node");
}

fn port_from(text: &[char]) -> (r: Option<u16>)
    ensures
        r == port_of(text@),
{
    match read_unsigned(text, 0xffff) {
        Some(n) => Some(n as u16),
        None => None,
    }
}

fn filled(text: &Option<String>) -> (r: Option<String>)
    ensures
        r.deep_view() == non_empty(text.deep_view()),
{
    match text {
        Some(t) => if t.as_str().unicode_len() > 0 {
            Some(t.clone())
        } else {
            None
        },
        None => None,
    }
}

fn named(name: &Option<String>, default: &str) -> (r: String)
    ensures
        r@ == display_name(name.deep_view(), default@),
{
    match filled(name) {
        Some(n) => n,
        None => default.to_owned(),
    }
}

/// The proxy that a vmess payload with these fields describes.
pub fn vmess_from_fields(f: &VmessFields) -> (r: Option<Proxy>)
    ensures
        r.deep_view() == vmess_from(f.deep_view()),
        r matches Some(p) ==> p.deep_view().wf(),
{
    proof {
        lemma_vmess_well_formed(f.deep_view());
    }
    let (server, port_text, uuid) = match (filled(&f.add), &f.port, &f.id) {
        (Some(server), Some(port_text), Some(uuid)) => (server, port_text, uuid),
        _ => {
            return None;
        },
    };
    let port = match port_from(chars_of(port_text.as_str()).as_slice()) {
        Some(p) => p,
        None => {
            return None;
        },
    };
    let alter_id = match &f.aid {
        Some(text) => match port_from(chars_of(text.as_str()).as_slice()) {
            Some(n) => n,
            None => 0,
        },
        None => 0,
    };
    let network = match &f.net {
        Some(n) => n.clone(),
        None => "tcp".to_owned(),
    };
    let host = filled(&f.host);
    let ws_opts = if same_text(network.as_str(), "ws") {
        let headers = match &host {
            Some(h) => {
                let mut list: Vec<(String, String)> = Vec::new();
                list.push(("Host".to_owned(), h.clone()));
                assert(list.deep_view() =~= seq![("Host"@, h@)]);
                Some(list)
            },
            None => None,
        };
        Some(
            WsOpts {
                path: match filled(&f.path) {
                    Some(p) => p,
                    None => "/".to_owned(),
                },
                headers,
            },
        )
    } else {
        None
    };
    let tls = match &f.tls {
        Some(t) => if same_text(t.as_str(), "tls") {
            Some(true)
        } else {
            None
        },
        None => None,
    };
    Some(
        Proxy::Vmess(
            VmessProxy {
                name: named(&f.ps, "VMess Node"),
                server,
                port,
                uuid: uuid.clone(),
                alter_id,
                cipher: "auto".to_owned(),
                udp: Some(true),
                tls,
                skip_cert_verify: Some(true),
                servername: host,
                network: Some(network),
                ws_opts,
            },
        ),
    )
}

/// The fields of a payload.
pub fn read_fields(object: &JsonObject) -> (f: VmessFields)
    ensures
        f.deep_view() == fields_of(object.strings()),
{
    VmessFields {
        ps: object.string("ps"),
        add: object.string("add"),
        port: object.string("port"),
        id: object.string("id"),
        aid: object.string("aid"),
        net: object.string("net"),
        host: object.string("host"),
        path: object.string("path"),
        tls: object.string("tls"),
    }
}

/// `link` without the scheme `scheme` at its front, however often it
/// stands there.
fn without_scheme(link: &str, scheme: &str) -> (r: Vec<char>)
    ensures
        r@ == strip_leading(link@, scheme@),
{
    let chars = chars_of(link);
    let prefix = chars_of(scheme);
    strip_leading_chars(chars.as_slice(), prefix.as_slice())
}

/// Decodes a vmess link.
pub fn parse_vmess(link: &str) -> (r: Option<Proxy>)
    ensures
        r.deep_view() == vmess_of(link@),
        r matches Some(p) ==> p.deep_view().wf(),
{
    let rest = without_scheme(link, "vmess://");
    let text = match unwrap_text(string_of(rest.as_slice()).as_str()) {
        Some(t) => t,
        None => {
            return None;
        },
    };
    match JsonObject::parse(text.as_str()) {
        Some(object) => vmess_from_fields(&read_fields(&object)),
        None => None,
    }
}

fn halves(s: &[char], c: char) -> (r: Option<(Vec<char>, Vec<char>)>)
    ensures
        match r {
            Some((a, b)) => split_first(s@, c) == Some((a@, b@)),
            None => split_first(s@, c) is None,
        },
{
    match find_first(s, c) {
        Some(i) => {
            let a = copy_range(s, 0, i);
            let b = copy_range(s, i + 1, s.len());
            assert(a@ =~= s@.take(i as int));
            assert(b@ =~= s@.skip(i + 1));
            Some((a, b))
        },
        None => None,
    }
}

/// The proxy that a shadowsocks payload describes under a name.
pub fn shadowsocks_from_payload(payload: &str, name: String) -> (r: Option<Proxy>)
    ensures
        r.deep_view() == shadowsocks_from(payload@, name@),
        name@.len() > 0 ==> (r matches Some(p) ==> p.deep_view().wf()),
{
    let chars = chars_of(payload);
    if count_char(chars.as_slice(), '@') != 1 {
        return None;
    }
    let (left, right) = match halves(chars.as_slice(), '@') {
        Some(found) => found,
        None => {
            return None;
        },
    };
    let (cipher, password) = match halves(left.as_slice(), ':') {
        Some(found) => found,
        None => {
            return None;
        },
    };
    let (server, port_text) = match halves(right.as_slice(), ':') {
        Some(found) => found,
        None => {
            return None;
        },
    };
    let port = match port_from(port_text.as_slice()) {
        Some(p) => p,
        None => {
            return None;
        },
    };
    if server.len() == 0 {
        return None;
    }
    let no_text: Option<String> = None;
    let no_opts: Option<Vec<(String, String)>> = None;
    Some(
        Proxy::Shadowsocks(
            ShadowsocksProxy {
                name,
                server: string_of(server.as_slice()),
                port,
                password: string_of(password.as_slice()),
                cipher: string_of(cipher.as_slice()),
                udp: Some(true),
                network: no_text,
                plugin: None,
                plugin_opts: no_opts,
            },
        ),
    )
}

/// The two parts of a shadowsocks link: the base64 part and the name.
pub fn ss_parts(link: &str) -> (r: (String, String))
    ensures
        r.0@ == ss_config(strip_leading(link@, "ss://"@)),
        r.1@ == ss_name(strip_leading(link@, "ss://"@)),
        r.1@.len() > 0,
{
    proof {
        lemma_ss_name(strip_leading(link@, "ss://"@));
    }
    let rest = without_scheme(link, "ss://");
    match find_last(rest.as_slice(), '#') {
        Some(i) => {
            let config = copy_range(rest.as_slice(), 0, i);
            let raw = copy_range(rest.as_slice(), i + 1, rest.len());
            assert(config@ =~= rest@.take(i as int));
            assert(raw@ =~= rest@.skip(i + 1));
            let decoded = unescape(string_of(raw.as_slice()));
            (string_of(config.as_slice()), named(&Some(decoded), "Shadowsocks Node"))
        },
        None => (string_of(rest.as_slice()), "Shadowsocks Node".to_owned()),
    }
}

/// Decodes a shadowsocks link.
pub fn parse_ss(link: &str) -> (r: Option<Proxy>)
    ensures
        r.deep_view() == shadowsocks_of(link@),
        r matches Some(p) ==> p.deep_view().wf(),
{
    let (config, name) = ss_parts(link);
    match unwrap_text(config.as_str()) {
        Some(payload) => shadowsocks_from_payload(payload.as_str(), name),
        None => None,
    }
}

} // verus!
