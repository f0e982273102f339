//! The proxy model: one record per protocol, the option blocks that a
//! transport may carry, and the mathematical view of each.

use vstd::prelude::*;

verus! {

/// Options of the "reality" security mode.
#[derive(Clone, Debug, PartialEq, Eq)]
pub struct RealityOpts {
    pub public_key: String,
    pub short_id: String,
}

/// Options of the "ws" transport. `headers` holds header names with their
/// values, in the order in which they are written out.
#[derive(Clone, Debug, PartialEq, Eq)]
pub struct WsOpts {
    pub path: String,
    pub headers: Option<Vec<(String, String)>>,
}

/// Options of the "grpc" transport.
#[derive(Clone, Debug, PartialEq, Eq)]
pub struct GrpcOpts {
    pub grpc_service_name: String,
}

#[derive(Clone, Debug, PartialEq, Eq)]
pub struct VlessProxy {
    pub name: String,
    pub server: String,
    pub port: u16,
    pub uuid: String,
    pub flow: Option<String>,
    pub udp: Option<bool>,
    pub tls: Option<bool>,
    pub skip_cert_verify: Option<bool>,
    pub servername: Option<String>,
    pub network: Option<String>,
    pub client_fingerprint: Option<String>,
    pub reality_opts: Option<RealityOpts>,
    pub ws_opts: Option<WsOpts>,
    pub grpc_opts: Option<GrpcOpts>,
}

#[derive(Clone, Debug, PartialEq, Eq)]
pub struct VmessProxy {
    pub name: String,
    pub server: String,
    pub port: u16,
    pub uuid: String,
    pub alter_id: u16,
    pub cipher: String,
    pub udp: Option<bool>,
    pub tls: Option<bool>,
    pub skip_cert_verify: Option<bool>,
    pub servername: Option<String>,
    pub network: Option<String>,
    pub ws_opts: Option<WsOpts>,
}

#[derive(Clone, Debug, PartialEq, Eq)]
pub struct Hysteria2Proxy {
    pub name: String,
    pub server: String,
    pub port: u16,
    pub password: String,
    pub sni: Option<String>,
    pub skip_cert_verify: Option<bool>,
    pub obfs: Option<String>,
    pub obfs_password: Option<String>,
}

#[derive(Clone, Debug, PartialEq, Eq)]
pub struct TrojanProxy {
    pub name: String,
    pub server: String,
    pub port: u16,
    pub password: String,
    pub udp: Option<bool>,
    pub tls: Option<bool>,
    pub skip_cert_verify: Option<bool>,
    pub servername: Option<String>,
    pub network: Option<String>,
    pub client_fingerprint: Option<String>,
    pub flow: Option<String>,
    pub reality_opts: Option<RealityOpts>,
}

/// `plugin_opts` holds option names with their values, in the order in which
/// they are written out.
#[derive(Clone, Debug, PartialEq, Eq)]
pub struct ShadowsocksProxy {
    pub name: String,
    pub server: String,
    pub port: u16,
    pub password: String,
    pub cipher: String,
    pub udp: Option<bool>,
    pub network: Option<String>,
    pub plugin: Option<String>,
    pub plugin_opts: Option<Vec<(String, String)>>,
}

#[derive(Clone, Debug, PartialEq, Eq)]
pub struct TuicProxy {
    pub name: String,
    pub server: String,
    pub port: u16,
    pub password: String,
    pub uuid: String,
    pub udp: Option<bool>,
    pub tls: Option<bool>,
    pub skip_cert_verify: Option<bool>,
    pub servername: Option<String>,
    pub alpn: Option<Vec<String>>,
    pub congestion_controller: Option<String>,
    pub zero_rtt: Option<bool>,
}

/// `ip` is the IPv4 address of the interface and `ipv6` its IPv6 address.
#[derive(Clone, Debug, PartialEq, Eq)]
pub struct WireGuardProxy {
    pub name: String,
    pub server: String,
    pub port: u16,
    pub ip: Option<String>,
    pub ipv6: Option<String>,
    pub private_key: String,
    pub public_key: String,
    pub pre_shared_key: Option<String>,
    pub allowed_ips: Vec<String>,
    pub udp: Option<bool>,
    pub mtu: Option<u32>,
    pub reserved: Option<Vec<u8>>,
}

/// A proxy of one of the seven protocols.
#[derive(Clone, Debug, PartialEq, Eq)]
pub enum Proxy {
    Vless(VlessProxy),
    Vmess(VmessProxy),
    Hysteria2(Hysteria2Proxy),
    Trojan(TrojanProxy),
    Shadowsocks(ShadowsocksProxy),
    Tuic(TuicProxy),
    WireGuard(WireGuardProxy),
}

/// A named group of proxies with its kind and, for a group that tests its
/// members, the address to test against and the seconds between tests.
#[derive(Clone, Debug, PartialEq, Eq)]
pub struct ProxyGroup {
    pub name: String,
    pub group_type: String,
    pub proxies: Vec<String>,
    pub url: Option<String>,
    pub interval: Option<u32>,
}

/// A whole configuration: the proxies, the groups that route to them and the
/// routing rules.
#[derive(Clone, Debug, PartialEq, Eq)]
pub struct ClashConfig {
    pub proxies: Vec<Proxy>,
    pub proxy_groups: Vec<ProxyGroup>,
    pub rules: Vec<String>,
}

pub ghost struct RealityOptsView {
    pub public_key: Seq<char>,
    pub short_id: Seq<char>,
}

pub ghost struct WsOptsView {
    pub path: Seq<char>,
    pub headers: Option<Seq<(Seq<char>, Seq<char>)>>,
}

pub ghost struct GrpcOptsView {
    pub grpc_service_name: Seq<char>,
}

pub ghost struct VlessView {
    pub name: Seq<char>,
    pub server: Seq<char>,
    pub port: u16,
    pub uuid: Seq<char>,
    pub flow: Option<Seq<char>>,
    pub udp: Option<bool>,
    pub tls: Option<bool>,
    pub skip_cert_verify: Option<bool>,
    pub servername: Option<Seq<char>>,
    pub network: Option<Seq<char>>,
    pub client_fingerprint: Option<Seq<char>>,
    pub reality_opts: Option<RealityOptsView>,
    pub ws_opts: Option<WsOptsView>,
    pub grpc_opts: Option<GrpcOptsView>,
}

pub ghost struct VmessView {
    pub name: Seq<char>,
    pub server: Seq<char>,
    pub port: u16,
    pub uuid: Seq<char>,
    pub alter_id: u16,
    pub cipher: Seq<char>,
    pub udp: Option<bool>,
    pub tls: Option<bool>,
    pub skip_cert_verify: Option<bool>,
    pub servername: Option<Seq<char>>,
    pub network: Option<Seq<char>>,
    pub ws_opts: Option<WsOptsView>,
}

pub ghost struct Hysteria2View {
    pub name: Seq<char>,
    pub server: Seq<char>,
    pub port: u16,
    pub password: Seq<char>,
    pub sni: Option<Seq<char>>,
    pub skip_cert_verify: Option<bool>,
    pub obfs: Option<Seq<char>>,
    pub obfs_password: Option<Seq<char>>,
}

pub ghost struct TrojanView {
    pub name: Seq<char>,
    pub server: Seq<char>,
    pub port: u16,
    pub password: Seq<char>,
    pub udp: Option<bool>,
    pub tls: Option<bool>,
    pub skip_cert_verify: Option<bool>,
    pub servername: Option<Seq<char>>,
    pub network: Option<Seq<char>>,
    pub client_fingerprint: Option<Seq<char>>,
    pub flow: Option<Seq<char>>,
    pub reality_opts: Option<RealityOptsView>,
}

pub ghost struct ShadowsocksView {
    pub name: Seq<char>,
    pub server: Seq<char>,
    pub port: u16,
    pub password: Seq<char>,
    pub cipher: Seq<char>,
    pub udp: Option<bool>,
    pub network: Option<Seq<char>>,
    pub plugin: Option<Seq<char>>,
    pub plugin_opts: Option<Seq<(Seq<char>, Seq<char>)>>,
}

pub ghost struct TuicView {
    pub name: Seq<char>,
    pub server: Seq<char>,
    pub port: u16,
    pub password: Seq<char>,
    pub uuid: Seq<char>,
    pub udp: Option<bool>,
    pub tls: Option<bool>,
    pub skip_cert_verify: Option<bool>,
    pub servername: Option<Seq<char>>,
    pub alpn: Option<Seq<Seq<char>>>,
    pub congestion_controller: Option<Seq<char>>,
    pub zero_rtt: Option<bool>,
}

pub ghost struct WireGuardView {
    pub name: Seq<char>,
    pub server: Seq<char>,
    pub port: u16,
    pub ip: Option<Seq<char>>,
    pub ipv6: Option<Seq<char>>,
    pub private_key: Seq<char>,
    pub public_key: Seq<char>,
    pub pre_shared_key: Option<Seq<char>>,
    pub allowed_ips: Seq<Seq<char>>,
    pub udp: Option<bool>,
    pub mtu: Option<u32>,
    pub reserved: Option<Seq<u8>>,
}

pub ghost enum ProxyView {
    Vless(VlessView),
    Vmess(VmessView),
    Hysteria2(Hysteria2View),
    Trojan(TrojanView),
    Shadowsocks(ShadowsocksView),
    Tuic(TuicView),
    WireGuard(WireGuardView),
}

pub ghost struct ProxyGroupView {
    pub name: Seq<char>,
    pub group_type: Seq<char>,
    pub proxies: Seq<Seq<char>>,
    pub url: Option<Seq<char>>,
    pub interval: Option<u32>,
}

pub ghost struct ClashConfigView {
    pub proxies: Seq<ProxyView>,
    pub proxy_groups: Seq<ProxyGroupView>,
    pub rules: Seq<Seq<char>>,
}

impl DeepView for RealityOpts {
    type V = RealityOptsView;

    open spec fn deep_view(&self) -> RealityOptsView {
        RealityOptsView { public_key: self.public_key@, short_id: self.short_id@ }
    }
}

impl DeepView for WsOpts {
    type V = WsOptsView;

    open spec fn deep_view(&self) -> WsOptsView {
        WsOptsView { path: self.path@, headers: self.headers.deep_view() }
    }
}

impl DeepView for GrpcOpts {
    type V = GrpcOptsView;

    open spec fn deep_view(&self) -> GrpcOptsView {
        GrpcOptsView { grpc_service_name: self.grpc_service_name@ }
    }
}

impl DeepView for VlessProxy {
    type V = VlessView;

    open spec fn deep_view(&self) -> VlessView {
        VlessView {
            name: self.name@,
            server: self.server@,
            port: self.port,
            uuid: self.uuid@,
            flow: self.flow.deep_view(),
            udp: self.udp,
            tls: self.tls,
            skip_cert_verify: self.skip_cert_verify,
            servername: self.servername.deep_view(),
            network: self.network.deep_view(),
            client_fingerprint: self.client_fingerprint.deep_view(),
            reality_opts: self.reality_opts.deep_view(),
            ws_opts: self.ws_opts.deep_view(),
            grpc_opts: self.grpc_opts.deep_view(),
        }
    }
}

impl DeepView for VmessProxy {
    type V = VmessView;

    open spec fn deep_view(&self) -> VmessView {
        VmessView {
            name: self.name@,
            server: self.server@,
            port: self.port,
            uuid: self.uuid@,
            alter_id: self.alter_id,
            cipher: self.cipher@,
            udp: self.udp,
            tls: self.tls,
            skip_cert_verify: self.skip_cert_verify,
            servername: self.servername.deep_view(),
            network: self.network.deep_view(),
            ws_opts: self.ws_opts.deep_view(),
        }
    }
}

impl DeepView for Hysteria2Proxy {
    type V = Hysteria2View;

    open spec fn deep_view(&self) -> Hysteria2View {
        Hysteria2View {
            name: self.name@,
            server: self.server@,
            port: self.port,
            password: self.password@,
            sni: self.sni.deep_view(),
            skip_cert_verify: self.skip_cert_verify,
            obfs: self.obfs.deep_view(),
            obfs_password: self.obfs_password.deep_view(),
        }
    }
}

impl DeepView for TrojanProxy {
    type V = TrojanView;

    open spec fn deep_view(&self) -> TrojanView {
        TrojanView {
            name: self.name@,
            server: self.server@,
            port: self.port,
            password: self.password@,
            udp: self.udp,
            tls: self.tls,
            skip_cert_verify: self.skip_cert_verify,
            servername: self.servername.deep_view(),
            network: self.network.deep_view(),
            client_fingerprint: self.client_fingerprint.deep_view(),
            flow: self.flow.deep_view(),
            reality_opts: self.reality_opts.deep_view(),
        }
    }
}

impl DeepView for ShadowsocksProxy {
    type V = ShadowsocksView;

    open spec fn deep_view(&self) -> ShadowsocksView {
        ShadowsocksView {
            name: self.name@,
            server: self.server@,
            port: self.port,
            password: self.password@,
            cipher: self.cipher@,
            udp: self.udp,
            network: self.network.deep_view(),
            plugin: self.plugin.deep_view(),
            plugin_opts: self.plugin_opts.deep_view(),
        }
    }
}

impl DeepView for TuicProxy {
    type V = TuicView;

    open spec fn deep_view(&self) -> TuicView {
        TuicView {
            name: self.name@,
            server: self.server@,
            port: self.port,
            password: self.password@,
            uuid: self.uuid@,
            udp: self.udp,
            tls: self.tls,
            skip_cert_verify: self.skip_cert_verify,
            servername: self.servername.deep_view(),
            alpn: self.alpn.deep_view(),
            congestion_controller: self.congestion_controller.deep_view(),
            zero_rtt: self.zero_rtt,
        }
    }
}

impl DeepView for WireGuardProxy {
    type V = WireGuardView;

    open spec fn deep_view(&self) -> WireGuardView {
        WireGuardView {
            name: self.name@,
            server: self.server@,
            port: self.port,
            ip: self.ip.deep_view(),
            ipv6: self.ipv6.deep_view(),
            private_key: self.private_key@,
            public_key: self.public_key@,
            pre_shared_key: self.pre_shared_key.deep_view(),
            allowed_ips: self.allowed_ips.deep_view(),
            udp: self.udp,
            mtu: self.mtu,
            reserved: self.reserved.deep_view(),
        }
    }
}

impl DeepView for Proxy {
    type V = ProxyView;

    open spec fn deep_view(&self) -> ProxyView {
        match self {
            Proxy::Vless(p) => ProxyView::Vless(p.deep_view()),
            Proxy::Vmess(p) => ProxyView::Vmess(p.deep_view()),
            Proxy::Hysteria2(p) => ProxyView::Hysteria2(p.deep_view()),
            Proxy::Trojan(p) => ProxyView::Trojan(p.deep_view()),
            Proxy::Shadowsocks(p) => ProxyView::Shadowsocks(p.deep_view()),
            Proxy::Tuic(p) => ProxyView::Tuic(p.deep_view()),
            Proxy::WireGuard(p) => ProxyView::WireGuard(p.deep_view()),
        }
    }
}

impl DeepView for ProxyGroup {
    type V = ProxyGroupView;

    open spec fn deep_view(&self) -> ProxyGroupView {
        ProxyGroupView {
            name: self.name@,
            group_type: self.group_type@,
            proxies: self.proxies.deep_view(),
            url: self.url.deep_view(),
            interval: self.interval,
        }
    }
}

impl DeepView for ClashConfig {
    type V = ClashConfigView;

    open spec fn deep_view(&self) -> ClashConfigView {
        ClashConfigView {
            proxies: self.proxies.deep_view(),
            proxy_groups: self.proxy_groups.deep_view(),
            rules: self.rules.deep_view(),
        }
    }
}

impl ProxyView {
    /// The display name.
    pub open spec fn name(self) -> Seq<char> {
        match self {
            ProxyView::Vless(p) => p.name,
            ProxyView::Vmess(p) => p.name,
            ProxyView::Hysteria2(p) => p.name,
            ProxyView::Trojan(p) => p.name,
            ProxyView::Shadowsocks(p) => p.name,
            ProxyView::Tuic(p) => p.name,
            ProxyView::WireGuard(p) => p.name,
        }
    }

    /// The host name or address of the server.
    pub open spec fn server(self) -> Seq<char> {
        match self {
            ProxyView::Vless(p) => p.server,
            ProxyView::Vmess(p) => p.server,
            ProxyView::Hysteria2(p) => p.server,
            ProxyView::Trojan(p) => p.server,
            ProxyView::Shadowsocks(p) => p.server,
            ProxyView::Tuic(p) => p.server,
            ProxyView::WireGuard(p) => p.server,
        }
    }

    /// The port of the server.
    pub open spec fn port(self) -> u16 {
        match self {
            ProxyView::Vless(p) => p.port,
            ProxyView::Vmess(p) => p.port,
            ProxyView::Hysteria2(p) => p.port,
            ProxyView::Trojan(p) => p.port,
            ProxyView::Shadowsocks(p) => p.port,
            ProxyView::Tuic(p) => p.port,
            ProxyView::WireGuard(p) => p.port,
        }
    }

    /// How many of the reality, ws and grpc option blocks are attached.
    pub open spec fn option_blocks(self) -> nat {
        match self {
            ProxyView::Vless(p) => (if p.reality_opts is Some {
                1nat
            } else {
                0nat
            }) + (if p.ws_opts is Some {
                1nat
            } else {
                0nat
            }) + (if p.grpc_opts is Some {
                1nat
            } else {
                0nat
            }),
            ProxyView::Vmess(p) => if p.ws_opts is Some {
                1nat
            } else {
                0nat
            },
            ProxyView::Trojan(p) => if p.reality_opts is Some {
                1nat
            } else {
                0nat
            },
            _ => 0nat,
        }
    }

    /// What holds of every proxy that a decoder makes: it has a name and a
    /// server, at most one option block, and an address of its own where it
    /// is a WireGuard proxy.
    pub open spec fn wf(self) -> bool {
        &&& self.name().len() > 0
        &&& self.server().len() > 0
        &&& self.option_blocks() <= 1
        &&& self matches ProxyView::WireGuard(p) ==> p.ip is Some || p.ipv6 is Some
    }
}

impl Proxy {
    /// The display name.
    pub fn name(&self) -> (r: &String)
        ensures
            r@ == self.deep_view().name(),
    {
        match self {
            Proxy::Vless(p) => &p.name,
            Proxy::Vmess(p) => &p.name,
            Proxy::Hysteria2(p) => &p.name,
            Proxy::Trojan(p) => &p.name,
            Proxy::Shadowsocks(p) => &p.name,
            Proxy::Tuic(p) => &p.name,
            Proxy::WireGuard(p) => &p.name,
        }
    }
}

} // verus!
