use base64::Engine;
use sublink::model::{
    GrpcOpts, Hysteria2Proxy, Proxy, RealityOpts, ShadowsocksProxy, TrojanProxy, TuicProxy,
    VlessProxy, VmessProxy, WsOpts,
};
use sublink::pipeline::{collect_proxies, decode_link};
use sublink::uri::{
    hysteria2_from_url, parse_hy2, parse_trojan, parse_tuic, parse_url, parse_vless,
    tuic_from_url, vless_from_url, UrlParts,
};
use sublink::wrapped::{
    parse_ss, parse_vmess, shadowsocks_from_payload, vmess_from_fields, VmessFields,
};

fn b64(text: &str) -> String {
    base64::engine::general_purpose::STANDARD.encode(text)
}

fn s(text: &str) -> String {
    text.to_string()
}

fn plain_vless() -> VlessProxy {
    VlessProxy {
        name: s("VLESS Node"),
        server: s("example.com"),
        port: 443,
        uuid: s("the-uuid"),
        flow: None,
        udp: Some(true),
        tls: Some(false),
        skip_cert_verify: None,
        servername: None,
        network: None,
        client_fingerprint: None,
        reality_opts: None,
        ws_opts: None,
        grpc_opts: None,
    }
}

#[test]
fn vless_minimal_link() {
    assert_eq!(parse_vless("vless://the-uuid@example.com:443"), Some(Proxy::Vless(plain_vless())));
}

#[test]
fn vless_name_comes_from_the_fragment() {
    let got = parse_vless("vless://the-uuid@example.com:443#Home");
    assert_eq!(got, Some(Proxy::Vless(VlessProxy { name: s("Home"), ..plain_vless() })));
}

#[test]
fn vless_empty_fragment_gives_the_default_name() {
    let got = parse_vless("vless://the-uuid@example.com:443#");
    assert_eq!(got, Some(Proxy::Vless(plain_vless())));
}

#[test]
fn vless_without_port_is_refused() {
    assert_eq!(parse_vless("vless://the-uuid@example.com"), None);
}

#[test]
fn vless_that_is_no_uri_is_refused() {
    assert_eq!(parse_vless("vless://the-uuid@exa mple.com:443"), None);
    assert_eq!(parse_vless("not a link"), None);
}

#[test]
fn vless_reality_over_tcp() {
    let got = parse_vless(
        "vless://id@1.2.3.4:8443?security=reality&type=tcp&pbk=KEY&sid=ab&sni=a.b&fp=chrome&flow=xtls-rprx-vision#R",
    );
    let want = VlessProxy {
        name: s("R"),
        server: s("1.2.3.4"),
        port: 8443,
        uuid: s("id"),
        flow: Some(s("xtls-rprx-vision")),
        udp: Some(true),
        tls: Some(true),
        skip_cert_verify: None,
        servername: Some(s("a.b")),
        network: Some(s("tcp")),
        client_fingerprint: Some(s("chrome")),
        reality_opts: Some(RealityOpts { public_key: s("KEY"), short_id: s("ab") }),
        ws_opts: None,
        grpc_opts: None,
    };
    assert_eq!(got, Some(Proxy::Vless(want)));
}

#[test]
fn vless_reality_without_keys_has_empty_keys() {
    match parse_vless("vless://id@h.example:1?security=reality") {
        Some(Proxy::Vless(p)) => {
            assert_eq!(p.reality_opts, Some(RealityOpts { public_key: s(""), short_id: s("") }));
            assert_eq!(p.network, None);
        }
        other => panic!("{:?}", other),
    }
}

#[test]
fn vless_ws_takes_path_and_host() {
    match parse_vless("vless://id@h.example:80?type=ws&path=%2Fws&sni=cdn.example&security=tls") {
        Some(Proxy::Vless(p)) => {
            assert_eq!(
                p.ws_opts,
                Some(WsOpts {
                    path: s("/ws"),
                    headers: Some(vec![(s("Host"), s("cdn.example"))]),
                })
            );
            assert_eq!(p.tls, Some(true));
            assert_eq!(p.reality_opts, None);
            assert_eq!(p.grpc_opts, None);
        }
        other => panic!("{:?}", other),
    }
}

#[test]
fn vless_ws_defaults_to_root_path_and_server_host() {
    match parse_vless("vless://id@h.example:80?type=ws") {
        Some(Proxy::Vless(p)) => {
            assert_eq!(
                p.ws_opts,
                Some(WsOpts { path: s("/"), headers: Some(vec![(s("Host"), s("h.example"))]) })
            );
        }
        other => panic!("{:?}", other),
    }
}

#[test]
fn vless_grpc_takes_the_service_name() {
    match parse_vless("vless://id@h.example:80?type=grpc&serviceName=svc") {
        Some(Proxy::Vless(p)) => {
            assert_eq!(p.grpc_opts, Some(GrpcOpts { grpc_service_name: s("svc") }));
            assert_eq!(p.ws_opts, None);
        }
        other => panic!("{:?}", other),
    }
}

#[test]
fn vless_carries_one_option_block_at_most() {
    match parse_vless("vless://id@h.example:80?type=grpc&security=reality&pbk=K") {
        Some(Proxy::Vless(p)) => {
            assert_eq!(p.grpc_opts, Some(GrpcOpts { grpc_service_name: s("") }));
            assert_eq!(p.reality_opts, None);
            assert_eq!(p.ws_opts, None);
        }
        other => panic!("{:?}", other),
    }
    match parse_vless("vless://id@h.example:80?type=ws&security=reality&pbk=K") {
        Some(Proxy::Vless(p)) => {
            assert!(p.ws_opts.is_some());
            assert_eq!(p.reality_opts, None);
        }
        other => panic!("{:?}", other),
    }
}

#[test]
fn vless_allow_insecure_flag() {
    for (value, want) in [("1", Some(true)), ("true", Some(true)), ("TRUE", None), ("0", None), ("yes", None)] {
        let link = format!("vless://id@h.example:80?allowInsecure={}", value);
        match parse_vless(&link) {
            Some(Proxy::Vless(p)) => assert_eq!(p.skip_cert_verify, want, "{}", value),
            other => panic!("{:?}", other),
        }
    }
}

#[test]
fn the_last_of_two_equal_query_keys_counts() {
    match parse_vless("vless://id@h.example:80?sni=first&sni=second") {
        Some(Proxy::Vless(p)) => assert_eq!(p.servername, Some(s("second"))),
        other => panic!("{:?}", other),
    }
}

#[test]
fn query_keys_are_case_sensitive() {
    match parse_vless("vless://id@h.example:80?SNI=x&Type=ws") {
        Some(Proxy::Vless(p)) => {
            assert_eq!(p.servername, None);
            assert_eq!(p.network, None);
        }
        other => panic!("{:?}", other),
    }
}

#[test]
fn vless_from_parts_with_empty_host_is_refused() {
    let parts = UrlParts {
        username: s("id"),
        password: None,
        host: Some(s("")),
        port: Some(1),
        query: vec![],
        fragment: None,
    };
    assert_eq!(vless_from_url(&parts), None);
    assert_eq!(hysteria2_from_url(&parts), None);
    assert_eq!(tuic_from_url(&parts), None);
}

#[test]
fn url_parts_of_a_full_link() {
    let got = parse_url("tuic://u:p@h.example:9?a=1&b=x%20y#frag");
    let want = UrlParts {
        username: s("u"),
        password: Some(s("p")),
        host: Some(s("h.example")),
        port: Some(9),
        query: vec![(s("a"), s("1")), (s("b"), s("x y"))],
        fragment: Some(s("frag")),
    };
    assert_eq!(got, Some(want));
}

#[test]
fn hysteria2_minimal_link_in_both_spellings() {
    let want = Proxy::Hysteria2(Hysteria2Proxy {
        name: s("Hy2 Node"),
        server: s("hy.example"),
        port: 8443,
        password: s("secret"),
        sni: None,
        skip_cert_verify: Some(true),
        obfs: None,
        obfs_password: None,
    });
    assert_eq!(parse_hy2("hy2://secret@hy.example:8443"), Some(want.clone()));
    assert_eq!(parse_hy2("hysteria2://secret@hy.example:8443"), Some(want.clone()));
    assert_eq!(decode_link("hy2://secret@hy.example:8443"), Some(want.clone()));
    assert_eq!(decode_link("hysteria2://secret@hy.example:8443"), Some(want));
}

#[test]
fn hysteria2_options() {
    let got = parse_hy2("hy2://pw@hy.example:1?sni=s.example&obfs=salamander&obfs-password=op#N");
    let want = Hysteria2Proxy {
        name: s("N"),
        server: s("hy.example"),
        port: 1,
        password: s("pw"),
        sni: Some(s("s.example")),
        skip_cert_verify: Some(true),
        obfs: Some(s("salamander")),
        obfs_password: Some(s("op")),
    };
    assert_eq!(got, Some(Proxy::Hysteria2(want)));
}

#[test]
fn trojan_minimal_link() {
    let want = TrojanProxy {
        name: s("Trojan Node"),
        server: s("t.example"),
        port: 443,
        password: s("pass"),
        udp: Some(true),
        tls: Some(true),
        skip_cert_verify: Some(true),
        servername: None,
        network: None,
        client_fingerprint: None,
        flow: None,
        reality_opts: None,
    };
    assert_eq!(parse_trojan("trojan://pass@t.example:443"), Some(Proxy::Trojan(want)));
}

#[test]
fn trojan_with_reality() {
    match parse_trojan("trojan://pass@t.example:443?security=reality&pbk=K&sid=S&sni=x&fp=f&flow=fl&type=ws#T") {
        Some(Proxy::Trojan(p)) => {
            assert_eq!(p.name, "T");
            assert_eq!(p.reality_opts, Some(RealityOpts { public_key: s("K"), short_id: s("S") }));
            assert_eq!(p.servername, Some(s("x")));
            assert_eq!(p.client_fingerprint, Some(s("f")));
            assert_eq!(p.flow, Some(s("fl")));
            assert_eq!(p.network, None);
        }
        other => panic!("{:?}", other),
    }
}

#[test]
fn tuic_minimal_link() {
    let want = TuicProxy {
        name: s("TUIC Node"),
        server: s("q.example"),
        port: 4443,
        password: s("pw"),
        uuid: s("uid"),
        udp: Some(true),
        tls: Some(true),
        skip_cert_verify: None,
        servername: None,
        alpn: None,
        congestion_controller: None,
        zero_rtt: None,
    };
    assert_eq!(parse_tuic("tuic://uid:pw@q.example:4443"), Some(Proxy::Tuic(want)));
}

#[test]
fn tuic_without_password_has_an_empty_one() {
    match parse_tuic("tuic://uid@q.example:4443") {
        Some(Proxy::Tuic(p)) => {
            assert_eq!(p.uuid, "uid");
            assert_eq!(p.password, "");
        }
        other => panic!("{:?}", other),
    }
}

#[test]
fn tuic_options() {
    match parse_tuic("tuic://uid:pw@q.example:1?alpn=h3,h2&congestion_control=bbr&zero_rtt=1&insecure=0&sni=n") {
        Some(Proxy::Tuic(p)) => {
            assert_eq!(p.alpn, Some(vec![s("h3"), s("h2")]));
            assert_eq!(p.congestion_controller, Some(s("bbr")));
            assert_eq!(p.zero_rtt, Some(true));
            assert_eq!(p.skip_cert_verify, Some(false));
            assert_eq!(p.servername, Some(s("n")));
        }
        other => panic!("{:?}", other),
    }
}

fn plain_vmess() -> VmessProxy {
    VmessProxy {
        name: s("N"),
        server: s("1.2.3.4"),
        port: 443,
        uuid: s("u"),
        alter_id: 0,
        cipher: s("auto"),
        udp: Some(true),
        tls: None,
        skip_cert_verify: Some(true),
        servername: None,
        network: Some(s("tcp")),
        ws_opts: None,
    }
}

#[test]
fn vmess_example_payload() {
    let link = format!("vmess://{}", b64(r#"{"add":"1.2.3.4","port":"443","id":"u","ps":"N"}"#));
    assert_eq!(parse_vmess(&link), Some(Proxy::Vmess(plain_vmess())));
    assert_eq!(decode_link(&link), Some(Proxy::Vmess(plain_vmess())));
}

#[test]
fn vmess_without_name_gets_the_default() {
    let link = format!("vmess://{}", b64(r#"{"add":"1.2.3.4","port":"443","id":"u"}"#));
    let want = VmessProxy { name: s("VMess Node"), ..plain_vmess() };
    assert_eq!(parse_vmess(&link), Some(Proxy::Vmess(want)));
}

#[test]
fn vmess_missing_required_fields_is_refused() {
    for payload in [
        r#"{"port":"443","id":"u"}"#,
        r#"{"add":"1.2.3.4","id":"u"}"#,
        r#"{"add":"1.2.3.4","port":"443"}"#,
        r#"{"add":"","port":"443","id":"u"}"#,
        r#"{"add":"1.2.3.4","port":443,"id":"u"}"#,
        r#"{"add":"1.2.3.4","port":"65536","id":"u"}"#,
        r#"{"add":"1.2.3.4","port":"x","id":"u"}"#,
        r#"["add","port","id"]"#,
        r#"{"add":"1.2.3.4","port":"443","id":"u""#,
    ] {
        let link = format!("vmess://{}", b64(payload));
        assert_eq!(parse_vmess(&link), None, "{}", payload);
    }
}

#[test]
fn vmess_bad_wrapping_is_refused() {
    assert_eq!(parse_vmess("vmess://***"), None);
    let not_utf8 = base64::engine::general_purpose::STANDARD.encode([0xffu8, 0xfe, 0x00]);
    assert_eq!(parse_vmess(&format!("vmess://{}", not_utf8)), None);
}

#[test]
fn vmess_ws_with_tls() {
    let payload = r#"{"add":"a.example","port":"80","id":"u","aid":"7","net":"ws","host":"h.example","path":"/p","tls":"tls","ps":"W"}"#;
    let want = VmessProxy {
        name: s("W"),
        server: s("a.example"),
        port: 80,
        uuid: s("u"),
        alter_id: 7,
        cipher: s("auto"),
        udp: Some(true),
        tls: Some(true),
        skip_cert_verify: Some(true),
        servername: Some(s("h.example")),
        network: Some(s("ws")),
        ws_opts: Some(WsOpts { path: s("/p"), headers: Some(vec![(s("Host"), s("h.example"))]) }),
    };
    assert_eq!(parse_vmess(&format!("vmess://{}", b64(payload))), Some(Proxy::Vmess(want)));
}

#[test]
fn vmess_fields_decide_the_proxy() {
    let fields = VmessFields {
        ps: None,
        add: Some(s("a.example")),
        port: Some(s("+80")),
        id: Some(s("u")),
        aid: Some(s("many")),
        net: Some(s("ws")),
        host: Some(s("")),
        path: None,
        tls: Some(s("none")),
    };
    let want = VmessProxy {
        name: s("VMess Node"),
        server: s("a.example"),
        port: 80,
        uuid: s("u"),
        alter_id: 0,
        cipher: s("auto"),
        udp: Some(true),
        tls: None,
        skip_cert_verify: Some(true),
        servername: None,
        network: Some(s("ws")),
        ws_opts: Some(WsOpts { path: s("/"), headers: None }),
    };
    assert_eq!(vmess_from_fields(&fields), Some(Proxy::Vmess(want)));
}

fn plain_ss() -> ShadowsocksProxy {
    ShadowsocksProxy {
        name: s("MyNode"),
        server: s("1.2.3.4"),
        port: 8388,
        password: s("pw"),
        cipher: s("aes-256-gcm"),
        udp: Some(true),
        network: None,
        plugin: None,
        plugin_opts: None,
    }
}

#[test]
fn shadowsocks_example_link() {
    let link = format!("ss://{}#MyNode", b64("aes-256-gcm:pw@1.2.3.4:8388"));
    assert_eq!(parse_ss(&link), Some(Proxy::Shadowsocks(plain_ss())));
    assert_eq!(decode_link(&link), Some(Proxy::Shadowsocks(plain_ss())));
}

#[test]
fn shadowsocks_without_name_gets_the_default() {
    let want = ShadowsocksProxy { name: s("Shadowsocks Node"), ..plain_ss() };
    let link = format!("ss://{}", b64("aes-256-gcm:pw@1.2.3.4:8388"));
    assert_eq!(parse_ss(&link), Some(Proxy::Shadowsocks(want.clone())));
    let link = format!("ss://{}#", b64("aes-256-gcm:pw@1.2.3.4:8388"));
    assert_eq!(parse_ss(&link), Some(Proxy::Shadowsocks(want)));
}

#[test]
fn shadowsocks_name_has_its_escapes_resolved() {
    let link = format!("ss://{}#My%20Node%E2%9C%93%zz", b64("aes-256-gcm:pw@1.2.3.4:8388"));
    let want = ShadowsocksProxy { name: s("My Node\u{2713}%zz"), ..plain_ss() };
    assert_eq!(parse_ss(&link), Some(Proxy::Shadowsocks(want)));
}

#[test]
fn shadowsocks_name_that_unescapes_to_no_text_stays_as_written() {
    let link = format!("ss://{}#bad%FFname", b64("aes-256-gcm:pw@1.2.3.4:8388"));
    let want = ShadowsocksProxy { name: s("bad%FFname"), ..plain_ss() };
    assert_eq!(parse_ss(&link), Some(Proxy::Shadowsocks(want)));
}

#[test]
fn shadowsocks_name_starts_after_the_last_hash() {
    let link = format!("ss://{}#a#b", b64("aes-256-gcm:pw@1.2.3.4:8388"));
    assert_eq!(parse_ss(&link), None);
}

#[test]
fn shadowsocks_payload_shapes() {
    let name = || s("n");
    assert!(shadowsocks_from_payload("c:p@h:1", name()).is_some());
    assert_eq!(shadowsocks_from_payload("c:p@h", name()), None);
    assert_eq!(shadowsocks_from_payload("cp@h:1", name()), None);
    assert_eq!(shadowsocks_from_payload("c:p@h:1@x", name()), None);
    assert_eq!(shadowsocks_from_payload("c:ph:1", name()), None);
    assert_eq!(shadowsocks_from_payload("c:p@h:port", name()), None);
    assert_eq!(shadowsocks_from_payload("c:p@h:1:2", name()), None);
    assert_eq!(shadowsocks_from_payload("c:p@h:65536", name()), None);
    assert_eq!(shadowsocks_from_payload("c:p@:1", name()), None);
    assert_eq!(shadowsocks_from_payload("c:p@h:", name()), None);
    match shadowsocks_from_payload("c:p:q@h:65535", name()) {
        Some(Proxy::Shadowsocks(p)) => {
            assert_eq!(p.cipher, "c");
            assert_eq!(p.password, "p:q");
            assert_eq!(p.port, 65535);
        }
        other => panic!("{:?}", other),
    }
}

#[test]
fn shadowsocks_bad_wrapping_is_refused() {
    assert_eq!(parse_ss("ss://not base64!#n"), None);
}

#[test]
fn unknown_schemes_describe_no_proxy() {
    assert_eq!(decode_link("http://example.com:80"), None);
    assert_eq!(decode_link("vles://id@h.example:1"), None);
    assert_eq!(decode_link("VLESS://id@h.example:1"), None);
    assert_eq!(decode_link(" vless://id@h.example:1"), None);
    assert_eq!(decode_link(""), None);
    assert_eq!(decode_link("wireguard://x"), None);
}

#[test]
fn a_bad_link_does_not_stop_the_batch() {
    let good_ss = format!("ss://{}#MyNode", b64("aes-256-gcm:pw@1.2.3.4:8388"));
    let links = vec![
        s("vles://misspelled@h.example:1"),
        s("vless://the-uuid@example.com:443"),
        s("vmess://broken"),
        good_ss,
        s("ftp://x"),
    ];
    let got = collect_proxies(&links, vec![]);
    assert_eq!(got, vec![Proxy::Vless(plain_vless()), Proxy::Shadowsocks(plain_ss())]);
}

#[test]
fn extra_proxies_come_first() {
    let links = vec![s("vless://the-uuid@example.com:443")];
    let got = collect_proxies(&links, vec![Proxy::Shadowsocks(plain_ss())]);
    assert_eq!(got, vec![Proxy::Shadowsocks(plain_ss()), Proxy::Vless(plain_vless())]);
}

#[test]
fn shadowsocks_link_parts() {
    assert_eq!(sublink::wrapped::ss_parts("ss://abc#My%20Node"), (s("abc"), s("My Node")));
    assert_eq!(sublink::wrapped::ss_parts("ss://abc"), (s("abc"), s("Shadowsocks Node")));
    assert_eq!(sublink::wrapped::ss_parts("ss://abc#"), (s("abc"), s("Shadowsocks Node")));
    assert_eq!(sublink::wrapped::ss_parts("ss://a#b#c"), (s("a#b"), s("c")));
    assert_eq!(sublink::wrapped::ss_parts("ss://ss://#n"), (s(""), s("n")));
    assert_eq!(sublink::wrapped::ss_parts("abc#n"), (s("abc"), s("n")));
}
