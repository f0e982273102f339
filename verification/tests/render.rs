use sublink::document::Node;
use sublink::merge::merge;
use sublink::model::{
    ClashConfig, Hysteria2Proxy, Proxy, ProxyGroup, RealityOpts, ShadowsocksProxy, TuicProxy,
    VlessProxy, WireGuardProxy, WsOpts,
};
use sublink::pipeline::{
    generate_clash_yaml, make_default_config, proxy_names, render_document, RenderError,
};
use sublink::render::{render_config, render_proxy};
use sublink::yaml::{read_document, write_document};

fn s(text: &str) -> String {
    text.to_string()
}

fn t(text: &str) -> Node {
    Node::Text(text.to_string())
}

fn map(entries: Vec<(&str, Node)>) -> Node {
    Node::Mapping(entries.into_iter().map(|(k, v)| (t(k), v)).collect())
}

fn texts(items: &[&str]) -> Node {
    Node::Sequence(items.iter().map(|i| t(i)).collect())
}

fn get<'a>(node: &'a Node, key: &str) -> &'a Node {
    match node {
        Node::Mapping(entries) => {
            for (k, v) in entries {
                if *k == t(key) {
                    return v;
                }
            }
            panic!("no key {}", key)
        }
        other => panic!("no mapping: {:?}", other),
    }
}

fn items(node: &Node) -> &Vec<Node> {
    match node {
        Node::Sequence(items) => items,
        other => panic!("no sequence: {:?}", other),
    }
}

fn hy(name: &str) -> Proxy {
    Proxy::Hysteria2(Hysteria2Proxy {
        name: s(name),
        server: s("hy.example"),
        port: 8443,
        password: s("pw"),
        sni: None,
        skip_cert_verify: Some(true),
        obfs: None,
        obfs_password: None,
    })
}

fn hy_node(name: &str) -> Node {
    map(vec![
        ("type", t("hysteria2")),
        ("name", t(name)),
        ("server", t("hy.example")),
        ("port", Node::Unsigned(8443)),
        ("password", t("pw")),
        ("skip-cert-verify", Node::Bool(true)),
    ])
}

#[test]
fn absent_fields_are_left_out() {
    assert_eq!(render_proxy(&hy("a")), hy_node("a"));
}

#[test]
fn vless_fields_in_order() {
    let p = Proxy::Vless(VlessProxy {
        name: s("n"),
        server: s("h"),
        port: 1,
        uuid: s("u"),
        flow: Some(s("f")),
        udp: Some(true),
        tls: Some(false),
        skip_cert_verify: Some(true),
        servername: Some(s("sn")),
        network: Some(s("ws")),
        client_fingerprint: Some(s("fp")),
        reality_opts: Some(RealityOpts { public_key: s("pk"), short_id: s("si") }),
        ws_opts: Some(WsOpts { path: s("/"), headers: Some(vec![(s("Host"), s("x"))]) }),
        grpc_opts: None,
    });
    let want = map(vec![
        ("type", t("vless")),
        ("name", t("n")),
        ("server", t("h")),
        ("port", Node::Unsigned(1)),
        ("uuid", t("u")),
        ("flow", t("f")),
        ("udp", Node::Bool(true)),
        ("tls", Node::Bool(false)),
        ("skip-cert-verify", Node::Bool(true)),
        ("servername", t("sn")),
        ("network", t("ws")),
        ("client-fingerprint", t("fp")),
        ("reality-opts", map(vec![("public-key", t("pk")), ("short-id", t("si"))])),
        ("ws-opts", map(vec![("path", t("/")), ("headers", map(vec![("Host", t("x"))]))])),
    ]);
    assert_eq!(render_proxy(&p), want);
}

#[test]
fn wireguard_tuic_and_shadowsocks_fields() {
    let wg = Proxy::WireGuard(WireGuardProxy {
        name: s("WireGuard"),
        server: s("h"),
        port: 51820,
        ip: Some(s("10.0.0.2")),
        ipv6: Some(s("fd00::2")),
        private_key: s("a"),
        public_key: s("b"),
        pre_shared_key: Some(s("c")),
        allowed_ips: vec![s("0.0.0.0/0"), s("::/0")],
        udp: Some(true),
        mtu: Some(1420),
        reserved: Some(vec![1, 2, 3]),
    });
    let want = map(vec![
        ("type", t("wireguard")),
        ("name", t("WireGuard")),
        ("server", t("h")),
        ("port", Node::Unsigned(51820)),
        ("ip", t("10.0.0.2")),
        ("ipv6", t("fd00::2")),
        ("private-key", t("a")),
        ("public-key", t("b")),
        ("pre-shared-key", t("c")),
        ("allowed-ips", texts(&["0.0.0.0/0", "::/0"])),
        ("udp", Node::Bool(true)),
        ("mtu", Node::Unsigned(1420)),
        ("reserved", Node::Sequence(vec![Node::Unsigned(1), Node::Unsigned(2), Node::Unsigned(3)])),
    ]);
    assert_eq!(render_proxy(&wg), want);

    let tuic = Proxy::Tuic(TuicProxy {
        name: s("n"),
        server: s("h"),
        port: 2,
        password: s("p"),
        uuid: s("u"),
        udp: None,
        tls: None,
        skip_cert_verify: None,
        servername: None,
        alpn: Some(vec![s("h3")]),
        congestion_controller: Some(s("bbr")),
        zero_rtt: Some(false),
    });
    let want = map(vec![
        ("type", t("tuic")),
        ("name", t("n")),
        ("server", t("h")),
        ("port", Node::Unsigned(2)),
        ("password", t("p")),
        ("uuid", t("u")),
        ("alpn", texts(&["h3"])),
        ("congestion-controller", t("bbr")),
        ("zero-rtt", Node::Bool(false)),
    ]);
    assert_eq!(render_proxy(&tuic), want);

    let ss = Proxy::Shadowsocks(ShadowsocksProxy {
        name: s("n"),
        server: s("h"),
        port: 3,
        password: s("p"),
        cipher: s("c"),
        udp: None,
        network: Some(s("tcp")),
        plugin: Some(s("obfs")),
        plugin_opts: Some(vec![(s("mode"), s("http")), (s("host"), s("x"))]),
    });
    let want = map(vec![
        ("type", t("ss")),
        ("name", t("n")),
        ("server", t("h")),
        ("port", Node::Unsigned(3)),
        ("password", t("p")),
        ("cipher", t("c")),
        ("network", t("tcp")),
        ("plugin", t("obfs")),
        ("plugin-opts", map(vec![("mode", t("http")), ("host", t("x"))])),
    ]);
    assert_eq!(render_proxy(&ss), want);
}

#[test]
fn default_config_has_two_groups_and_one_rule() {
    let config = make_default_config(vec![hy("a"), hy("b"), hy("a")]);
    let want = ClashConfig {
        proxies: vec![hy("a"), hy("b"), hy("a")],
        proxy_groups: vec![
            ProxyGroup {
                name: s("Proxy"),
                group_type: s("select"),
                proxies: vec![s("Auto"), s("a"), s("b"), s("a")],
                url: None,
                interval: None,
            },
            ProxyGroup {
                name: s("Auto"),
                group_type: s("url-test"),
                proxies: vec![s("a"), s("b"), s("a")],
                url: Some(s("http://www.gstatic.com/generate_204")),
                interval: Some(300),
            },
        ],
        rules: vec![s("MATCH,Proxy")],
    };
    assert_eq!(config, want);
}

#[test]
fn default_config_of_no_proxies() {
    let config = make_default_config(vec![]);
    assert_eq!(config.proxies, vec![]);
    assert_eq!(config.proxy_groups[0].proxies, vec![s("Auto")]);
    assert_eq!(config.proxy_groups[1].proxies, Vec::<String>::new());
    assert_eq!(config.rules, vec![s("MATCH,Proxy")]);
}

#[test]
fn default_document() {
    let doc = render_config(&make_default_config(vec![hy("a")]));
    let want = map(vec![
        ("proxies", Node::Sequence(vec![hy_node("a")])),
        (
            "proxy-groups",
            Node::Sequence(vec![
                map(vec![("name", t("Proxy")), ("type", t("select")), ("proxies", texts(&["Auto", "a"]))]),
                map(vec![
                    ("name", t("Auto")),
                    ("type", t("url-test")),
                    ("proxies", texts(&["a"])),
                    ("url", t("http://www.gstatic.com/generate_204")),
                    ("interval", Node::Unsigned(300)),
                ]),
            ]),
        ),
        ("rules", texts(&["MATCH,Proxy"])),
    ]);
    assert_eq!(doc, want);
    assert_eq!(render_document(vec![hy("a")], None), want);
}

#[test]
fn default_text() {
    let text = generate_clash_yaml(vec![s("hy2://pw@hy.example:8443#a")], vec![], None).unwrap();
    let want = "proxies:\n- type: hysteria2\n  name: a\n  server: hy.example\n  port: 8443\n  password: pw\n  skip-cert-verify: true\nproxy-groups:\n- name: Proxy\n  type: select\n  proxies:\n  - Auto\n  - a\n- name: Auto\n  type: url-test\n  proxies:\n  - a\n  url: http://www.gstatic.com/generate_204\n  interval: 300\nrules:\n- MATCH,Proxy\n";
    assert_eq!(text, want);
}

#[test]
fn names_in_order_with_repeats() {
    assert_eq!(proxy_names(&vec![hy("b"), hy("a"), hy("b")]), vec![s("b"), s("a"), s("b")]);
}

#[test]
fn merge_appends_to_the_matching_group() {
    let template = map(vec![
        ("port", Node::Unsigned(7890)),
        ("proxies", Node::Sequence(vec![map(vec![("name", t("old"))])])),
        (
            "proxy-groups",
            Node::Sequence(vec![
                map(vec![("name", t("Other")), ("type", t("select")), ("proxies", texts(&["DIRECT"]))]),
                map(vec![
                    ("name", t("PROXY")),
                    ("type", t("select")),
                    ("proxies", texts(&["old"])),
                    ("custom", Node::Bool(true)),
                ]),
                map(vec![("name", t("PROXY")), ("proxies", texts(&["second"]))]),
            ]),
        ),
        ("rules", texts(&["MATCH,PROXY"])),
    ]);
    let names = vec![s("a"), s("b")];
    let got = merge(template, vec![hy_node("a"), hy_node("b")], &names);
    let want = map(vec![
        ("port", Node::Unsigned(7890)),
        ("proxies", Node::Sequence(vec![map(vec![("name", t("old"))]), hy_node("a"), hy_node("b")])),
        (
            "proxy-groups",
            Node::Sequence(vec![
                map(vec![("name", t("Other")), ("type", t("select")), ("proxies", texts(&["DIRECT"]))]),
                map(vec![
                    ("name", t("PROXY")),
                    ("type", t("select")),
                    ("proxies", texts(&["old", "a", "b"])),
                    ("custom", Node::Bool(true)),
                ]),
                map(vec![("name", t("PROXY")), ("proxies", texts(&["second"]))]),
            ]),
        ),
        ("rules", texts(&["MATCH,PROXY"])),
    ]);
    assert_eq!(got, want);
}

#[test]
fn merge_creates_the_group_where_there_is_none() {
    let template = map(vec![
        ("proxy-groups", Node::Sequence(vec![map(vec![("name", t("Proxy")), ("proxies", texts(&["x"]))])])),
        ("mode", t("rule")),
    ]);
    let got = merge(template, vec![hy_node("a")], &vec![s("a")]);
    let want = map(vec![
        (
            "proxy-groups",
            Node::Sequence(vec![
                map(vec![("name", t("Proxy")), ("proxies", texts(&["x"]))]),
                map(vec![("name", t("PROXY")), ("type", t("select")), ("proxies", texts(&["a"]))]),
            ]),
        ),
        ("mode", t("rule")),
        ("proxies", Node::Sequence(vec![hy_node("a")])),
    ]);
    assert_eq!(got, want);
}

#[test]
fn merge_into_an_empty_mapping() {
    let got = merge(Node::Mapping(vec![]), vec![], &vec![]);
    let want = map(vec![
        ("proxies", Node::Sequence(vec![])),
        (
            "proxy-groups",
            Node::Sequence(vec![map(vec![
                ("name", t("PROXY")),
                ("type", t("select")),
                ("proxies", Node::Sequence(vec![])),
            ])]),
        ),
    ]);
    assert_eq!(got, want);
}

#[test]
fn merge_replaces_null_in_place() {
    let template = map(vec![("proxies", Node::Null), ("x", t("y")), ("proxy-groups", Node::Null)]);
    let got = merge(template, vec![hy_node("a")], &vec![s("a")]);
    let want = map(vec![
        ("proxies", Node::Sequence(vec![hy_node("a")])),
        ("x", t("y")),
        (
            "proxy-groups",
            Node::Sequence(vec![map(vec![
                ("name", t("PROXY")),
                ("type", t("select")),
                ("proxies", texts(&["a"])),
            ])]),
        ),
    ]);
    assert_eq!(got, want);
}

#[test]
fn merge_leaves_other_shapes_alone() {
    let template = map(vec![("proxies", t("none")), ("proxy-groups", Node::Unsigned(3))]);
    let got = merge(template, vec![hy_node("a")], &vec![s("a")]);
    assert_eq!(got, map(vec![("proxies", t("none")), ("proxy-groups", Node::Unsigned(3))]));
    assert_eq!(merge(texts(&["a"]), vec![hy_node("a")], &vec![s("a")]), texts(&["a"]));
    assert_eq!(merge(Node::Null, vec![hy_node("a")], &vec![s("a")]), Node::Null);
}

#[test]
fn merge_gives_the_group_a_member_list() {
    let template = map(vec![(
        "proxy-groups",
        Node::Sequence(vec![
            map(vec![("name", t("PROXY")), ("type", t("select"))]),
        ]),
    )]);
    let got = merge(template, vec![], &vec![s("a")]);
    assert_eq!(
        *get(&got, "proxy-groups"),
        Node::Sequence(vec![map(vec![
            ("name", t("PROXY")),
            ("type", t("select")),
            ("proxies", texts(&["a"])),
        ])])
    );
    let template = map(vec![(
        "proxy-groups",
        Node::Sequence(vec![map(vec![("proxies", t("all")), ("name", t("PROXY"))])]),
    )]);
    let got = merge(template, vec![], &vec![s("a")]);
    assert_eq!(
        *get(&got, "proxy-groups"),
        Node::Sequence(vec![map(vec![("proxies", texts(&["a"])), ("name", t("PROXY"))])])
    );
}

#[test]
fn group_names_match_exactly() {
    let template = map(vec![(
        "proxy-groups",
        Node::Sequence(vec![
            map(vec![("name", t("proxy")), ("proxies", texts(&[]))]),
            map(vec![("name", Node::Unsigned(1))]),
            t("PROXY"),
        ]),
    )]);
    let got = merge(template, vec![], &vec![s("a")]);
    let groups = items(get(&got, "proxy-groups"));
    assert_eq!(groups.len(), 4);
    assert_eq!(groups[0], map(vec![("name", t("proxy")), ("proxies", texts(&[]))]));
    assert_eq!(groups[2], t("PROXY"));
    assert_eq!(
        groups[3],
        map(vec![("name", t("PROXY")), ("type", t("select")), ("proxies", texts(&["a"]))])
    );
}

#[test]
fn template_text_is_merged() {
    let template = "mixed-port: 7890\nproxies:\n- name: old\n  type: direct\nproxy-groups:\n- name: PROXY\n  type: select\n  proxies:\n  - old\nrules:\n- MATCH,PROXY\n";
    let text = generate_clash_yaml(
        vec![s("hy2://pw@hy.example:8443#a"), s("nonsense")],
        vec![hy("wg")],
        Some(s(template)),
    )
    .unwrap();
    let want = "mixed-port: 7890\nproxies:\n- name: old\n  type: direct\n- type: hysteria2\n  name: wg\n  server: hy.example\n  port: 8443\n  password: pw\n  skip-cert-verify: true\n- type: hysteria2\n  name: a\n  server: hy.example\n  port: 8443\n  password: pw\n  skip-cert-verify: true\nproxy-groups:\n- name: PROXY\n  type: select\n  proxies:\n  - old\n  - wg\n  - a\nrules:\n- MATCH,PROXY\n";
    assert_eq!(text, want);
}

#[test]
fn template_keeps_what_the_merge_does_not_know() {
    let template = "a: 1.5\nb: -3\nc: !tagged [1, 2]\nd: ~\ne: {k: [true, false]}\nproxies: !keep\n- x\n";
    let text = generate_clash_yaml(vec![], vec![hy("a")], Some(s(template))).unwrap();
    let doc = read_document(&text).unwrap();
    let before = read_document(template).unwrap();
    for key in ["a", "b", "c", "d", "e"] {
        assert_eq!(get(&doc, key), get(&before, key), "{}", key);
    }
    assert_eq!(*get(&doc, "b"), Node::Signed(-3));
    match get(&doc, "proxies") {
        Node::Tagged(_, inner) => assert_eq!(**inner, Node::Sequence(vec![t("x"), hy_node("a")])),
        other => panic!("{:?}", other),
    }
}

#[test]
fn template_that_is_no_document_is_an_error() {
    let got = generate_clash_yaml(vec![], vec![], Some(s("a: [1, 2")));
    assert!(matches!(got, Err(RenderError::Template(_))), "{:?}", got);
    match got {
        Err(RenderError::Template(message)) => assert!(!message.is_empty()),
        _ => unreachable!(),
    }
}

#[test]
fn documents_survive_writing_and_reading() {
    let proxies = vec![hy("a"), hy("b: c"), hy("a"), hy("007"), hy("")];
    let names = proxy_names(&proxies);
    let text = generate_clash_yaml(vec![], proxies.clone(), None).unwrap();
    let doc = read_document(&text).unwrap();
    assert_eq!(doc, render_document(proxies, None));
    assert_eq!(items(get(&doc, "proxies")).len(), 5);
    let groups = items(get(&doc, "proxy-groups"));
    assert_eq!(groups.len(), 2);
    let mut select: Vec<&str> = vec!["Auto"];
    select.extend(names.iter().map(|n| n.as_str()));
    assert_eq!(*get(&groups[0], "proxies"), texts(&select));
    let auto: Vec<&str> = names.iter().map(|n| n.as_str()).collect();
    assert_eq!(*get(&groups[1], "proxies"), texts(&auto));
    assert_eq!(*get(&doc, "rules"), texts(&["MATCH,Proxy"]));
}

#[test]
fn reads_and_writes_a_small_mapping() {
    let doc = read_document("a: 1\nb: [x, y]\n").unwrap();
    assert_eq!(doc, map(vec![("a", Node::Unsigned(1)), ("b", texts(&["x", "y"]))]));
    assert_eq!(write_document(&doc).unwrap(), "a: 1\nb:\n- x\n- y\n");
}

#[test]
fn a_repeated_key_is_written_once() {
    let doc = map(vec![("a", t("first")), ("b", t("x")), ("a", t("second"))]);
    assert_eq!(write_document(&doc).unwrap(), "a: second\nb: x\n");
}

#[test]
fn a_tag_on_a_tag_cannot_be_written() {
    let inner = Node::Tagged(serde_yaml::value::Tag::new("b"), Box::new(t("x")));
    let doc = Node::Tagged(serde_yaml::value::Tag::new("a"), Box::new(inner));
    let got = write_document(&doc);
    assert!(got.is_err(), "{:?}", got);
    assert!(!got.unwrap_err().message.is_empty());
}

#[test]
fn tagged_documents_are_merged_under_their_tags() {
    let tag = || serde_yaml::value::Tag::new("cfg");
    let template = Node::Tagged(tag(), Box::new(map(vec![("proxies", Node::Null)])));
    let got = render_document(vec![hy("a")], Some(template));
    let want = Node::Tagged(
        tag(),
        Box::new(map(vec![
            ("proxies", Node::Sequence(vec![hy_node("a")])),
            (
                "proxy-groups",
                Node::Sequence(vec![map(vec![
                    ("name", t("PROXY")),
                    ("type", t("select")),
                    ("proxies", texts(&["a"])),
                ])]),
            ),
        ])),
    );
    assert_eq!(got, want);
    let text = write_document(&got).unwrap();
    assert_eq!(read_document(&text).unwrap(), got);
}

#[test]
fn numbers_keep_their_kind() {
    let doc = read_document("[0, 18446744073709551615, -1, -9223372036854775808, 1.5, 1e3, .inf, 0x10, '7']").unwrap();
    let got = items(&doc);
    assert_eq!(got[0], Node::Unsigned(0));
    assert_eq!(got[1], Node::Unsigned(18446744073709551615));
    assert_eq!(got[2], Node::Signed(-1));
    assert_eq!(got[3], Node::Signed(-9223372036854775808));
    assert!(matches!(got[4], Node::Real(_)));
    assert!(matches!(got[5], Node::Real(_)));
    assert!(matches!(got[6], Node::Real(_)));
    assert_eq!(got[7], Node::Unsigned(16));
    assert_eq!(got[8], t("7"));
    assert_eq!(read_document(&write_document(&doc).unwrap()).unwrap(), doc);
}
