use sublink::model::{Proxy, WireGuardProxy};
use sublink::wireguard::{parse_wireguard, split_endpoint, WireGuardDraft};

fn s(text: &str) -> String {
    text.to_string()
}

fn chars(text: &str) -> Vec<char> {
    text.chars().collect()
}

fn minimal() -> WireGuardProxy {
    WireGuardProxy {
        name: s("WireGuard"),
        server: s("vpn.example"),
        port: 51820,
        ip: Some(s("10.0.0.2")),
        ipv6: None,
        private_key: s("PRIV"),
        public_key: s("PUB"),
        pre_shared_key: None,
        allowed_ips: vec![s("0.0.0.0/0"), s("::/0")],
        udp: Some(true),
        mtu: None,
        reserved: None,
    }
}

const MINIMAL: &str = "[Interface]\nPrivateKey = PRIV\nAddress = 10.0.0.2/32\n\n[Peer]\nPublicKey = PUB\nEndpoint = vpn.example:51820\n";

#[test]
fn wireguard_minimal_block_gets_default_allowed_ips() {
    match parse_wireguard(MINIMAL) {
        Some(Proxy::WireGuard(p)) => {
            assert_eq!(p.allowed_ips, vec![s("0.0.0.0/0"), s("::/0")]);
            assert_eq!(p, minimal());
        }
        other => panic!("{:?}", other),
    }
}

#[test]
fn wireguard_without_private_key_is_refused() {
    let block = "[Interface]\nAddress = 10.0.0.2/32\n[Peer]\nPublicKey = PUB\nEndpoint = vpn.example:51820\n";
    assert_eq!(parse_wireguard(block), None);
}

#[test]
fn wireguard_needs_each_required_field() {
    assert_eq!(parse_wireguard("[Interface]\nPrivateKey = PRIV\n[Peer]\nPublicKey = PUB\nEndpoint = h:1\n"), None);
    assert_eq!(parse_wireguard("[Interface]\nPrivateKey = PRIV\nAddress = 10.0.0.2\n[Peer]\nEndpoint = h:1\n"), None);
    assert_eq!(parse_wireguard("[Interface]\nPrivateKey = PRIV\nAddress = 10.0.0.2\n[Peer]\nPublicKey = PUB\n"), None);
    assert_eq!(parse_wireguard(""), None);
}

#[test]
fn wireguard_with_an_ipv6_address_only() {
    let block = "[Interface]\nPrivateKey = PRIV\nAddress = fd00::2/64\n[Peer]\nPublicKey = PUB\nEndpoint = vpn.example:51820\n";
    let want = WireGuardProxy { ip: None, ipv6: Some(s("fd00::2")), ..minimal() };
    assert_eq!(parse_wireguard(block), Some(Proxy::WireGuard(want)));
}

#[test]
fn wireguard_full_block() {
    let block = "# my tunnel\r\n[INTERFACE]\r\n  privatekey=PRIV  \r\nAddress = 10.0.0.2/32 , fd00::2/64, 10.0.0.3\r\nMTU = 1420\r\nDNS = 1.1.1.1\r\n\r\n[peer]\r\nPUBLICKEY = PUB\r\nPresharedKey = PSK\r\nAllowedIPs = 10.0.0.0/8 ,192.168.0.0/16\r\nEndpoint = [2001:db8::1]:4500\r\n";
    let want = WireGuardProxy {
        name: s("WireGuard"),
        server: s("2001:db8::1"),
        port: 4500,
        ip: Some(s("10.0.0.3")),
        ipv6: Some(s("fd00::2")),
        private_key: s("PRIV"),
        public_key: s("PUB"),
        pre_shared_key: Some(s("PSK")),
        allowed_ips: vec![s("10.0.0.0/8"), s("192.168.0.0/16")],
        udp: Some(true),
        mtu: Some(1420),
        reserved: None,
    };
    assert_eq!(parse_wireguard(block), Some(Proxy::WireGuard(want)));
}

#[test]
fn wireguard_fields_belong_to_their_section() {
    let block = "[Peer]\nPrivateKey = PRIV\nAddress = 10.0.0.2\n[Interface]\nPublicKey = PUB\nEndpoint = h:1\n";
    assert_eq!(parse_wireguard(block), None);
    let block = "PrivateKey = PRIV\n[Interface]\nAddress = 10.0.0.2\n[Peer]\nPublicKey = PUB\nEndpoint = h:1\n";
    assert_eq!(parse_wireguard(block), None);
}

#[test]
fn wireguard_line_with_two_equal_signs_is_passed_over() {
    let block = "[Interface]\nPrivateKey = PRIV=\nAddress = 10.0.0.2\n[Peer]\nPublicKey = PUB\nEndpoint = h:1\n";
    assert_eq!(parse_wireguard(block), None);
    let block = "[Interface]\nPrivateKey = PRIV\nPrivateKey = OTHER=\nAddress = 10.0.0.2\n[Peer]\nPublicKey = PUB\nEndpoint = vpn.example:51820\n";
    assert_eq!(parse_wireguard(block), Some(Proxy::WireGuard(WireGuardProxy { ip: Some(s("10.0.0.2")), ..minimal() })));
}

#[test]
fn wireguard_later_lines_replace_earlier_ones() {
    let block = "[Interface]\nPrivateKey = OLD\nPrivateKey = PRIV\nAddress = 10.9.9.9\nAddress = 10.0.0.2/32\nMTU = 1400\nMTU = none\n[Peer]\nPublicKey = PUB\nEndpoint = vpn.example:51820\nAllowedIPs = 1.1.1.1/32\nAllowedIPs = 0.0.0.0/0, ::/0\n";
    assert_eq!(parse_wireguard(block), Some(Proxy::WireGuard(minimal())));
}

#[test]
fn wireguard_unreadable_mtu_is_none() {
    let block = format!("{}[Interface]\nMTU = 4294967296\n", MINIMAL);
    assert_eq!(parse_wireguard(&block), Some(Proxy::WireGuard(minimal())));
    let block = format!("{}[Interface]\nMTU = 4294967295\n", MINIMAL);
    let want = WireGuardProxy { mtu: Some(4294967295), ..minimal() };
    assert_eq!(parse_wireguard(&block), Some(Proxy::WireGuard(want)));
}

#[test]
fn endpoint_parts() {
    assert_eq!(split_endpoint(&chars("h.example:1234")), (chars("h.example"), 1234));
    assert_eq!(split_endpoint(&chars("h.example")), (chars("h.example"), 51820));
    assert_eq!(split_endpoint(&chars("h.example:")), (chars("h.example"), 51820));
    assert_eq!(split_endpoint(&chars("h.example:http")), (chars("h.example"), 51820));
    assert_eq!(split_endpoint(&chars("h.example:65536")), (chars("h.example"), 51820));
    assert_eq!(split_endpoint(&chars("h.example:65535")), (chars("h.example"), 65535));
    assert_eq!(split_endpoint(&chars("h.example:0")), (chars("h.example"), 0));
    assert_eq!(split_endpoint(&chars("[::1]:53")), (chars("::1"), 53));
    assert_eq!(split_endpoint(&chars(":53")), (chars(""), 53));
    assert_eq!(split_endpoint(&chars("[2001:db8::1]")), (chars("2001:db8::1"), 51820));
    assert_eq!(split_endpoint(&chars("[2001:db8::1]:")), (chars("2001:db8::1"), 51820));
    assert_eq!(split_endpoint(&chars("[]")), (chars(""), 51820));
    assert_eq!(split_endpoint(&chars("")), (chars(""), 51820));
    assert_eq!(split_endpoint(&chars("[h]:1")), (chars("h"), 1));
    assert_eq!(split_endpoint(&chars("[h:1")), (chars("[h"), 1));
}

#[test]
fn wireguard_endpoint_without_server_is_refused() {
    let block = "[Interface]\nPrivateKey = PRIV\nAddress = 10.0.0.2\n[Peer]\nPublicKey = PUB\nEndpoint = :51820\n";
    assert_eq!(parse_wireguard(block), None);
}

#[test]
fn draft_reads_line_by_line() {
    let mut draft = WireGuardDraft::new();
    draft.line(&chars("  [Interface]  "));
    assert_eq!(draft.section, "interface");
    draft.line(&chars("# PrivateKey = no"));
    draft.line(&chars("PrivateKey"));
    assert_eq!(draft.private_key, None);
    draft.line(&chars("PrivateKey = yes"));
    assert_eq!(draft.private_key, Some(s("yes")));
    draft.line(&chars("[x=y]"));
    assert_eq!(draft.section, "x=y");
    assert_eq!(draft.finish(), None);
}

#[test]
fn draft_fields_by_section() {
    let mut draft = WireGuardDraft::new();
    draft.field("privatekey", &chars("early"));
    assert_eq!(draft.private_key, None);
    draft.section = s("interface");
    draft.field("privatekey", &chars("k"));
    draft.field("PrivateKey", &chars("no"));
    draft.field("publickey", &chars("no"));
    draft.field("mtu", &chars("1280"));
    draft.field("address", &chars("10.0.0.2/24, fd00::1/64 ,, 10.0.0.9"));
    assert_eq!(draft.private_key, Some(s("k")));
    assert_eq!(draft.public_key, None);
    assert_eq!(draft.mtu, Some(1280));
    assert_eq!(draft.ip, Some(s("10.0.0.9")));
    assert_eq!(draft.ipv6, Some(s("fd00::1")));
    draft.field("address", &chars(""));
    assert_eq!(draft.ip, Some(s("")));
    draft.section = s("peer");
    draft.field("publickey", &chars("p"));
    draft.field("endpoint", &chars("h:9"));
    draft.field("presharedkey", &chars("q"));
    draft.field("allowedips", &chars(" a , b"));
    draft.field("mtu", &chars("9"));
    assert_eq!(draft.public_key, Some(s("p")));
    assert_eq!(draft.endpoint, Some(s("h:9")));
    assert_eq!(draft.pre_shared_key, Some(s("q")));
    assert_eq!(draft.allowed_ips, vec![s("a"), s("b")]);
    assert_eq!(draft.mtu, Some(1280));
    match draft.finish() {
        Some(Proxy::WireGuard(p)) => {
            assert_eq!(p.server, "h");
            assert_eq!(p.port, 9);
            assert_eq!(p.allowed_ips, vec![s("a"), s("b")]);
        }
        other => panic!("{:?}", other),
    }
}
