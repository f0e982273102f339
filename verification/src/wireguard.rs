//! The WireGuard decoder. It reads a configuration block line by line: a
//! line in square brackets names the section that the following lines belong
//! to, and a line `key = value` sets a field of that section.

use crate::model::{Proxy, ProxyView, WireGuardProxy, WireGuardView};
use crate::text::{
    chars_of, copy_range, count_char, count_of, find_first, find_last, first_index, last_index,
    lowercase, parse_unsigned, read_unsigned, same_text, split_chars, split_on, string_of, trim,
    trim_chars, views,
};
use vstd::prelude::*;

verus! {

/// What has been read of a block so far: the section that the next
/// assignment belongs to, in lower case, and the fields set until now.
#[derive(Debug, PartialEq, Eq)]
pub struct WireGuardDraft {
    pub section: String,
    pub private_key: Option<String>,
    pub ip: Option<String>,
    pub ipv6: Option<String>,
    pub mtu: Option<u32>,
    pub public_key: Option<String>,
    pub endpoint: Option<String>,
    pub allowed_ips: Vec<String>,
    pub pre_shared_key: Option<String>,
}

pub ghost struct DraftView {
    pub section: Seq<char>,
    pub private_key: Option<Seq<char>>,
    pub ip: Option<Seq<char>>,
    pub ipv6: Option<Seq<char>>,
    pub mtu: Option<u32>,
    pub public_key: Option<Seq<char>>,
    pub endpoint: Option<Seq<char>>,
    pub allowed_ips: Seq<Seq<char>>,
    pub pre_shared_key: Option<Seq<char>>,
}

impl DeepView for WireGuardDraft {
    type V = DraftView;

    open spec fn deep_view(&self) -> DraftView {
        DraftView {
            section: self.section@,
            private_key: self.private_key.deep_view(),
            ip: self.ip.deep_view(),
            ipv6: self.ipv6.deep_view(),
            mtu: self.mtu,
            public_key: self.public_key.deep_view(),
            endpoint: self.endpoint.deep_view(),
            allowed_ips: self.allowed_ips.deep_view(),
            pre_shared_key: self.pre_shared_key.deep_view(),
        }
    }
}

/// The port of an endpoint that names none, or none that can be read.
pub const DEFAULT_PORT: u16 = 51820;

/// The draft before the first line.
pub open spec fn empty_draft() -> DraftView {
    DraftView {
        section: Seq::empty(),
        private_key: None,
        ip: None,
        ipv6: None,
        mtu: None,
        public_key: None,
        endpoint: None,
        allowed_ips: Seq::empty(),
        pre_shared_key: None,
    }
}

/// What stands before the first `c`; all of `s` where it holds none.
pub open spec fn before_first(s: Seq<char>, c: char) -> Seq<char> {
    match first_index(s, c) {
        Some(i) => s.take(i),
        None => s,
    }
}

/// The draft after one item of an `Address` list: the address without its
/// prefix length is the IPv6 address where it holds a colon, else the IPv4
/// address.
pub open spec fn with_address(d: DraftView, item: Seq<char>) -> DraftView {
    let address = before_first(trim(item), '/');
    if first_index(address, ':') is Some {
        DraftView { ipv6: Some(address), ..d }
    } else {
        DraftView { ip: Some(address), ..d }
    }
}

/// The draft after the items of an `Address` list, first to last.
pub open spec fn with_addresses(d: DraftView, items: Seq<Seq<char>>) -> DraftView
    decreases items.len(),
{
    if items.len() == 0 {
        d
    } else {
        with_address(with_addresses(d, items.drop_last()), items.last())
    }
}

/// Each item without the white space round it.
pub open spec fn trimmed(items: Seq<Seq<char>>) -> Seq<Seq<char>> {
    Seq::new(items.len(), |i: int| trim(items[i]))
}

/// The number that `value` writes, where it fits 32 bits.
pub open spec fn read_mtu(value: Seq<char>) -> Option<u32> {
    match parse_unsigned(value, u32::MAX as nat) {
        Some(n) => Some(n as u32),
        None => None,
    }
}

/// The draft after `key` has been set to `value`. The section and the key
/// are in lower case; a key that the section does not have changes nothing.
pub open spec fn with_field(d: DraftView, key: Seq<char>, value: Seq<char>) -> DraftView {
    if d.section == "interface"@ {
        if key == "privatekey"@ {
            DraftView { private_key: Some(value), ..d }
        } else if key == "address"@ {
            with_addresses(d, split_on(value, ','))
        } else if key == "mtu"@ {
            DraftView { mtu: read_mtu(value), ..d }
        } else {
            d
        }
    } else if d.section == "peer"@ {
        if key == "publickey"@ {
            DraftView { public_key: Some(value), ..d }
        } else if key == "endpoint"@ {
            DraftView { endpoint: Some(value), ..d }
        } else if key == "allowedips"@ {
            DraftView { allowed_ips: trimmed(split_on(value, ',')), ..d }
        } else if key == "presharedkey"@ {
            DraftView { pre_shared_key: Some(value), ..d }
        } else {
            d
        }
    } else {
        d
    }
}

/// Whether a trimmed line is blank or a comment.
pub open spec fn is_skipped(line: Seq<char>) -> bool {
    line.len() == 0 || line[0] == '#'
}

/// Whether a trimmed line names a section.
pub open spec fn is_header(line: Seq<char>) -> bool {
    line.len() > 0 && line[0] == '[' && line.last() == ']'
}

/// The draft after one line of the block. A line that is blank, a comment,
/// or holds no `=` or more than one changes nothing.
pub open spec fn with_line(d: DraftView, raw: Seq<char>) -> DraftView {
    let line = trim(raw);
    if is_skipped(line) {
        d
    } else if is_header(line) {
        DraftView { section: lowercase(line.subrange(1, line.len() - 1)), ..d }
    } else if count_of(line, '=') != 1 {
        d
    } else {
        match first_index(line, '=') {
            Some(i) => with_field(d, lowercase(trim(line.take(i))), trim(line.skip(i + 1))),
            None => d,
        }
    }
}

/// The draft after the lines, first to last.
pub open spec fn with_lines(d: DraftView, lines: Seq<Seq<char>>) -> DraftView
    decreases lines.len(),
{
    if lines.len() == 0 {
        d
    } else {
        with_line(with_lines(d, lines.drop_last()), lines.last())
    }
}

/// Whether a host is written in square brackets, as an IPv6 address is.
pub open spec fn is_bracketed(host: Seq<char>) -> bool {
    host.len() > 0 && host[0] == '[' && host.last() == ']'
}

/// A host without the square brackets round it, where it has them.
pub open spec fn bare_host(host: Seq<char>) -> Seq<char> {
    if is_bracketed(host) {
        host.subrange(1, host.len() - 1)
    } else {
        host
    }
}

/// The port that `text` writes, or the default where it writes none.
pub open spec fn port_or_default(text: Seq<char>) -> u16 {
    match parse_unsigned(text, u16::MAX as nat) {
        Some(n) => n as u16,
        None => DEFAULT_PORT,
    }
}

/// The server and the port of an endpoint. An endpoint that is all in
/// square brackets is a host without a port. Any other is parted at its last
/// colon: the host stands before it and the port after it, and without a
/// colon all of it is the host.
pub open spec fn endpoint_parts(endpoint: Seq<char>) -> (Seq<char>, u16) {
    if is_bracketed(endpoint) {
        (bare_host(endpoint), DEFAULT_PORT)
    } else {
        match last_index(endpoint, ':') {
            Some(i) => (bare_host(endpoint.take(i)), port_or_default(endpoint.skip(i + 1))),
            None => (endpoint, DEFAULT_PORT),
        }
    }
}

/// The addresses that a peer may be reached for where the block lists none.
pub open spec fn default_allowed_ips() -> Seq<Seq<char>> {
    seq!["0.0.0.0/0"@, "::/0"@]
}

/// The proxy that a finished draft describes. There is none unless the
/// private key, the public key, the endpoint and an address are set and the
/// endpoint names a server.
pub open spec fn finished(d: DraftView) -> Option<ProxyView> {
    match (d.private_key, d.public_key, d.endpoint) {
        (Some(private_key), Some(public_key), Some(endpoint)) => {
            let (server, port) = endpoint_parts(endpoint);
            if server.len() == 0 || (d.ip is None && d.ipv6 is None) {
                None
            } else {
                Some(
                    ProxyView::WireGuard(
                        WireGuardView {
                            name: "WireGuard"@,
                            server,
                            port,
                            ip: d.ip,
                            ipv6: d.ipv6,
                            private_key,
                            public_key,
                            pre_shared_key: d.pre_shared_key,
                            allowed_ips: if d.allowed_ips.len() == 0 {
                                default_allowed_ips()
                            } else {
                                d.allowed_ips
                            },
                            udp: Some(true),
                            mtu: d.mtu,
                            reserved: None,
                        },
                    ),
                )
            }
        },
        _ => None,
    }
}

/// The proxy that a finished draft describes is well formed.
pub proof fn lemma_finished_well_formed(d: DraftView)
    ensures
        finished(d) matches Some(p) ==> p.wf(),
{
    reveal_strlit("WireGuard");
}

/// The proxy that a configuration block describes.
pub open spec fn wireguard_of(content: Seq<char>) -> Option<ProxyView> {
    finished(with_lines(empty_draft(), split_on(content, '\n')))
}

impl WireGuardDraft {
    /// The draft before the first line.
    pub fn new() -> (d: WireGuardDraft)
        ensures
            d.deep_view() == empty_draft(),
    {
        let d = WireGuardDraft {
            section: String::new(),
            private_key: None,
            ip: None,
            ipv6: None,
            mtu: None,
            public_key: None,
            endpoint: None,
            allowed_ips: Vec::new(),
            pre_shared_key: None,
        };
        assert(d.allowed_ips.deep_view() =~= Seq::<Seq<char>>::empty());
        d
    }

    /// Takes one item of an `Address` list.
    fn address(&mut self, item: &[char])
        ensures
            final(self).deep_view() == with_address(old(self).deep_view(), item@),
    {
        let t = trim_chars(item);
        let address = match find_first(t.as_slice(), '/') {
            Some(i) => copy_range(t.as_slice(), 0, i),
            None => t,
        };
        assert(address@ =~= before_first(trim(item@), '/'));
        if find_first(address.as_slice(), ':').is_some() {
            self.ipv6 = Some(string_of(address.as_slice()));
        } else {
            self.ip = Some(string_of(address.as_slice()));
        }
    }

    /// Takes the items of an `Address` list, first to last.
    fn addresses(&mut self, value: &[char])
        ensures
            final(self).deep_view() == with_addresses(
                old(self).deep_view(),
                split_on(value@, ','),
            ),
    {
        let items = split_chars(value, ',');
        let mut i: usize = 0;
        assert(views(items@).take(0) =~= Seq::<Seq<char>>::empty());
        while i < items.len()
            invariant
                i <= items.len(),
                self.deep_view() == with_addresses(old(self).deep_view(), views(items@).take(i as int)),
            decreases items.len() - i,
        {
            assert(views(items@).take(i + 1).drop_last() =~= views(items@).take(i as int));
            self.address(items[i].as_slice());
            i += 1;
        }
        assert(views(items@).take(items.len() as int) =~= views(items@));
    }

    /// Sets `key` to `value`. The key is in lower case, and so is the
    /// section of the draft; a key that the section does not have changes
    /// nothing.
    pub fn field(&mut self, key: &str, value: &[char])
        ensures
            final(self).deep_view() == with_field(old(self).deep_view(), key@, value@),
    {
        if same_text(self.section.as_str(), "interface") {
            if same_text(key, "privatekey") {
                self.private_key = Some(string_of(value));
            } else if same_text(key, "address") {
                self.addresses(value);
            } else if same_text(key, "mtu") {
                self.mtu = match read_unsigned(value, 0xffff_ffff) {
                    Some(n) => Some(n as u32),
                    None => None,
                };
            }
        } else if same_text(self.section.as_str(), "peer") {
            if same_text(key, "publickey") {
                self.public_key = Some(string_of(value));
            } else if same_text(key, "endpoint") {
                self.endpoint = Some(string_of(value));
            } else if same_text(key, "allowedips") {
                let items = split_chars(value, ',');
                let mut list: Vec<String> = Vec::new();
                let mut i: usize = 0;
                while i < items.len()
                    invariant
                        i <= items.len(),
                        list.len() == i,
                        forall|j: int| 0 <= j < i ==> (#[trigger] list@[j])@ == trim(items@[j]@),
                    decreases items.len() - i,
                {
                    let t = trim_chars(items[i].as_slice());
                    list.push(string_of(t.as_slice()));
                    i += 1;
                }
                assert(list.deep_view() =~= trimmed(views(items@)));
                self.allowed_ips = list;
            } else if same_text(key, "presharedkey") {
                self.pre_shared_key = Some(string_of(value));
            }
        }
    }

    /// Takes one line of the block.
    pub fn line(&mut self, raw: &[char])
        ensures
            final(self).deep_view() == with_line(old(self).deep_view(), raw@),
    {
        let line = trim_chars(raw);
        let n = line.len();
        if n == 0 || line[0] == '#' {
            return ;
        }
        if line[0] == '[' && line[n - 1] == ']' {
            let inner = copy_range(line.as_slice(), 1, n - 1);
            self.section = string_of(inner.as_slice()).as_str().to_lowercase();
            return ;
        }
        if count_char(line.as_slice(), '=') != 1 {
            return ;
        }
        match find_first(line.as_slice(), '=') {
            Some(i) => {
                let left = copy_range(line.as_slice(), 0, i);
                let right = copy_range(line.as_slice(), i + 1, n);
                assert(left@ =~= line@.take(i as int));
                assert(right@ =~= line@.skip(i + 1));
                let key = string_of(trim_chars(left.as_slice()).as_slice()).as_str().to_lowercase();
                let value = trim_chars(right.as_slice());
                self.field(key.as_str(), value.as_slice());
            },
            None => {},
        }
    }

    /// The proxy that the draft describes, once the last line is read.
    pub fn finish(self) -> (r: Option<Proxy>)
        ensures
            r.deep_view() == finished(self.deep_view()),
            r matches Some(p) ==> p.deep_view().wf(),
    {
        proof {
            lemma_finished_well_formed(self.deep_view());
        }
        match (self.private_key, self.public_key, self.endpoint) {
            (Some(private_key), Some(public_key), Some(endpoint)) => {
                let e = chars_of(endpoint.as_str());
                let (server, port) = split_endpoint(e.as_slice());
                if server.len() == 0 || (self.ip.is_none() && self.ipv6.is_none()) {
                    return None;
                }
                let mut allowed_ips = self.allowed_ips;
                if allowed_ips.len() == 0 {
                    allowed_ips.push("0.0.0.0/0".to_owned());
                    allowed_ips.push("::/0".to_owned());
                    assert(allowed_ips.deep_view() =~= default_allowed_ips());
                }
                let none: Option<Vec<u8>> = None;
                Some(
                    Proxy::WireGuard(
                        WireGuardProxy {
                            name: "WireGuard".to_owned(),
                            server: string_of(server.as_slice()),
                            port,
                            ip: self.ip,
                            ipv6: self.ipv6,
                            private_key,
                            public_key,
                            pre_shared_key: self.pre_shared_key,
                            allowed_ips,
                            udp: Some(true),
                            mtu: self.mtu,
                            reserved: none,
                        },
                    ),
                )
            },
            _ => None,
        }
    }
}

/// The server and the port of an endpoint.
pub fn split_endpoint(endpoint: &[char]) -> (r: (Vec<char>, u16))
    ensures
        (r.0@, r.1) == endpoint_parts(endpoint@),
{
    if bracketed(endpoint) {
        return (without_brackets(endpoint), DEFAULT_PORT);
    }
    match find_last(endpoint, ':') {
        Some(i) => {
            let host = copy_range(endpoint, 0, i);
            let tail = copy_range(endpoint, i + 1, endpoint.len());
            assert(host@ =~= endpoint@.take(i as int));
            assert(tail@ =~= endpoint@.skip(i + 1));
            let port = match read_unsigned(tail.as_slice(), 0xffff) {
                Some(p) => p as u16,
                None => DEFAULT_PORT,
            };
            (without_brackets(host.as_slice()), port)
        },
        None => (copy_range(endpoint, 0, endpoint.len()), DEFAULT_PORT),
    }
}

fn bracketed(host: &[char]) -> (r: bool)
    ensures
        r == is_bracketed(host@),
{
    let n = host.len();
    n > 0 && host[0] == '[' && host[n - 1] == ']'
}

fn without_brackets(host: &[char]) -> (r: Vec<char>)
    ensures
        r@ == bare_host(host@),
{
    if bracketed(host) {
        copy_range(host, 1, host.len() - 1)
    } else {
        copy_range(host, 0, host.len())
    }
}

/// Decodes a WireGuard configuration block.
pub fn parse_wireguard(content: &str) -> (r: Option<Proxy>)
    ensures
        r.deep_view() == wireguard_of(content@),
        r matches Some(p) ==> p.deep_view().wf(),
{
    let chars = chars_of(content);
    let lines = split_chars(chars.as_slice(), '\n');
    let mut draft = WireGuardDraft::new();
    let mut i: usize = 0;
    assert(views(lines@).take(0) =~= Seq::<Seq<char>>::empty());
    while i < lines.len()
        invariant
            i <= lines.len(),
            draft.deep_view() == with_lines(empty_draft(), views(lines@).take(i as int)),
        decreases lines.len() - i,
    {
        assert(views(lines@).take(i + 1).drop_last() =~= views(lines@).take(i as int));
        draft.line(lines[i].as_slice());
        i += 1;
    }
    assert(views(lines@).take(lines.len() as int) =~= views(lines@));
    draft.finish()
}

} // verus!
