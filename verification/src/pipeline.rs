//! From links to a configuration document: every link is decoded by the
//! decoder of its scheme, the proxies that come of it are rendered, and the
//! result is either a fresh document or a template with the proxies merged
//! into it.

use crate::document::{node_view, Node, NodeView};
use crate::merge::{merge, merge_template};
use crate::model::{ClashConfig, ClashConfigView, Proxy, ProxyGroup, ProxyGroupView, ProxyView};
use crate::render::{config_node, proxy_nodes, render_config, render_proxies};
use crate::text::{begins_with, chars_of};
use crate::uri::{
    hysteria2_of, parse_hy2, parse_trojan, parse_tuic, parse_vless, trojan_of, tuic_of, vless_of,
};
use crate::wrapped::{parse_ss, parse_vmess, shadowsocks_of, vmess_of};
use crate::yaml::{read_document, write_document, yaml_document, yaml_text};
use vstd::prelude::*;

verus! {

/// Why no document came of the inputs.
#[derive(Debug, PartialEq, Eq)]
pub enum RenderError {
    /// The template is not a document; the message says why.
    Template(String),
    /// The finished document could not be written as text; the message says
    /// why.
    Output(String),
}

/// Whether a link begins with a scheme.
pub open spec fn has_scheme(link: Seq<char>, scheme: Seq<char>) -> bool {
    scheme.is_prefix_of(link)
}

/// The proxy that a link describes. The scheme at its front picks the
/// decoder; a link of no known scheme describes none.
pub open spec fn link_proxy(link: Seq<char>) -> Option<ProxyView> {
    if has_scheme(link, "vless://"@) {
        vless_of(link)
    } else if has_scheme(link, "vmess://"@) {
        vmess_of(link)
    } else if has_scheme(link, "hy2://"@) || has_scheme(link, "hysteria2://"@) {
        hysteria2_of(link)
    } else if has_scheme(link, "trojan://"@) {
        trojan_of(link)
    } else if has_scheme(link, "ss://"@) {
        shadowsocks_of(link)
    } else if has_scheme(link, "tuic://"@) {
        tuic_of(link)
    } else {
        None
    }
}

/// The proxies that the links describe, in the order of the links; a link
/// that describes none is passed over.
pub open spec fn link_proxies(links: Seq<Seq<char>>) -> Seq<ProxyView>
    decreases links.len(),
{
    if links.len() == 0 {
        Seq::empty()
    } else {
        match link_proxy(links.last()) {
            Some(p) => link_proxies(links.drop_last()).push(p),
            None => link_proxies(links.drop_last()),
        }
    }
}

/// All proxies of a call: the ones handed in, then the ones of the links.
pub open spec fn all_proxies(extra: Seq<ProxyView>, links: Seq<Seq<char>>) -> Seq<ProxyView> {
    extra + link_proxies(links)
}

/// The display names of the proxies, in order.
pub open spec fn names_of(proxies: Seq<ProxyView>) -> Seq<Seq<char>> {
    Seq::new(proxies.len(), |i: int| proxies[i].name())
}

/// The group for choosing by hand: `Auto` first, then every proxy.
pub open spec fn select_group(names: Seq<Seq<char>>) -> ProxyGroupView {
    ProxyGroupView {
        name: "Proxy"@,
        group_type: "select"@,
        proxies: seq!["Auto"@] + names,
        url: None,
        interval: None,
    }
}

/// The group that picks the fastest proxy by itself.
pub open spec fn auto_group(names: Seq<Seq<char>>) -> ProxyGroupView {
    ProxyGroupView {
        name: "Auto"@,
        group_type: "url-test"@,
        proxies: names,
        url: Some("http://www.gstatic.com/generate_204"@),
        interval: Some(300u32),
    }
}

/// The configuration that stands where there is no template: the proxies,
/// the two groups, and one rule that sends everything to the first group.
pub open spec fn default_config(proxies: Seq<ProxyView>) -> ClashConfigView {
    ClashConfigView {
        proxies,
        proxy_groups: seq![select_group(names_of(proxies)), auto_group(names_of(proxies))],
        rules: seq!["MATCH,Proxy"@],
    }
}

/// The document that comes of the proxies: the template with the proxies
/// merged into it, or the default configuration where there is no template.
pub open spec fn document_of(proxies: Seq<ProxyView>, template: Option<NodeView>) -> NodeView {
    match template {
        Some(doc) => merge_template(doc, proxy_nodes(proxies), names_of(proxies)),
        None => config_node(default_config(proxies)),
    }
}

/// Whether `r` is what writing `doc` as text gives: the text where there is
/// one, else the error of the output.
pub open spec fn rendered(r: Result<String, RenderError>, doc: NodeView) -> bool {
    match yaml_text(doc) {
        Some(text) => r matches Ok(t) && t@ == text,
        None => r matches Err(RenderError::Output(_)),
    }
}

fn starts(link: &[char], scheme: &str) -> (r: bool)
    ensures
        r == has_scheme(link@, scheme@),
{
    let s = chars_of(scheme);
    begins_with(link, s.as_slice())
}

/// Decodes one link by the decoder of its scheme.
pub fn decode_link(link: &str) -> (r: Option<Proxy>)
    ensures
        r.deep_view() == link_proxy(link@),
        r matches Some(p) ==> p.deep_view().wf(),
{
    let chars = chars_of(link);
    let c = chars.as_slice();
    if starts(c, "vless://") {
        parse_vless(link)
    } else if starts(c, "vmess://") {
        parse_vmess(link)
    } else if starts(c, "hy2://") || starts(c, "hysteria2://") {
        parse_hy2(link)
    } else if starts(c, "trojan://") {
        parse_trojan(link)
    } else if starts(c, "ss://") {
        parse_ss(link)
    } else if starts(c, "tuic://") {
        parse_tuic(link)
    } else {
        None
    }
}

/// The proxies of a call: `extra`, then what the links describe.
pub fn collect_proxies(links: &Vec<String>, extra: Vec<Proxy>) -> (r: Vec<Proxy>)
    ensures
        r.deep_view() == all_proxies(extra.deep_view(), links.deep_view()),
{
    let mut proxies = extra;
    let mut i: usize = 0;
    assert(links.deep_view().take(0) =~= Seq::<Seq<char>>::empty());
    assert(proxies.deep_view() + Seq::<ProxyView>::empty() =~= proxies.deep_view());
    while i < links.len()
        invariant
            i <= links.len(),
            proxies.deep_view() == extra.deep_view() + link_proxies(
                links.deep_view().take(i as int),
            ),
        decreases links.len() - i,
    {
        let ghost before = proxies.deep_view();
        assert(links.deep_view().take(i + 1).drop_last() =~= links.deep_view().take(i as int));
        assert(links.deep_view().take(i + 1).last() == links@[i as int]@);
        match decode_link(links[i].as_str()) {
            Some(p) => {
                proxies.push(p);
                assert(proxies.deep_view() =~= before.push(p.deep_view()));
                assert(before.push(p.deep_view()) =~= extra.deep_view() + link_proxies(
                    links.deep_view().take(i as int),
                ).push(p.deep_view()));
            },
            None => {},
        }
        i += 1;
    }
    assert(links.deep_view().take(links.len() as int) =~= links.deep_view());
    proxies
}

/// The display names of the proxies, in order.
pub fn proxy_names(proxies: &Vec<Proxy>) -> (r: Vec<String>)
    ensures
        r.deep_view() == names_of(proxies.deep_view()),
{
    let mut names: Vec<String> = Vec::new();
    let mut i: usize = 0;
    while i < proxies.len()
        invariant
            i <= proxies.len(),
            names.len() == i,
            forall|j: int| 0 <= j < i ==> (#[trigger] names@[j])@ == proxies@[j].deep_view().name(),
        decreases proxies.len() - i,
    {
        names.push(proxies[i].name().clone());
        i += 1;
    }
    assert(names.deep_view() =~= names_of(proxies.deep_view()));
    names
}

/// The configuration that stands where there is no template.
pub fn make_default_config(proxies: Vec<Proxy>) -> (r: ClashConfig)
    ensures
        r.deep_view() == default_config(proxies.deep_view()),
{
    let names = proxy_names(&proxies);
    let mut members: Vec<String> = Vec::new();
    members.push("Auto".to_owned());
    let mut i: usize = 0;
    while i < names.len()
        invariant
            i <= names.len(),
            members.len() == i + 1,
            members@[0]@ == "Auto"@,
            forall|k: int| 1 <= k <= i ==> (#[trigger] members@[k])@ == names@[k - 1]@,
        decreases names.len() - i,
    {
        members.push(names[i].clone());
        i += 1;
    }
    assert(members.deep_view() =~= seq!["Auto"@] + names.deep_view());
    let mut groups: Vec<ProxyGroup> = Vec::new();
    groups.push(
        ProxyGroup {
            name: "Proxy".to_owned(),
            group_type: "select".to_owned(),
            proxies: members,
            url: None,
            interval: None,
        },
    );
    groups.push(
        ProxyGroup {
            name: "Auto".to_owned(),
            group_type: "url-test".to_owned(),
            proxies: names,
            url: Some("http://www.gstatic.com/generate_204".to_owned()),
            interval: Some(300),
        },
    );
    let mut rules: Vec<String> = Vec::new();
    rules.push("MATCH,Proxy".to_owned());
    assert(rules.deep_view() =~= seq!["MATCH,Proxy"@]);
    assert(groups.deep_view() =~= seq![
        select_group(names_of(proxies.deep_view())),
        auto_group(names_of(proxies.deep_view())),
    ]);
    ClashConfig { proxies, proxy_groups: groups, rules }
}

/// The document that comes of the proxies: the template with the proxies
/// merged into it, or the default configuration where there is no template.
pub fn render_document(proxies: Vec<Proxy>, template: Option<Node>) -> (r: Node)
    ensures
        node_view(r) == document_of(
            proxies.deep_view(),
            match template {
                Some(doc) => Some(node_view(doc)),
                None => None,
            },
        ),
{
    match template {
        Some(doc) => {
            let names = proxy_names(&proxies);
            let nodes = render_proxies(&proxies);
            merge(doc, nodes, &names)
        },
        None => render_config(&make_default_config(proxies)),
    }
}

/// Renders links and proxies as the text of a configuration document.
///
/// The proxies of `extra_proxies` come first, then those that the links
/// describe; a link that describes none is passed over. With a template the
/// proxies are merged into it, without one they make a document of their
/// own. The call fails where the template is no document, or where the
/// finished document cannot be written as text.
pub fn generate_clash_yaml(
    links: Vec<String>,
    extra_proxies: Vec<Proxy>,
    template: Option<String>,
) -> (r: Result<String, RenderError>)
    ensures
        match template {
            Some(t) => match yaml_document(t@) {
                Some(doc) => rendered(
                    r,
                    document_of(
                        all_proxies(extra_proxies.deep_view(), links.deep_view()),
                        Some(doc),
                    ),
                ),
                None => r matches Err(RenderError::Template(_)),
            },
            None => rendered(
                r,
                document_of(all_proxies(extra_proxies.deep_view(), links.deep_view()), None),
            ),
        },
{
    let proxies = collect_proxies(&links, extra_proxies);
    let doc = match template {
        Some(t) => match read_document(t.as_str()) {
            Ok(doc) => render_document(proxies, Some(doc)),
            Err(e) => {
                return Err(RenderError::Template(e.message));
            },
        },
        None => render_document(proxies, None),
    };
    match write_document(&doc) {
        Ok(text) => Ok(text),
        Err(e) => Err(RenderError::Output(e.message)),
    }
}

} // verus!
