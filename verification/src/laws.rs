//! What holds of the library as a whole, over the functions that specify its
//! parts.

use crate::document::{entry_index, first_where, lemma_first_where, NodeView};
use crate::merge::{
    ensure_sequence, extend_entry, extend_sequence, group_entries_with_names, group_with_names,
    groups_with_names, is_target_group, merge_entries, merge_groups, merge_groups_entry,
    merge_template, name_nodes, new_group, target_index,
};
use crate::model::{ProxyView, ShadowsocksView};
use crate::pipeline::{
    auto_group, default_config, has_scheme, link_proxies, link_proxy, names_of, select_group,
};
use crate::render::{config_node, group_node, proxy_nodes};
use crate::uri::{
    hysteria2_from, server_of, trojan_from, tuic_from, value_or, vless_from, UrlPartsView,
};
use crate::wireguard::wireguard_of;
use crate::text::{count_of, first_index, is_digit, lemma_first_index, unsigned_digits};
use crate::wrapped::{non_empty, port_of, shadowsocks_from, split_first, vmess_from, VmessFieldsView};
use vstd::prelude::*;

verus! {

/// A link that begins with none of the known schemes describes no proxy.
pub proof fn law_unknown_scheme(link: Seq<char>)
    requires
        !has_scheme(link, "vless://"@),
        !has_scheme(link, "vmess://"@),
        !has_scheme(link, "hy2://"@),
        !has_scheme(link, "hysteria2://"@),
        !has_scheme(link, "trojan://"@),
        !has_scheme(link, "ss://"@),
        !has_scheme(link, "tuic://"@),
    ensures
        link_proxy(link) is None,
{
}

/// The proxies of two batches of links, one after the other, are the
/// proxies of the first batch followed by those of the second.
pub proof fn law_batches(first: Seq<Seq<char>>, second: Seq<Seq<char>>)
    ensures
        link_proxies(first + second) == link_proxies(first) + link_proxies(second),
    decreases second.len(),
{
    if second.len() == 0 {
        assert(first + second =~= first);
        assert(link_proxies(first) + link_proxies(second) =~= link_proxies(first));
    } else {
        law_batches(first, second.drop_last());
        assert((first + second).drop_last() =~= first + second.drop_last());
        assert((first + second).last() == second.last());
        match link_proxy(second.last()) {
            Some(p) => {
                assert(link_proxies(first + second) =~= link_proxies(first) + link_proxies(
                    second,
                ));
            },
            None => {},
        }
    }
}

/// A link that describes no proxy leaves the proxies of the links round it
/// as they are: the batch goes on.
pub proof fn law_bad_link_is_passed_over(
    before: Seq<Seq<char>>,
    link: Seq<char>,
    after: Seq<Seq<char>>,
)
    requires
        link_proxy(link) is None,
    ensures
        link_proxies(before + seq![link] + after) == link_proxies(before + after),
{
    law_batches(before + seq![link], after);
    law_batches(before, seq![link]);
    law_batches(before, after);
    assert(seq![link].drop_last() =~= Seq::<Seq<char>>::empty());
    assert(seq![link].last() == link);
    assert(link_proxies(Seq::<Seq<char>>::empty()) =~= Seq::<ProxyView>::empty());
    assert(link_proxies(seq![link]) =~= Seq::<ProxyView>::empty());
    assert(link_proxies(before) + Seq::<ProxyView>::empty() =~= link_proxies(before));
}

/// A URI link is decoded exactly where it names a host that is not empty
/// and a port, and the proxy has the host, the port and the credentials of
/// the link.
pub proof fn law_uri_fields(u: UrlPartsView)
    ensures
        vless_from(u) is Some <==> server_of(u) is Some,
        hysteria2_from(u) is Some <==> server_of(u) is Some,
        trojan_from(u) is Some <==> server_of(u) is Some,
        tuic_from(u) is Some <==> server_of(u) is Some,
        server_of(u) is Some ==> {
            &&& vless_from(u)->0 matches ProxyView::Vless(p)
            &&& p.server == u.host->0 && p.port == u.port->0 && p.uuid == u.username
        },
        server_of(u) is Some ==> {
            &&& hysteria2_from(u)->0 matches ProxyView::Hysteria2(p)
            &&& p.server == u.host->0 && p.port == u.port->0 && p.password == u.username
        },
        server_of(u) is Some ==> {
            &&& trojan_from(u)->0 matches ProxyView::Trojan(p)
            &&& p.server == u.host->0 && p.port == u.port->0 && p.password == u.username
        },
        server_of(u) is Some ==> {
            &&& tuic_from(u)->0 matches ProxyView::Tuic(p)
            &&& p.server == u.host->0 && p.port == u.port->0 && p.uuid == u.username
            &&& p.password == value_or(u.password, ""@)
        },
{
}

/// A vmess payload is decoded exactly where it has an address that is not
/// empty, a port that writes a number of 16 bits, and an id; the proxy has
/// that address, port and id.
pub proof fn law_vmess_fields(f: VmessFieldsView)
    ensures
        vmess_from(f) is Some <==> non_empty(f.add) is Some && f.id is Some && f.port is Some
            && port_of(f.port->0) is Some,
        vmess_from(f) is Some ==> {
            &&& vmess_from(f)->0 matches ProxyView::Vmess(p)
            &&& p.server == f.add->0 && Some(p.port) == port_of(f.port->0) && p.uuid == f.id->0
        },
{
}

/// Every proxy that a decoder makes has a name and a server, at most one
/// option block, and an address of its own where it is a WireGuard proxy.
pub proof fn law_decoded_proxies_are_well_formed(text: Seq<char>)
    ensures
        link_proxy(text) matches Some(p) ==> p.wf(),
        wireguard_of(text) matches Some(p) ==> p.wf(),
{
    reveal_strlit("VLESS Node");
    reveal_strlit("VMess Node");
    reveal_strlit("Hy2 Node");
    reveal_strlit("Trojan Node");
    reveal_strlit("Shadowsocks Node");
    reveal_strlit("TUIC Node");
    reveal_strlit("WireGuard");
    reveal_strlit("ws");
    reveal_strlit("grpc");
    assert("ws"@ != "grpc"@) by {
        assert("ws"@.len() != "grpc"@.len());
    }
}

/// Every proxy of a batch of links is well formed.
pub proof fn law_batch_is_well_formed(links: Seq<Seq<char>>)
    ensures
        forall|i: int| 0 <= i < link_proxies(links).len() ==> (#[trigger] link_proxies(links)[i]).wf(),
    decreases links.len(),
{
    if links.len() > 0 {
        law_batch_is_well_formed(links.drop_last());
        law_decoded_proxies_are_well_formed(links.last());
        let earlier = link_proxies(links.drop_last());
        assert forall|i: int| 0 <= i < link_proxies(links).len() implies (#[trigger] link_proxies(
            links,
        )[i]).wf() by {
            if i < earlier.len() {
                assert(link_proxies(links)[i] == earlier[i]);
            }
        }
    }
}

/// Without a template there are exactly two groups and one rule: the first
/// group is of type `select` and lists `Auto` and then the names of the
/// proxies in their order, the second is named `Auto`, of type `url-test`,
/// and lists the names of the proxies in their order.
pub proof fn law_default_groups(proxies: Seq<ProxyView>)
    ensures
        default_config(proxies).proxies == proxies,
        default_config(proxies).proxy_groups.len() == 2,
        default_config(proxies).rules.len() == 1,
        default_config(proxies).proxy_groups[0].group_type == "select"@,
        default_config(proxies).proxy_groups[0].proxies.len() == proxies.len() + 1,
        default_config(proxies).proxy_groups[0].proxies[0] == "Auto"@,
        default_config(proxies).proxy_groups[0].proxies.skip(1) == names_of(proxies),
        default_config(proxies).proxy_groups[1].name == "Auto"@,
        default_config(proxies).proxy_groups[1].group_type == "url-test"@,
        default_config(proxies).proxy_groups[1].proxies == names_of(proxies),
        forall|i: int| 0 <= i < proxies.len() ==> names_of(proxies)[i] == proxies[i].name(),
{
    assert(default_config(proxies).proxy_groups[0].proxies.skip(1) =~= names_of(proxies));
}

/// The default document holds the proxies, the two groups and the rule
/// under its three keys, in that order.
pub proof fn law_default_document(proxies: Seq<ProxyView>)
    ensures
        config_node(default_config(proxies)) matches NodeView::Mapping(entries) && {
            &&& entries.len() == 3
            &&& entries[0] == (
                NodeView::Text("proxies"@),
                NodeView::Sequence(proxy_nodes(proxies)),
            )
            &&& entries[1] == (
                NodeView::Text("proxy-groups"@),
                NodeView::Sequence(
                    seq![
                        group_node(select_group(names_of(proxies))),
                        group_node(auto_group(names_of(proxies))),
                    ],
                ),
            )
            &&& entries[2].0 == NodeView::Text("rules"@)
            &&& entries[2].1 matches NodeView::Sequence(rules) && rules.len() == 1
        },
{
    let c = default_config(proxies);
    assert(Seq::new(c.proxy_groups.len(), |i: int| group_node(c.proxy_groups[i])) =~= seq![
        group_node(select_group(names_of(proxies))),
        group_node(auto_group(names_of(proxies))),
    ]);
}

/// Whether `after` is `before` with nothing taken away and nothing moved:
/// every entry of `before` stands in its place under its key, the values
/// under keys other than `key` are the same, and what is new stands at the
/// end under `key`.
pub open spec fn only_adds_under(
    before: Seq<(NodeView, NodeView)>,
    after: Seq<(NodeView, NodeView)>,
    key: Seq<char>,
) -> bool {
    &&& before.len() <= after.len() <= before.len() + 1
    &&& forall|i: int| 0 <= i < before.len() ==> (#[trigger] after[i]).0 == before[i].0
    &&& forall|i: int|
        0 <= i < before.len() && before[i].0 != NodeView::Text(key) ==> #[trigger] after[i]
            == before[i]
    &&& forall|i: int| before.len() <= i < after.len() ==> (#[trigger] after[i]).0 == NodeView::Text(key)
}

/// Where the keys of `before` stand in their places in `after`, a key that
/// `before` has is found in `after` at the same index.
pub proof fn lemma_index_kept(
    before: Seq<(NodeView, NodeView)>,
    after: Seq<(NodeView, NodeView)>,
    key: Seq<char>,
)
    requires
        before.len() <= after.len(),
        forall|i: int| 0 <= i < before.len() ==> (#[trigger] after[i]).0 == before[i].0,
    ensures
        entry_index(before, key) is Some ==> entry_index(after, key) == entry_index(before, key),
        entry_index(before, key) is None && (forall|i: int|
            before.len() <= i < after.len() ==> (#[trigger] after[i]).0 != NodeView::Text(key))
            ==> entry_index(after, key) is None,
        entry_index(before, key) is None && after.len() > before.len() && after[before.len() as int].0
            == NodeView::Text(key) ==> entry_index(after, key) == Some(before.len() as int),
{
    let p = |e: (NodeView, NodeView)| e.0 == NodeView::Text(key);
    lemma_first_where(before, p);
    lemma_first_where(after, p);
    match first_where(before, p) {
        Some(i) => {
            assert(p(after[i]));
            match first_where(after, p) {
                Some(j) => {
                    if j < i {
                        assert(p(after[j]));
                        assert(!p(before[j]));
                    }
                },
                None => {},
            }
        },
        None => {
            match first_where(after, p) {
                Some(j) => {
                    if j < before.len() {
                        assert(p(after[j]));
                        assert(!p(before[j]));
                    }
                    if after.len() > before.len() && after[before.len() as int].0 == NodeView::Text(
                        key,
                    ) {
                        assert(p(after[before.len() as int]));
                    }
                },
                None => {
                    if after.len() > before.len() {
                        assert(!p(after[before.len() as int]));
                    }
                },
            }
        },
    }
}

/// The index that a key is found at lies inside the mapping, and the entry
/// there has the key.
pub proof fn lemma_entry_found(entries: Seq<(NodeView, NodeView)>, key: Seq<char>)
    ensures
        entry_index(entries, key) matches Some(i) ==> 0 <= i < entries.len() && entries[i].0
            == NodeView::Text(key),
{
    lemma_first_where(entries, |e: (NodeView, NodeView)| e.0 == NodeView::Text(key));
}

/// Each step of the merge only adds under its key.
pub proof fn lemma_steps_only_add(
    entries: Seq<(NodeView, NodeView)>,
    key: Seq<char>,
    items: Seq<NodeView>,
    names: Seq<Seq<char>>,
)
    ensures
        only_adds_under(entries, ensure_sequence(entries, key), key),
        only_adds_under(entries, extend_entry(entries, key, items), key),
        only_adds_under(entries, merge_groups_entry(entries, names), "proxy-groups"@),
{
    lemma_entry_found(entries, key);
    lemma_entry_found(entries, "proxy-groups"@);
}

/// The merge takes nothing away and moves nothing: every entry of the
/// template's top mapping stands in its place under its key, and every value
/// under a key other than `proxies` and `proxy-groups` is as it was. What is
/// new stands at the end, under one of these two keys.
pub proof fn law_merge_only_adds(
    entries: Seq<(NodeView, NodeView)>,
    proxies: Seq<NodeView>,
    names: Seq<Seq<char>>,
)
    ensures
        ({
            let merged = merge_entries(entries, proxies, names);
            &&& entries.len() <= merged.len() <= entries.len() + 2
            &&& forall|i: int| 0 <= i < entries.len() ==> (#[trigger] merged[i]).0 == entries[i].0
            &&& forall|i: int|
                0 <= i < entries.len() && entries[i].0 != NodeView::Text("proxies"@) && entries[i].0
                    != NodeView::Text("proxy-groups"@) ==> #[trigger] merged[i] == entries[i]
            &&& forall|i: int|
                entries.len() <= i < merged.len() ==> (#[trigger] merged[i]).0 == NodeView::Text(
                    "proxies"@,
                ) || merged[i].0 == NodeView::Text("proxy-groups"@)
        }),
{
    let a = ensure_sequence(entries, "proxies"@);
    let b = extend_entry(a, "proxies"@, proxies);
    let c = ensure_sequence(b, "proxy-groups"@);
    let d = merge_groups_entry(c, names);
    lemma_steps_only_add(entries, "proxies"@, proxies, names);
    lemma_steps_only_add(a, "proxies"@, proxies, names);
    lemma_steps_only_add(b, "proxy-groups"@, proxies, names);
    lemma_steps_only_add(c, "proxy-groups"@, proxies, names);
    lemma_entry_found(a, "proxies"@);
    lemma_entry_found(c, "proxy-groups"@);
    assert(b.len() == a.len());
    assert(d.len() == c.len());
    assert forall|i: int| 0 <= i < entries.len() implies (#[trigger] d[i]).0 == entries[i].0 by {
        assert(a[i].0 == entries[i].0);
        assert(b[i].0 == a[i].0);
        assert(c[i].0 == b[i].0);
    }
    assert forall|i: int|
        0 <= i < entries.len() && entries[i].0 != NodeView::Text("proxies"@) && entries[i].0
            != NodeView::Text("proxy-groups"@) implies #[trigger] d[i] == entries[i] by {
        assert(a[i] == entries[i]);
        assert(b[i] == a[i]);
        assert(c[i] == b[i]);
    }
    assert forall|i: int| entries.len() <= i < d.len() implies (#[trigger] d[i]).0
        == NodeView::Text("proxies"@) || d[i].0 == NodeView::Text("proxy-groups"@) by {
        if i < a.len() {
            assert(a[i].0 == NodeView::Text("proxies"@));
            assert(b[i].0 == a[i].0);
            assert(c[i].0 == b[i].0);
        } else {
            assert(c[i].0 == NodeView::Text("proxy-groups"@));
        }
    }
}

/// Appending to a value touches only the sequence under its tags.
pub proof fn lemma_extend_under_tags(value: NodeView, items: Seq<NodeView>)
    ensures
        extend_sequence(value, items).untagged() == match value.untagged() {
            NodeView::Sequence(s) => NodeView::Sequence(s + items),
            other => other,
        },
    decreases value,
{
    match value {
        NodeView::Tagged(_, inner) => lemma_extend_under_tags(*inner, items),
        _ => {},
    }
}

/// Merging into the groups touches only the sequence under the tags.
pub proof fn lemma_groups_under_tags(value: NodeView, names: Seq<Seq<char>>)
    ensures
        merge_groups(value, names).untagged() == match value.untagged() {
            NodeView::Sequence(groups) => NodeView::Sequence(groups_with_names(groups, names)),
            other => other,
        },
    decreases value,
{
    match value {
        NodeView::Tagged(_, inner) => lemma_groups_under_tags(*inner, names),
        _ => {},
    }
}

/// Adding names to a group touches only the mapping under its tags: the
/// entries of that mapping gain the names, and a group that is no mapping
/// stays as it is.
pub proof fn law_group_changes_under_its_tags(group: NodeView, names: Seq<Seq<char>>)
    ensures
        group_with_names(group, names).untagged() == match group.untagged() {
            NodeView::Mapping(entries) => NodeView::Mapping(
                group_entries_with_names(entries, names),
            ),
            other => other,
        },
    decreases group,
{
    match group {
        NodeView::Tagged(_, inner) => law_group_changes_under_its_tags(*inner, names),
        _ => {},
    }
}

/// Where the groups of a template hold a group named `PROXY`, the merge
/// changes the first such group and no other: the groups keep their number
/// and their places.
pub proof fn law_names_join_the_group(groups: Seq<NodeView>, names: Seq<Seq<char>>)
    requires
        target_index(groups) is Some,
    ensures
        ({
            let i = target_index(groups)->0;
            let merged = groups_with_names(groups, names);
            &&& 0 <= i < groups.len()
            &&& is_target_group(groups[i])
            &&& forall|j: int| 0 <= j < i ==> !is_target_group(#[trigger] groups[j])
            &&& merged.len() == groups.len()
            &&& merged[i] == group_with_names(groups[i], names)
            &&& forall|j: int| 0 <= j < groups.len() && j != i ==> #[trigger] merged[j] == groups[j]
        }),
{
    lemma_first_where(groups, |g: NodeView| is_target_group(g));
}

/// Where a group has a member list, the names are appended to it: the
/// members that were there stay first and in their order, and every other
/// entry of the group is as it was.
pub proof fn law_members_are_appended(
    entries: Seq<(NodeView, NodeView)>,
    members: Seq<NodeView>,
    names: Seq<Seq<char>>,
)
    requires
        entry_index(entries, "proxies"@) matches Some(k) && entries[k].1.untagged()
            == NodeView::Sequence(members),
    ensures
        ({
            let k = entry_index(entries, "proxies"@)->0;
            let merged = group_entries_with_names(entries, names);
            &&& 0 <= k < entries.len()
            &&& merged.len() == entries.len()
            &&& merged[k].0 == entries[k].0
            &&& merged[k].1.untagged() == NodeView::Sequence(members + name_nodes(names))
            &&& forall|j: int| 0 <= j < entries.len() && j != k ==> #[trigger] merged[j] == entries[j]
        }),
{
    lemma_entry_found(entries, "proxies"@);
    let k = entry_index(entries, "proxies"@)->0;
    lemma_extend_under_tags(entries[k].1, name_nodes(names));
}

/// Where a group has no member list, the names become its member list, and
/// every other entry of the group is as it was.
pub proof fn law_members_are_created(entries: Seq<(NodeView, NodeView)>, names: Seq<Seq<char>>)
    requires
        entry_index(entries, "proxies"@) is None,
    ensures
        group_entries_with_names(entries, names) == entries.push(
            (NodeView::Text("proxies"@), NodeView::Sequence(name_nodes(names))),
        ),
{
}

/// Where the groups of a template hold no group named `PROXY`, the merge
/// appends one and changes nothing else; the new group is named `PROXY`, is
/// of type `select`, and its members are the names and nothing more. It is
/// the only group of that name.
pub proof fn law_group_is_created(groups: Seq<NodeView>, names: Seq<Seq<char>>)
    requires
        target_index(groups) is None,
    ensures
        ({
            let merged = groups_with_names(groups, names);
            &&& merged.len() == groups.len() + 1
            &&& merged.take(groups.len() as int) == groups
            &&& merged.last() == new_group(names)
            &&& target_index(merged) == Some(groups.len() as int)
            &&& forall|j: int| 0 <= j < merged.len() && j != groups.len() ==> !is_target_group(#[trigger] merged[j])
        }),
        is_target_group(new_group(names)),
        new_group(names).get("type"@) == Some(NodeView::Text("select"@)),
        new_group(names).get("proxies"@) == Some(NodeView::Sequence(name_nodes(names))),
        forall|i: int| 0 <= i < names.len() ==> name_nodes(names)[i] == NodeView::Text(names[i]),
        name_nodes(names).len() == names.len(),
{
    let p = |g: NodeView| is_target_group(g);
    let merged = groups_with_names(groups, names);
    lemma_new_group(names);
    lemma_first_where(groups, p);
    lemma_first_where(merged, p);
    assert(merged.take(groups.len() as int) =~= groups);
    assert(p(merged[groups.len() as int]));
    assert forall|j: int| 0 <= j < merged.len() && j != groups.len() implies !is_target_group(
        #[trigger] merged[j],
    ) by {
        assert(merged[j] == groups[j]);
        assert(!p(groups[j]));
    }
    match first_where(merged, p) {
        Some(j) => {
            if j < groups.len() {
                assert(p(merged[j]));
            }
        },
        None => {},
    }
}

/// The group that the merge creates has its three entries under their keys.
pub proof fn lemma_new_group(names: Seq<Seq<char>>)
    ensures
        is_target_group(new_group(names)),
        new_group(names).get("type"@) == Some(NodeView::Text("select"@)),
        new_group(names).get("proxies"@) == Some(NodeView::Sequence(name_nodes(names))),
{
    reveal_strlit("name");
    reveal_strlit("type");
    reveal_strlit("proxies");
    let entries = new_group(names)->Mapping_0;
    assert("name"@ != "type"@) by {
        assert("name"@[0] != "type"@[0]);
    }
    assert("name"@ != "proxies"@) by {
        assert("name"@.len() != "proxies"@.len());
    }
    assert("type"@ != "proxies"@) by {
        assert("type"@.len() != "proxies"@.len());
    }
    lemma_first_where(entries, |e: (NodeView, NodeView)| e.0 == NodeView::Text("name"@));
    lemma_first_where(entries, |e: (NodeView, NodeView)| e.0 == NodeView::Text("type"@));
    lemma_first_where(entries, |e: (NodeView, NodeView)| e.0 == NodeView::Text("proxies"@));
    assert(entries[0].0 == NodeView::Text("name"@));
    assert(entries[1].0 == NodeView::Text("type"@));
    assert(entries[2].0 == NodeView::Text("proxies"@));
}

/// The merge as a whole, for a template whose top mapping has `proxies` and
/// `proxy-groups` as sequences: the rendered proxies are appended to the
/// proxies that were there, and the groups are the groups of the template
/// with the names merged in.
pub proof fn law_merge_of_sequences(
    entries: Seq<(NodeView, NodeView)>,
    old_proxies: Seq<NodeView>,
    groups: Seq<NodeView>,
    proxies: Seq<NodeView>,
    names: Seq<Seq<char>>,
)
    requires
        NodeView::Mapping(entries).get("proxies"@) matches Some(v) && v.untagged()
            == NodeView::Sequence(old_proxies),
        NodeView::Mapping(entries).get("proxy-groups"@) matches Some(v) && v.untagged()
            == NodeView::Sequence(groups),
    ensures
        ({
            let merged = merge_template(NodeView::Mapping(entries), proxies, names);
            &&& merged matches NodeView::Mapping(m) && m.len() == entries.len()
            &&& merged.get("proxies"@) matches Some(v) && v.untagged() == NodeView::Sequence(
                old_proxies + proxies,
            )
            &&& merged.get("proxy-groups"@) matches Some(v) && v.untagged() == NodeView::Sequence(
                groups_with_names(groups, names),
            )
        }),
{
    reveal_strlit("proxies");
    reveal_strlit("proxy-groups");
    assert("proxies"@ != "proxy-groups"@) by {
        assert("proxies"@.len() != "proxy-groups"@.len());
    }
    let a = ensure_sequence(entries, "proxies"@);
    let b = extend_entry(a, "proxies"@, proxies);
    let c = ensure_sequence(b, "proxy-groups"@);
    let d = merge_groups_entry(c, names);
    lemma_entry_found(entries, "proxies"@);
    lemma_entry_found(entries, "proxy-groups"@);
    let i = entry_index(entries, "proxies"@)->0;
    let g = entry_index(entries, "proxy-groups"@)->0;
    assert(a == entries);
    lemma_extend_under_tags(entries[i].1, proxies);
    lemma_index_kept(a, b, "proxy-groups"@);
    lemma_index_kept(a, b, "proxies"@);
    assert(c == b);
    lemma_groups_under_tags(c[g].1, names);
    lemma_index_kept(c, d, "proxy-groups"@);
    lemma_index_kept(c, d, "proxies"@);
}

/// Whether `c` does not occur in `s`.
pub open spec fn free_of(s: Seq<char>, c: char) -> bool {
    forall|i: int| 0 <= i < s.len() ==> s[i] != c
}

/// A character that does not occur is counted zero times.
pub proof fn lemma_count_free(s: Seq<char>, c: char)
    requires
        free_of(s, c),
    ensures
        count_of(s, c) == 0,
    decreases s.len(),
{
    if s.len() > 0 {
        assert forall|i: int| 0 <= i < s.drop_last().len() implies s.drop_last()[i] != c by {
            assert(s.drop_last()[i] == s[i]);
        }
        lemma_count_free(s.drop_last(), c);
    }
}

/// The occurrences in two texts, one after the other, add up.
pub proof fn lemma_count_concat(a: Seq<char>, b: Seq<char>, c: char)
    ensures
        count_of(a + b, c) == count_of(a, c) + count_of(b, c),
    decreases b.len(),
{
    if b.len() == 0 {
        assert(a + b =~= a);
    } else {
        lemma_count_concat(a, b.drop_last(), c);
        assert((a + b).drop_last() =~= a + b.drop_last());
        assert((a + b).last() == b.last());
    }
}

/// The first `c` after a text that is free of it is found at the end of
/// that text, and the two sides of it are the text and what follows.
pub proof fn lemma_split_after_free(a: Seq<char>, b: Seq<char>, c: char)
    requires
        free_of(a, c),
    ensures
        split_first(a + seq![c] + b, c) == Some((a, b)),
{
    let s = a + seq![c] + b;
    lemma_first_index(s, c);
    assert(s[a.len() as int] == c);
    assert forall|j: int| 0 <= j < a.len() implies s[j] != c by {
        assert(s[j] == a[j]);
    }
    assert(first_index(s, c) == Some(a.len() as int));
    assert(s.take(a.len() as int) =~= a);
    assert(s.skip(a.len() as int + 1) =~= b);
}

/// A text that writes a port holds digits, after a `+` or not, and so no
/// other character.
pub proof fn lemma_port_text(text: Seq<char>, c: char)
    requires
        port_of(text) is Some,
        !is_digit(c),
        c != '+',
    ensures
        free_of(text, c),
{
    let digits = unsigned_digits(text);
    assert forall|i: int| 0 <= i < text.len() implies text[i] != c by {
        if text[0] == '+' {
            if i > 0 {
                assert(digits[i - 1] == text[i]);
                assert(is_digit(digits[i - 1]));
            }
        } else {
            assert(is_digit(digits[i]));
        }
    }
}

/// A payload that is written as `cipher:password@server:port` is decoded to
/// the proxy with exactly these parts, where the cipher holds neither `:`
/// nor `@`, the password no `@`, the server is not empty and holds neither
/// `:` nor `@`, and the port writes a number of 16 bits.
pub proof fn law_shadowsocks_payload(
    cipher: Seq<char>,
    password: Seq<char>,
    server: Seq<char>,
    port_text: Seq<char>,
    name: Seq<char>,
)
    requires
        free_of(cipher, ':'),
        free_of(cipher, '@'),
        free_of(password, '@'),
        free_of(server, ':'),
        free_of(server, '@'),
        server.len() > 0,
        port_of(port_text) is Some,
    ensures
        shadowsocks_from(
            cipher + seq![':'] + password + seq!['@'] + server + seq![':'] + port_text,
            name,
        ) == Some(
            ProxyView::Shadowsocks(
                ShadowsocksView {
                    name,
                    server,
                    port: port_of(port_text)->0,
                    password,
                    cipher,
                    udp: Some(true),
                    network: None,
                    plugin: None,
                    plugin_opts: None,
                },
            ),
        ),
{
    let left = cipher + seq![':'] + password;
    let right = server + seq![':'] + port_text;
    let payload = cipher + seq![':'] + password + seq!['@'] + server + seq![':'] + port_text;
    assert(payload =~= left + seq!['@'] + right);
    lemma_port_text(port_text, '@');
    assert(free_of(left, '@'));
    assert(free_of(right, '@'));
    lemma_count_free(left, '@');
    lemma_count_free(right, '@');
    lemma_count_concat(left, seq!['@'], '@');
    lemma_count_concat(left + seq!['@'], right, '@');
    assert(seq!['@'].drop_last() =~= Seq::<char>::empty());
    assert(count_of(seq!['@'], '@') == 1) by {
        assert(count_of(Seq::<char>::empty(), '@') == 0);
        assert(seq!['@'].last() == '@');
    }
    lemma_split_after_free(left, right, '@');
    lemma_split_after_free(cipher, password, ':');
    lemma_split_after_free(server, port_text, ':');
}

/// For a template whose top mapping has neither `proxies` nor
/// `proxy-groups`, the merge appends both: the rendered proxies, and one
/// group with the names as its members.
pub proof fn law_merge_creates_both(
    entries: Seq<(NodeView, NodeView)>,
    proxies: Seq<NodeView>,
    names: Seq<Seq<char>>,
)
    requires
        entry_index(entries, "proxies"@) is None,
        entry_index(entries, "proxy-groups"@) is None,
    ensures
        merge_entries(entries, proxies, names) == entries.push(
            (NodeView::Text("proxies"@), NodeView::Sequence(proxies)),
        ).push((NodeView::Text("proxy-groups"@), NodeView::Sequence(seq![new_group(names)]))),
{
    reveal_strlit("proxies");
    reveal_strlit("proxy-groups");
    assert("proxies"@ != "proxy-groups"@) by {
        assert("proxies"@.len() != "proxy-groups"@.len());
    }
    let none = Seq::<NodeView>::empty();
    let a = ensure_sequence(entries, "proxies"@);
    let b = extend_entry(a, "proxies"@, proxies);
    let c = ensure_sequence(b, "proxy-groups"@);
    let d = merge_groups_entry(c, names);
    lemma_index_kept(entries, a, "proxies"@);
    assert(none + proxies =~= proxies);
    assert(b =~= entries.push((NodeView::Text("proxies"@), NodeView::Sequence(proxies))));
    lemma_index_kept(entries, b, "proxy-groups"@);
    lemma_index_kept(b, c, "proxy-groups"@);
    assert(first_where(none, |g: NodeView| is_target_group(g)) is None);
    assert(groups_with_names(none, names) =~= seq![new_group(names)]);
    assert(d =~= b.push(
        (NodeView::Text("proxy-groups"@), NodeView::Sequence(seq![new_group(names)])),
    ));
}

} // verus!
