//! Merging rendered proxies into a template document. The merge only adds:
//! it appends to the template's `proxies` and to the member list of the
//! group named `PROXY`, which it creates where the template has none.

use crate::document::{
    entries_view, entry_index, find_entry, first_where, lemma_first_where, lemma_mapping_view,
    lemma_sequence_view,
    node_view, nodes_view, put_entry, untagged, Node, NodeView,
};
use vstd::prelude::*;

verus! {

/// The text nodes of the names, in order.
pub open spec fn name_nodes(names: Seq<Seq<char>>) -> Seq<NodeView> {
    Seq::new(names.len(), |i: int| NodeView::Text(names[i]))
}

/// The entries after an empty sequence has been put under `key` where the
/// key is missing or holds null.
pub open spec fn ensure_sequence(entries: Seq<(NodeView, NodeView)>, key: Seq<char>) -> Seq<
    (NodeView, NodeView),
> {
    match entry_index(entries, key) {
        Some(i) => if entries[i].1.is_null() {
            put_entry(entries, key, NodeView::Sequence(Seq::empty()))
        } else {
            entries
        },
        None => put_entry(entries, key, NodeView::Sequence(Seq::empty())),
    }
}

/// `value` with `items` appended, where it is a sequence under its tags;
/// `value` itself where it is not.
pub open spec fn extend_sequence(value: NodeView, items: Seq<NodeView>) -> NodeView
    decreases value,
{
    match value {
        NodeView::Tagged(tag, inner) => NodeView::Tagged(
            tag,
            Box::new(extend_sequence(*inner, items)),
        ),
        NodeView::Sequence(s) => NodeView::Sequence(s + items),
        _ => value,
    }
}

/// The entries after `items` have been appended to the sequence under `key`.
pub open spec fn extend_entry(
    entries: Seq<(NodeView, NodeView)>,
    key: Seq<char>,
    items: Seq<NodeView>,
) -> Seq<(NodeView, NodeView)> {
    match entry_index(entries, key) {
        Some(i) => entries.update(i, (entries[i].0, extend_sequence(entries[i].1, items))),
        None => entries,
    }
}

/// Whether a group is the one that the merge adds the names to: a mapping
/// whose `name` is the string `PROXY`.
pub open spec fn is_target_group(group: NodeView) -> bool {
    match group.get("name"@) {
        Some(name) => name.as_text() == Some("PROXY"@),
        None => false,
    }
}

/// The index of the first target group.
pub open spec fn target_index(groups: Seq<NodeView>) -> Option<int> {
    first_where(groups, |g: NodeView| is_target_group(g))
}

/// The entries of a group after the names have joined its members: at the
/// end of its `proxies` where that is a sequence, else as a new `proxies`.
pub open spec fn group_entries_with_names(
    entries: Seq<(NodeView, NodeView)>,
    names: Seq<Seq<char>>,
) -> Seq<(NodeView, NodeView)> {
    match entry_index(entries, "proxies"@) {
        Some(i) => if entries[i].1.untagged() is Sequence {
            extend_entry(entries, "proxies"@, name_nodes(names))
        } else {
            put_entry(entries, "proxies"@, NodeView::Sequence(name_nodes(names)))
        },
        None => put_entry(entries, "proxies"@, NodeView::Sequence(name_nodes(names))),
    }
}

/// A group after the names have joined its members.
pub open spec fn group_with_names(group: NodeView, names: Seq<Seq<char>>) -> NodeView
    decreases group,
{
    match group {
        NodeView::Tagged(tag, inner) => NodeView::Tagged(
            tag,
            Box::new(group_with_names(*inner, names)),
        ),
        NodeView::Mapping(entries) => NodeView::Mapping(group_entries_with_names(entries, names)),
        _ => group,
    }
}

/// The group that the merge creates: named `PROXY`, of type `select`, with
/// the names as its members.
pub open spec fn new_group(names: Seq<Seq<char>>) -> NodeView {
    NodeView::Mapping(
        seq![
            (NodeView::Text("name"@), NodeView::Text("PROXY"@)),
            (NodeView::Text("type"@), NodeView::Text("select"@)),
            (NodeView::Text("proxies"@), NodeView::Sequence(name_nodes(names))),
        ],
    )
}

/// The groups after the names have joined the first target group, or after
/// a new group with the names has been appended where there is none.
pub open spec fn groups_with_names(groups: Seq<NodeView>, names: Seq<Seq<char>>) -> Seq<NodeView> {
    match target_index(groups) {
        Some(i) => groups.update(i, group_with_names(groups[i], names)),
        None => groups.push(new_group(names)),
    }
}

/// The value under `proxy-groups` after the merge: changed where it is a
/// sequence under its tags, itself where it is not.
pub open spec fn merge_groups(value: NodeView, names: Seq<Seq<char>>) -> NodeView
    decreases value,
{
    match value {
        NodeView::Tagged(tag, inner) => NodeView::Tagged(
            tag,
            Box::new(merge_groups(*inner, names)),
        ),
        NodeView::Sequence(groups) => NodeView::Sequence(groups_with_names(groups, names)),
        _ => value,
    }
}

/// The entries after the value under `proxy-groups` has been merged.
pub open spec fn merge_groups_entry(entries: Seq<(NodeView, NodeView)>, names: Seq<Seq<char>>) -> Seq<
    (NodeView, NodeView),
> {
    match entry_index(entries, "proxy-groups"@) {
        Some(i) => entries.update(i, (entries[i].0, merge_groups(entries[i].1, names))),
        None => entries,
    }
}

/// The entries of the template's top mapping after the merge.
pub open spec fn merge_entries(
    entries: Seq<(NodeView, NodeView)>,
    proxies: Seq<NodeView>,
    names: Seq<Seq<char>>,
) -> Seq<(NodeView, NodeView)> {
    let with_proxies = extend_entry(ensure_sequence(entries, "proxies"@), "proxies"@, proxies);
    merge_groups_entry(ensure_sequence(with_proxies, "proxy-groups"@), names)
}

/// The template after the merge: changed where it is a mapping under its
/// tags, itself where it is not.
pub open spec fn merge_template(doc: NodeView, proxies: Seq<NodeView>, names: Seq<Seq<char>>) -> NodeView
    decreases doc,
{
    match doc {
        NodeView::Tagged(tag, inner) => NodeView::Tagged(
            tag,
            Box::new(merge_template(*inner, proxies, names)),
        ),
        NodeView::Mapping(entries) => NodeView::Mapping(merge_entries(entries, proxies, names)),
        _ => doc,
    }
}

/// Puts `value` under the string key `key`: in the place of the value that
/// stood there, or else at the end.
pub fn put(entries: &mut Vec<(Node, Node)>, key: &str, value: Node)
    ensures
        entries_view(final(entries)@) == put_entry(
            entries_view(old(entries)@),
            key@,
            node_view(value),
        ),
{
    match find_entry(entries, key) {
        Some(i) => {
            let (k, _) = entries.remove(i);
            entries.insert(i, (k, value));
            assert(entries_view(entries@) =~= put_entry(
                entries_view(old(entries)@),
                key@,
                node_view(value),
            ));
        },
        None => {
            entries.push((Node::Text(key.to_owned()), value));
            assert(entries_view(entries@) =~= put_entry(
                entries_view(old(entries)@),
                key@,
                node_view(value),
            ));
        },
    }
}

/// Puts an empty sequence under `key` where the key is missing or holds null.
pub fn ensure_sequence_at(entries: &mut Vec<(Node, Node)>, key: &str)
    ensures
        entries_view(final(entries)@) == ensure_sequence(entries_view(old(entries)@), key@),
{
    let absent = match find_entry(entries, key) {
        Some(i) => {
            let under = untagged(&entries[i].1);
            matches!(under, Node::Null)
        },
        None => true,
    };
    if absent {
        let empty: Vec<Node> = Vec::new();
        proof {
            lemma_sequence_view(empty);
            assert(nodes_view(empty@) =~= Seq::<NodeView>::empty());
        }
        put(entries, key, Node::Sequence(empty));
    }
}

/// Appends `items` to `value` where it is a sequence under its tags.
pub fn extend(value: Node, items: Vec<Node>) -> (r: Node)
    ensures
        node_view(r) == extend_sequence(node_view(value), nodes_view(items@)),
    decreases value,
{
    match value {
        Node::Tagged(tag, inner) => Node::Tagged(tag, Box::new(extend(*inner, items))),
        Node::Sequence(mut s) => {
            let mut items = items;
            let ghost before = s;
            let ghost added = items;
            s.append(&mut items);
            proof {
                lemma_sequence_view(before);
                lemma_sequence_view(s);
                assert(nodes_view(s@) =~= nodes_view(before@) + nodes_view(added@));
            }
            Node::Sequence(s)
        },
        other => other,
    }
}

/// Appends `items` to the sequence under `key`.
pub fn extend_at(entries: &mut Vec<(Node, Node)>, key: &str, items: Vec<Node>)
    ensures
        entries_view(final(entries)@) == extend_entry(
            entries_view(old(entries)@),
            key@,
            nodes_view(items@),
        ),
{
    match find_entry(entries, key) {
        Some(i) => {
            let (k, v) = entries.remove(i);
            let grown = extend(v, items);
            entries.insert(i, (k, grown));
            assert(entries_view(entries@) =~= extend_entry(
                entries_view(old(entries)@),
                key@,
                nodes_view(items@),
            ));
        },
        None => {},
    }
}

/// A text node for each name, in order.
pub fn text_nodes(names: &Vec<String>) -> (r: Vec<Node>)
    ensures
        nodes_view(r@) == name_nodes(names.deep_view()),
{
    let mut r: Vec<Node> = Vec::new();
    let mut i: usize = 0;
    while i < names.len()
        invariant
            i <= names.len(),
            r.len() == i,
            forall|j: int| 0 <= j < i ==> node_view(#[trigger] r@[j]) == NodeView::Text(names@[j]@),
        decreases names.len() - i,
    {
        r.push(Node::Text(names[i].clone()));
        i += 1;
    }
    assert(nodes_view(r@) =~= name_nodes(names.deep_view()));
    r
}

/// Whether `group` is a mapping whose `name` is the string `PROXY`.
pub fn targets(group: &Node) -> (r: bool)
    ensures
        r == is_target_group(node_view(*group)),
{
    match untagged(group) {
        Node::Mapping(entries) => {
            proof {
                lemma_mapping_view(*entries);
            }
            match find_entry(entries, "name") {
                Some(i) => match untagged(&entries[i].1) {
                    Node::Text(s) => crate::text::same_text(s.as_str(), "PROXY"),
                    _ => false,
                },
                None => false,
            }
        },
        _ => false,
    }
}

/// The index of the first target group.
pub fn find_target(groups: &Vec<Node>) -> (r: Option<usize>)
    ensures
        match r {
            Some(i) => target_index(nodes_view(groups@)) == Some(i as int) && i < groups.len(),
            None => target_index(nodes_view(groups@)) is None,
        },
{
    let ghost p = |g: NodeView| is_target_group(g);
    let mut i: usize = 0;
    while i < groups.len()
        invariant
            i <= groups.len(),
            p == |g: NodeView| is_target_group(g),
            forall|j: int| 0 <= j < i ==> !p(#[trigger] nodes_view(groups@)[j]),
        decreases groups.len() - i,
    {
        if targets(&groups[i]) {
            proof {
                lemma_first_where(nodes_view(groups@), p);
                assert(p(nodes_view(groups@)[i as int]));
            }
            return Some(i);
        }
        assert(!p(nodes_view(groups@)[i as int]));
        i += 1;
    }
    proof {
        lemma_first_where(nodes_view(groups@), p);
    }
    None
}

/// Adds the names to the members of a group.
pub fn add_names(group: Node, names: &Vec<String>) -> (r: Node)
    ensures
        node_view(r) == group_with_names(node_view(group), names.deep_view()),
    decreases group,
{
    match group {
        Node::Tagged(tag, inner) => Node::Tagged(tag, Box::new(add_names(*inner, names))),
        Node::Mapping(mut entries) => {
            let ghost before = entries;
            let members = text_nodes(names);
            let has_list = match find_entry(&entries, "proxies") {
                Some(i) => matches!(untagged(&entries[i].1), Node::Sequence(_)),
                None => false,
            };
            if has_list {
                extend_at(&mut entries, "proxies", members);
            } else {
                proof {
                    lemma_sequence_view(members);
                }
                put(&mut entries, "proxies", Node::Sequence(members));
            }
            proof {
                lemma_mapping_view(before);
                lemma_mapping_view(entries);
            }
            Node::Mapping(entries)
        },
        other => other,
    }
}

/// The group named `PROXY`, of type `select`, with the names as its members.
pub fn make_group(names: &Vec<String>) -> (r: Node)
    ensures
        node_view(r) == new_group(names.deep_view()),
{
    let members = text_nodes(names);
    let mut entries: Vec<(Node, Node)> = Vec::new();
    entries.push((Node::Text("name".to_owned()), Node::Text("PROXY".to_owned())));
    entries.push((Node::Text("type".to_owned()), Node::Text("select".to_owned())));
    entries.push((Node::Text("proxies".to_owned()), Node::Sequence(members)));
    proof {
        lemma_sequence_view(members);
        lemma_mapping_view(entries);
        assert(entries_view(entries@) =~= new_group(names.deep_view())->Mapping_0);
    }
    Node::Mapping(entries)
}

/// Merges the names into the value under `proxy-groups`.
pub fn merge_into_groups(value: Node, names: &Vec<String>) -> (r: Node)
    ensures
        node_view(r) == merge_groups(node_view(value), names.deep_view()),
    decreases value,
{
    match value {
        Node::Tagged(tag, inner) => Node::Tagged(tag, Box::new(merge_into_groups(*inner, names))),
        Node::Sequence(mut groups) => {
            let ghost before = groups;
            match find_target(&groups) {
                Some(i) => {
                    let group = groups.remove(i);
                    let grown = add_names(group, names);
                    groups.insert(i, grown);
                },
                None => {
                    groups.push(make_group(names));
                },
            }
            proof {
                lemma_sequence_view(before);
                lemma_sequence_view(groups);
                assert(nodes_view(groups@) =~= groups_with_names(
                    nodes_view(before@),
                    names.deep_view(),
                ));
            }
            Node::Sequence(groups)
        },
        other => other,
    }
}

/// Merges the names into the value under `proxy-groups` of the entries.
pub fn merge_groups_at(entries: &mut Vec<(Node, Node)>, names: &Vec<String>)
    ensures
        entries_view(final(entries)@) == merge_groups_entry(
            entries_view(old(entries)@),
            names.deep_view(),
        ),
{
    match find_entry(entries, "proxy-groups") {
        Some(i) => {
            let (k, v) = entries.remove(i);
            let merged = merge_into_groups(v, names);
            entries.insert(i, (k, merged));
            assert(entries_view(entries@) =~= merge_groups_entry(
                entries_view(old(entries)@),
                names.deep_view(),
            ));
        },
        None => {},
    }
}

/// Merges rendered proxies and their names into a template document.
pub fn merge(doc: Node, proxies: Vec<Node>, names: &Vec<String>) -> (r: Node)
    ensures
        node_view(r) == merge_template(node_view(doc), nodes_view(proxies@), names.deep_view()),
    decreases doc,
{
    match doc {
        Node::Tagged(tag, inner) => Node::Tagged(tag, Box::new(merge(*inner, proxies, names))),
        Node::Mapping(mut entries) => {
            let ghost before = entries;
            ensure_sequence_at(&mut entries, "proxies");
            extend_at(&mut entries, "proxies", proxies);
            ensure_sequence_at(&mut entries, "proxy-groups");
            merge_groups_at(&mut entries, names);
            proof {
                lemma_mapping_view(before);
                lemma_mapping_view(entries);
            }
            Node::Mapping(entries)
        },
        other => other,
    }
}

} // verus!
