//! The document tree: mappings, sequences and scalars, as a configuration
//! file holds them.

use vstd::prelude::*;

verus! {

/// `serde_yaml::Number`, as a type that nothing is known of.
#[verifier::external_type_specification]
#[verifier::external_body]
pub struct ExYamlNumber(serde_yaml::Number);

/// `serde_yaml::value::Tag`, as a type that nothing is known of.
#[verifier::external_type_specification]
#[verifier::external_body]
pub struct ExYamlTag(serde_yaml::value::Tag);

/// A node of a document. A mapping holds its entries in document order. An
/// integer from 0 up is `Unsigned` and a negative one `Signed`; a number that
/// is no integer of 64 bits, and the tag of a tagged node, are carried as the
/// parser made them.
#[derive(Debug, PartialEq)]
pub enum Node {
    Null,
    Bool(bool),
    Unsigned(u64),
    Signed(i64),
    Real(serde_yaml::Number),
    Text(String),
    Sequence(Vec<Node>),
    Mapping(Vec<(Node, Node)>),
    Tagged(serde_yaml::value::Tag, Box<Node>),
}

pub ghost enum NodeView {
    Null,
    Bool(bool),
    Unsigned(u64),
    Signed(i64),
    Real(serde_yaml::Number),
    Text(Seq<char>),
    Sequence(Seq<NodeView>),
    Mapping(Seq<(NodeView, NodeView)>),
    Tagged(serde_yaml::value::Tag, Box<NodeView>),
}

/// The tree that `n` holds.
pub open spec fn node_view(n: Node) -> NodeView
    decreases n,
{
    match n {
        Node::Null => NodeView::Null,
        Node::Bool(b) => NodeView::Bool(b),
        Node::Unsigned(k) => NodeView::Unsigned(k),
        Node::Signed(k) => NodeView::Signed(k),
        Node::Real(k) => NodeView::Real(k),
        Node::Text(s) => NodeView::Text(s@),
        Node::Sequence(items) => NodeView::Sequence(
            Seq::new(
                items.len() as nat,
                |i: int|
                    if 0 <= i < items.len() {
                        node_view(items[i])
                    } else {
                        NodeView::Null
                    },
            ),
        ),
        Node::Mapping(entries) => NodeView::Mapping(
            Seq::new(
                entries.len() as nat,
                |i: int|
                    if 0 <= i < entries.len() {
                        (node_view(entries[i].0), node_view(entries[i].1))
                    } else {
                        (NodeView::Null, NodeView::Null)
                    },
            ),
        ),
        Node::Tagged(tag, inner) => NodeView::Tagged(tag, Box::new(node_view(*inner))),
    }
}

impl DeepView for Node {
    type V = NodeView;

    open spec fn deep_view(&self) -> NodeView {
        node_view(*self)
    }
}

/// The trees that the nodes of `s` hold.
pub open spec fn nodes_view(s: Seq<Node>) -> Seq<NodeView> {
    Seq::new(s.len(), |i: int| node_view(s[i]))
}

/// The pairs of trees that the entries of `s` hold.
pub open spec fn entries_view(s: Seq<(Node, Node)>) -> Seq<(NodeView, NodeView)> {
    Seq::new(s.len(), |i: int| (node_view(s[i].0), node_view(s[i].1)))
}

pub proof fn lemma_sequence_view(items: Vec<Node>)
    ensures
        node_view(Node::Sequence(items)) == NodeView::Sequence(nodes_view(items@)),
{
    assert(node_view(Node::Sequence(items))->Sequence_0 =~= nodes_view(items@));
}

pub proof fn lemma_mapping_view(entries: Vec<(Node, Node)>)
    ensures
        node_view(Node::Mapping(entries)) == NodeView::Mapping(entries_view(entries@)),
{
    assert(node_view(Node::Mapping(entries))->Mapping_0 =~= entries_view(entries@));
}

/// The index of the first element of `s` of which `p` holds.
pub open spec fn first_where<A>(s: Seq<A>, p: spec_fn(A) -> bool) -> Option<int>
    decreases s.len(),
{
    if s.len() == 0 {
        None
    } else if p(s[0]) {
        Some(0)
    } else {
        match first_where(s.skip(1), p) {
            Some(i) => Some(i + 1),
            None => None,
        }
    }
}

pub proof fn lemma_first_where<A>(s: Seq<A>, p: spec_fn(A) -> bool)
    ensures
        match first_where(s, p) {
            Some(i) => 0 <= i < s.len() && p(s[i]) && forall|j: int| 0 <= j < i ==> !p(#[trigger] s[j]),
            None => forall|j: int| 0 <= j < s.len() ==> !p(#[trigger] s[j]),
        },
    decreases s.len(),
{
    if s.len() > 0 && !p(s[0]) {
        lemma_first_where(s.skip(1), p);
        match first_where(s.skip(1), p) {
            Some(i) => {
                assert forall|j: int| 0 <= j < i + 1 implies !p(#[trigger] s[j]) by {
                    if j > 0 {
                        assert(s.skip(1)[j - 1] == s[j]);
                    }
                }
            },
            None => {
                assert forall|j: int| 0 <= j < s.len() implies !p(#[trigger] s[j]) by {
                    if j > 0 {
                        assert(s.skip(1)[j - 1] == s[j]);
                    }
                }
            },
        }
    }
}

impl NodeView {
    /// The node under the tags of this one.
    pub open spec fn untagged(self) -> NodeView
        decreases self,
    {
        match self {
            NodeView::Tagged(_, inner) => inner.untagged(),
            _ => self,
        }
    }

    /// Whether the node is null under its tags.
    pub open spec fn is_null(self) -> bool {
        self.untagged() is Null
    }

    /// The text of a node that is a string under its tags.
    pub open spec fn as_text(self) -> Option<Seq<char>> {
        match self.untagged() {
            NodeView::Text(s) => Some(s),
            _ => None,
        }
    }

    /// What a node that is a mapping under its tags holds under the string
    /// key `key`.
    pub open spec fn get(self, key: Seq<char>) -> Option<NodeView> {
        match self.untagged() {
            NodeView::Mapping(entries) => match entry_index(entries, key) {
                Some(i) => Some(entries[i].1),
                None => None,
            },
            _ => None,
        }
    }
}

/// The index of the entry of a mapping whose key is the string `key`.
pub open spec fn entry_index(entries: Seq<(NodeView, NodeView)>, key: Seq<char>) -> Option<int> {
    first_where(entries, |e: (NodeView, NodeView)| e.0 == NodeView::Text(key))
}

/// The entries of a mapping after `value` has been put under the string key
/// `key`: in the place of the value that stood there, or else at the end.
pub open spec fn put_entry(
    entries: Seq<(NodeView, NodeView)>,
    key: Seq<char>,
    value: NodeView,
) -> Seq<(NodeView, NodeView)> {
    match entry_index(entries, key) {
        Some(i) => entries.update(i, (entries[i].0, value)),
        None => entries.push((NodeView::Text(key), value)),
    }
}

/// The node under the tags of `n`.
pub fn untagged(n: &Node) -> (r: &Node)
    ensures
        node_view(*r) == node_view(*n).untagged(),
        !(*r is Tagged),
    decreases n,
{
    match n {
        Node::Tagged(_, inner) => untagged(inner),
        _ => n,
    }
}

/// The index of the entry whose key is the string `key`.
pub fn find_entry(entries: &Vec<(Node, Node)>, key: &str) -> (r: Option<usize>)
    ensures
        match r {
            Some(i) => entry_index(entries_view(entries@), key@) == Some(i as int) && i
                < entries.len(),
            None => entry_index(entries_view(entries@), key@) is None,
        },
{
    let ghost p = |e: (NodeView, NodeView)| e.0 == NodeView::Text(key@);
    let mut i: usize = 0;
    while i < entries.len()
        invariant
            i <= entries.len(),
            p == |e: (NodeView, NodeView)| e.0 == NodeView::Text(key@),
            forall|j: int| 0 <= j < i ==> !p(#[trigger] entries_view(entries@)[j]),
        decreases entries.len() - i,
    {
        let found = match &entries[i].0 {
            Node::Text(s) => crate::text::same_text(s.as_str(), key),
            _ => false,
        };
        if found {
            proof {
                lemma_first_where(entries_view(entries@), p);
                assert(p(entries_view(entries@)[i as int]));
            }
            return Some(i);
        }
        assert(!p(entries_view(entries@)[i as int]));
        i += 1;
    }
    proof {
        lemma_first_where(entries_view(entries@), p);
    }
    None
}

} // verus!
