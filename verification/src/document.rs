//! The document model: what a YAML text holds, as plain values.

use vstd::prelude::*;

verus! {

/// One value of a document.
///
/// Tags carry no meaning for a configuration, so a tagged value counts as the
/// value it tags. A number that is no 64-bit integer is kept by its decimal
/// text.
#[derive(Debug, PartialEq, Eq)]
pub enum Node {
    Null,
    Bool(bool),
    /// An integer from 0 up.
    Unsigned(u64),
    /// An integer below 0.
    Negative(i64),
    /// A number that is no integer.
    Real(String),
    Text(String),
    Sequence(Vec<Node>),
    /// The entries of a mapping, key before value, in document order.
    Mapping(Vec<(Node, Node)>),
}

/// The mathematical value of a [`Node`].
pub enum NodeView {
    Null,
    Bool(bool),
    Unsigned(u64),
    Negative(i64),
    Real(Seq<char>),
    Text(Seq<char>),
    Sequence(Seq<NodeView>),
    Mapping(Seq<(NodeView, NodeView)>),
}

/// The mathematical value of `node`: the same tree, with every string and
/// vector replaced by its sequence.
pub open spec fn view_of(node: Node) -> NodeView
    decreases node,
{
    match node {
        Node::Null => NodeView::Null,
        Node::Bool(b) => NodeView::Bool(b),
        Node::Unsigned(n) => NodeView::Unsigned(n),
        Node::Negative(n) => NodeView::Negative(n),
        Node::Real(digits) => NodeView::Real(digits@),
        Node::Text(text) => NodeView::Text(text@),
        Node::Sequence(items) => NodeView::Sequence(
            Seq::new(
                items@.len(),
                |i: int|
                    if 0 <= i < items@.len() {
                        view_of(items@[i])
                    } else {
                        NodeView::Null
                    },
            ),
        ),
        Node::Mapping(entries) => NodeView::Mapping(
            Seq::new(
                entries@.len(),
                |i: int|
                    if 0 <= i < entries@.len() {
                        (view_of(entries@[i].0), view_of(entries@[i].1))
                    } else {
                        (NodeView::Null, NodeView::Null)
                    },
            ),
        ),
    }
}

impl View for Node {
    type V = NodeView;

    open spec fn view(&self) -> NodeView {
        view_of(*self)
    }
}

/// The entries of a mapping, each key and value by its view.
pub open spec fn entries_view(entries: Seq<(Node, Node)>) -> Seq<(NodeView, NodeView)> {
    Seq::new(entries.len(), |i: int| (entries[i].0@, entries[i].1@))
}

/// The items of a sequence, each by its view.
pub open spec fn items_view(items: Seq<Node>) -> Seq<NodeView> {
    Seq::new(items.len(), |i: int| items[i]@)
}

/// The view of a mapping is the mapping of the entries' views.
pub proof fn lemma_mapping_view(entries: Vec<(Node, Node)>)
    ensures
        Node::Mapping(entries)@ == NodeView::Mapping(entries_view(entries@)),
{
    reveal_with_fuel(view_of, 2);
    assert(Node::Mapping(entries)@->Mapping_0 =~= entries_view(entries@));
}

/// The view of a sequence is the sequence of the items' views.
pub proof fn lemma_sequence_view(items: Vec<Node>)
    ensures
        Node::Sequence(items)@ == NodeView::Sequence(items_view(items@)),
{
    reveal_with_fuel(view_of, 2);
    assert(Node::Sequence(items)@->Sequence_0 =~= items_view(items@));
}

} // verus!
