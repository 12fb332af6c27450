//! The recursive-listing model.
//!
//! A listing works on a snapshot of the tree under one directory: one node
//! per filesystem object, with the children of every directory whose
//! contents could be read. Flattening inlines each directory's subtree right
//! after the directory's own entry, into one flat ordered sequence. An
//! unreadable directory keeps its own entry and contributes no children, so
//! one inaccessible entry never fails the whole listing.

use vstd::prelude::*;

use crate::models::{FileResponse, FileResponseView};

verus! {

/// A snapshot of one filesystem object.
#[derive(Debug)]
pub struct FsNode {
    pub info: FileResponse,
    /// For a directory: whether its contents could be read.
    pub readable: bool,
    pub children: Vec<FsNode>,
}

/// The mathematical value of an [`FsNode`].
pub struct FsNodeView {
    pub info: FileResponseView,
    pub readable: bool,
    pub children: Seq<FsNodeView>,
}

/// The mathematical value of one snapshot node.
pub open spec fn node_view(n: FsNode) -> FsNodeView
    decreases n,
{
    FsNodeView { info: n.info@, readable: n.readable, children: nodes_view(n.children@) }
}

/// The mathematical value of a sequence of sibling nodes.
pub open spec fn nodes_view(nodes: Seq<FsNode>) -> Seq<FsNodeView>
    decreases nodes,
{
    if nodes.len() == 0 {
        Seq::empty()
    } else {
        seq![node_view(nodes[0])] + nodes_view(nodes.drop_first())
    }
}

/// Views commute with indexing: the view of a node sequence is the sequence
/// of the nodes' views.
pub proof fn lemma_nodes_view_elts(nodes: Seq<FsNode>)
    ensures
        nodes_view(nodes).len() == nodes.len(),
        forall|i: int| 0 <= i < nodes.len() ==> nodes_view(nodes)[i] == node_view(nodes[i]),
    decreases nodes,
{
    if nodes.len() > 0 {
        lemma_nodes_view_elts(nodes.drop_first());
    }
}

/// The flat listing of one node: its own entry, then everything beneath it.
pub open spec fn spec_flatten_node(n: FsNodeView) -> Seq<FileResponseView>
    decreases n,
{
    seq![n.info] + if n.readable {
        spec_flatten(n.children)
    } else {
        Seq::empty()
    }
}

/// The flat listing of a sequence of sibling nodes, in order.
pub open spec fn spec_flatten(nodes: Seq<FsNodeView>) -> Seq<FileResponseView>
    decreases nodes,
{
    if nodes.len() == 0 {
        Seq::empty()
    } else {
        spec_flatten_node(nodes[0]) + spec_flatten(nodes.drop_first())
    }
}

/// Flattening distributes over concatenation of sibling sequences.
pub proof fn lemma_flatten_add(a: Seq<FsNodeView>, b: Seq<FsNodeView>)
    ensures
        spec_flatten(a + b) == spec_flatten(a) + spec_flatten(b),
    decreases a,
{
    if a.len() == 0 {
        assert(a + b =~= b);
        assert(spec_flatten(a) + spec_flatten(b) =~= spec_flatten(b));
    } else {
        assert((a + b).drop_first() =~= a.drop_first() + b);
        lemma_flatten_add(a.drop_first(), b);
        assert(spec_flatten_node((a + b)[0]) + (spec_flatten(a.drop_first()) + spec_flatten(b))
            =~= (spec_flatten_node(a[0]) + spec_flatten(a.drop_first())) + spec_flatten(b));
    }
}

/// The flat listing of a single node, as a sequence of siblings of one.
pub proof fn lemma_flatten_single(n: FsNodeView)
    ensures
        spec_flatten(seq![n]) == spec_flatten_node(n),
{
    assert(seq![n].drop_first().len() == 0);
    assert(spec_flatten(seq![n].drop_first()) =~= Seq::<FileResponseView>::empty());
    assert(spec_flatten(seq![n]) =~= spec_flatten_node(n));
}

/// Lists a directory snapshot recursively: each object contributes its own
/// entry, and a readable directory is followed by the flattened listing of
/// its contents.
pub fn list_directory_recursive(nodes: &Vec<FsNode>) -> (r: Vec<FileResponse>)
    ensures
        r.deep_view() == spec_flatten(nodes_view(nodes@)),
    decreases nodes,
{
    let mut out: Vec<FileResponse> = Vec::new();
    let mut i: usize = 0;
    proof {
        lemma_nodes_view_elts(nodes@);
        assert(nodes_view(nodes@).take(0) =~= nodes_view(nodes@.take(0)));
        assert(out.deep_view() =~= spec_flatten(nodes_view(nodes@).take(0)));
    }
    while i < nodes.len()
        invariant
            i <= nodes@.len(),
            out.deep_view() == spec_flatten(nodes_view(nodes@).take(i as int)),
        decreases nodes@.len() - i,
    {
        proof {
            lemma_nodes_view_elts(nodes@);
        }
        let ghost pre = nodes_view(nodes@).take(i as int);
        let node = &nodes[i];
        let info = node.info.clone();
        out.push(info);
        proof {
            assert(decreases_to!(nodes => node.children));
        }
        if node.readable {
            let mut sub = list_directory_recursive(&node.children);
            out.append(&mut sub);
        }
        i = i + 1;
        proof {
            let nv = nodes_view(nodes@);
            let cur = nv[i - 1];
            assert(cur == node_view(nodes@[i - 1]));
            assert(nv.take(i as int) =~= pre + seq![cur]);
            lemma_flatten_add(pre, seq![cur]);
            lemma_flatten_single(cur);
            assert(out.deep_view() =~= spec_flatten(nv.take(i as int)));
        }
    }
    proof {
        assert(nodes_view(nodes@).take(i as int) =~= nodes_view(nodes@));
    }
    out
}

/// Adding one file among a directory's children grows its flat listing by
/// exactly that file's entry: the entries of the earlier siblings keep
/// their places, the new entry appears between them and the entries of the
/// later siblings, and nothing else changes.
pub proof fn lemma_listing_add_file(nodes: Seq<FsNodeView>, i: int, f: FsNodeView)
    requires
        0 <= i <= nodes.len(),
        f.children.len() == 0,
    ensures
        spec_flatten(nodes.insert(i, f)) == spec_flatten(nodes.take(i)) + seq![f.info]
            + spec_flatten(nodes.skip(i)),
        spec_flatten(nodes) == spec_flatten(nodes.take(i)) + spec_flatten(nodes.skip(i)),
        spec_flatten(nodes.insert(i, f)).len() == spec_flatten(nodes).len() + 1,
{
    assert(nodes.insert(i, f) =~= nodes.take(i) + seq![f] + nodes.skip(i));
    lemma_flatten_add(nodes.take(i) + seq![f], nodes.skip(i));
    lemma_flatten_add(nodes.take(i), seq![f]);
    lemma_flatten_single(f);
    assert(spec_flatten_node(f) =~= seq![f.info]);
    assert(spec_flatten(nodes.insert(i, f)) =~= spec_flatten(nodes.take(i)) + seq![f.info]
        + spec_flatten(nodes.skip(i)));
    assert(nodes =~= nodes.take(i) + nodes.skip(i));
    lemma_flatten_add(nodes.take(i), nodes.skip(i));
}

/// Removing one file from among a directory's children shrinks its flat
/// listing by exactly that file's entry, leaving every other entry as it
/// was.
pub proof fn lemma_listing_remove_file(nodes: Seq<FsNodeView>, i: int)
    requires
        0 <= i < nodes.len(),
        nodes[i].children.len() == 0,
    ensures
        spec_flatten(nodes.remove(i)) == spec_flatten(nodes.take(i)) + spec_flatten(
            nodes.skip(i + 1),
        ),
        spec_flatten(nodes) == spec_flatten(nodes.take(i)) + seq![nodes[i].info] + spec_flatten(
            nodes.skip(i + 1),
        ),
        spec_flatten(nodes.remove(i)).len() + 1 == spec_flatten(nodes).len(),
{
    assert(nodes.remove(i) =~= nodes.take(i) + nodes.skip(i + 1));
    lemma_flatten_add(nodes.take(i), nodes.skip(i + 1));
    assert(nodes =~= nodes.take(i) + seq![nodes[i]] + nodes.skip(i + 1));
    lemma_flatten_add(nodes.take(i) + seq![nodes[i]], nodes.skip(i + 1));
    lemma_flatten_add(nodes.take(i), seq![nodes[i]]);
    lemma_flatten_single(nodes[i]);
    assert(spec_flatten_node(nodes[i]) =~= seq![nodes[i].info]);
}

} // verus!
