use vstd::prelude::*;
use crate::node::{Building, Group, Node, node_at, trimmed};

verus! {

/// Messages which can be sent to a node. All of them are meant for groups.
#[derive(Debug)]
pub enum NodeMsg {
    /// Replace the child at the given index with the specified node.
    ReplaceChild { idx: usize, replacement: Node },
    /// Delete the child at the specified index.
    DeleteChild { idx: usize },
    /// Add the given node as a child at the end of the list.
    AddChild { child: Node },
    /// Rename this node.
    Rename { name: String },
}

/// Why an edit was dropped.
#[derive(Debug, Clone, Copy, PartialEq, Eq)]
pub enum EditError {
    /// The message needs a group, and the node is a building.
    NotAGroup,
    /// The child index is not below the group's number of children.
    IndexOutOfRange,
}

/// The editor for one node of the tree. It owns no tree state: each message
/// is resolved against the node it is given.
#[derive(Debug)]
pub struct NodeDisplay {}

/// The index a node occupies in its parent: the last index of its path, or 0
/// at the root.
pub open spec fn own_index(path: Seq<usize>) -> usize {
    if path.len() == 0 {
        0
    } else {
        path.last()
    }
}

/// `r` is a group named `name` whose children are `children`.
pub open spec fn group_with(r: Node, name: Seq<char>, children: Seq<Node>) -> bool {
    &&& r is Group
    &&& r->Group_0.name@ == name
    &&& r->Group_0.children@ == children
}

/// What handling `msg` at `node` gives: the new node, or why it was dropped.
pub open spec fn edited(node: Node, msg: NodeMsg, r: Result<Node, EditError>) -> bool {
    match node {
        Node::Building(_) => r == Err::<Node, EditError>(EditError::NotAGroup),
        Node::Group(g) => match msg {
            NodeMsg::ReplaceChild { idx, replacement } => if idx < g.children@.len() {
                r is Ok && group_with(
                    r->Ok_0,
                    g.name@,
                    g.children@.update(idx as int, replacement),
                )
            } else {
                r == Err::<Node, EditError>(EditError::IndexOutOfRange)
            },
            NodeMsg::DeleteChild { idx } => if idx < g.children@.len() {
                r is Ok && group_with(r->Ok_0, g.name@, g.children@.remove(idx as int))
            } else {
                r == Err::<Node, EditError>(EditError::IndexOutOfRange)
            },
            NodeMsg::AddChild { child } => r is Ok && group_with(
                r->Ok_0,
                g.name@,
                g.children@.push(child),
            ),
            NodeMsg::Rename { name } => r is Ok && group_with(
                r->Ok_0,
                trimmed(name@),
                g.children@,
            ),
        },
    }
}

/// What handling `msg` at the node that `path` reaches from `node` gives, once
/// each group on the way has put the new child in place of the old one.
pub open spec fn edited_at(node: Node, path: Seq<usize>, msg: NodeMsg, r: Result<Node, EditError>) -> bool
    decreases path.len(),
{
    if path.len() == 0 {
        edited(node, msg, r)
    } else {
        match node {
            Node::Building(_) => r == Err::<Node, EditError>(EditError::NotAGroup),
            Node::Group(g) => if path[0] < g.children@.len() {
                let c = g.children@[path[0] as int];
                match r {
                    Ok(n) => {
                        &&& n is Group
                        &&& n->Group_0.children@.len() == g.children@.len()
                        &&& group_with(
                            n,
                            g.name@,
                            g.children@.update(path[0] as int, n->Group_0.children@[path[0] as int]),
                        )
                        &&& edited_at(
                            c,
                            path.drop_first(),
                            msg,
                            Ok(n->Group_0.children@[path[0] as int]),
                        )
                    },
                    Err(e) => edited_at(c, path.drop_first(), msg, Err(e)),
                }
            } else {
                r == Err::<Node, EditError>(EditError::IndexOutOfRange)
            },
        }
    }
}

/// An edit addressed by a path changes the node at that path, and the new
/// root holds the edited node at the same path.
pub proof fn lemma_edit_lands_at_path(root: Node, path: Seq<usize>, msg: NodeMsg, n: Node)
    requires
        edited_at(root, path, msg, Ok(n)),
    ensures
        node_at(root, path) is Some,
        node_at(n, path) is Some,
        edited(node_at(root, path)->Some_0, msg, Ok(node_at(n, path)->Some_0)),
    decreases path.len(),
{
    if path.len() > 0 {
        let i = path[0] as int;
        lemma_edit_lands_at_path(
            root->Group_0.children@[i],
            path.drop_first(),
            msg,
            n->Group_0.children@[i],
        );
    }
}

impl NodeDisplay {
    /// Handles `msg` at `node`, which sits at `path`. On success the result is
    /// what the parent is asked to put at this node's own index.
    pub fn update(node: Node, path: &Vec<usize>, msg: NodeMsg) -> (r: Result<(usize, Node), EditError>)
        ensures
            match r {
                Ok((i, n)) => i == own_index(path@) && edited(node, msg, Ok(n)),
                Err(e) => edited(node, msg, Err(e)),
            },
    {
        let our_idx = own_index_of(path);
        match handle(node, msg) {
            Ok(n) => Ok((our_idx, n)),
            Err(e) => Err(e),
        }
    }

    /// The tree owner's side of an edit: handles `msg` at the node that `path`
    /// reaches from `root`, and passes each new node up as a replacement for
    /// its old self until the root is reached. The result is the new root.
    pub fn apply_at(root: Node, path: &Vec<usize>, msg: NodeMsg) -> (r: Result<Node, EditError>)
        ensures
            edited_at(root, path@, msg, r),
    {
        assert(path@.subrange(0, path@.len() as int) =~= path@);
        edit_below(root, path, 0, msg)
    }
}

/// The index a node at `path` occupies in its parent.
pub fn own_index_of(path: &Vec<usize>) -> (r: usize)
    ensures
        r == own_index(path@),
{
    if path.len() == 0 {
        0
    } else {
        path[path.len() - 1]
    }
}

/// The path of child `i` of the node at `path`.
pub fn child_path(path: &Vec<usize>, i: usize) -> (r: Vec<usize>)
    ensures
        r@ == path@.push(i),
{
    let mut r: Vec<usize> = Vec::new();
    let mut k: usize = 0;
    while k < path.len()
        invariant
            k <= path@.len(),
            r@ == path@.subrange(0, k as int),
        decreases path@.len() - k,
    {
        r.push(path[k]);
        k = k + 1;
    }
    r.push(i);
    r
}

/// The index that a delete request for the node at `path` names: none at the
/// root, which cannot be deleted.
pub fn delete_index(path: &Vec<usize>) -> (r: Option<usize>)
    ensures
        path@.len() == 0 ==> r is None,
        path@.len() > 0 ==> r == Some(path@.last()),
{
    if path.len() == 0 {
        None
    } else {
        Some(path[path.len() - 1])
    }
}

fn handle(node: Node, msg: NodeMsg) -> (r: Result<Node, EditError>)
    ensures
        edited(node, msg, r),
{
    match node {
        Node::Building(_) => Err(EditError::NotAGroup),
        Node::Group(g) => match msg {
            NodeMsg::ReplaceChild { idx, replacement } => {
                if idx < g.children.len() {
                    Ok(Node::Group(g.with_child_replaced(idx, replacement)))
                } else {
                    Err(EditError::IndexOutOfRange)
                }
            },
            NodeMsg::DeleteChild { idx } => {
                if idx < g.children.len() {
                    Ok(Node::Group(g.with_child_removed(idx)))
                } else {
                    Err(EditError::IndexOutOfRange)
                }
            },
            NodeMsg::AddChild { child } => Ok(Node::Group(g.with_child_appended(child))),
            NodeMsg::Rename { name } => Ok(Node::Group(g.with_renamed(name.as_str()))),
        },
    }
}

fn edit_below(node: Node, path: &Vec<usize>, depth: usize, msg: NodeMsg) -> (r: Result<Node, EditError>)
    requires
        depth <= path@.len(),
    ensures
        edited_at(node, path@.subrange(depth as int, path@.len() as int), msg, r),
    decreases path@.len() - depth,
{
    let ghost rest = path@.subrange(depth as int, path@.len() as int);
    if depth == path.len() {
        assert(rest.len() == 0);
        return handle(node, msg);
    }
    assert(rest.drop_first() =~= path@.subrange(depth + 1, path@.len() as int));
    match node {
        Node::Building(_) => Err(EditError::NotAGroup),
        Node::Group(g) => {
            let i = path[depth];
            if i >= g.children.len() {
                return Err(EditError::IndexOutOfRange);
            }
            let ghost old_children = g.children@;
            let Group { name, mut children } = g;
            let child = children.remove(i);
            children.insert(i, Building::empty_node());
            let parent = Node::Group(Group { name, children });
            match edit_below(child, path, depth + 1, msg) {
                Ok(c) => {
                    let ghost new_child = c;
                    let r = handle(parent, NodeMsg::ReplaceChild { idx: i, replacement: c });
                    proof {
                        let n = r->Ok_0;
                        assert(n->Group_0.children@ =~= old_children.update(i as int, new_child));
                    }
                    r
                },
                Err(e) => Err(e),
            }
        },
    }
}

} // verus!
