use vstd::prelude::*;

verus! {

/// A leaf production unit. The editor treats it as opaque: all it needs to
/// know is that a building has no children.
#[derive(Debug)]
pub struct Building {}

/// A named container whose children are kept in display order.
#[derive(Debug)]
pub struct Group {
    pub name: String,
    pub children: Vec<Node>,
}

/// A node of the accounting tree: either a container or a leaf.
#[derive(Debug)]
pub enum Node {
    Group(Group),
    Building(Building),
}

/// What `str::trim` leaves of `s`.
pub uninterp spec fn trimmed(s: Seq<char>) -> Seq<char>;

/// Relies on `str::trim`, which removes leading and trailing whitespace:
/// what is left is a contiguous part of the input.
#[verifier::external_body]
fn trim_str(s: &str) -> (r: String)
    ensures
        r@ == trimmed(s@),
        r@.len() <= s@.len(),
        exists|i: int| 0 <= i <= s@.len() - r@.len() && r@ == #[trigger] s@.subrange(i, i + r@.len()),
{
    s.trim().to_owned()
}

/// Two trees with the same shape, the same names and the same kinds of leaves.
pub open spec fn same_tree(a: Node, b: Node) -> bool
    decreases a,
{
    match a {
        Node::Group(x) => match b {
            Node::Group(y) => {
                &&& x.name@ == y.name@
                &&& x.children@.len() == y.children@.len()
                &&& forall|i: int|
                    0 <= i < x.children@.len() ==> same_tree(#[trigger] x.children@[i], y.children@[i])
            },
            Node::Building(_) => false,
        },
        Node::Building(_) => b is Building,
    }
}

/// The node reached from `root` by following `path`, one child index per level.
pub open spec fn node_at(root: Node, path: Seq<usize>) -> Option<Node>
    decreases path.len(),
{
    if path.len() == 0 {
        Some(root)
    } else {
        match root {
            Node::Group(g) => child_at(g.children@, path),
            Node::Building(_) => None,
        }
    }
}

/// The node reached by following a non-empty `path` whose first index picks one
/// of `children`.
pub open spec fn child_at(children: Seq<Node>, path: Seq<usize>) -> Option<Node>
    decreases path.len(), 1nat,
{
    if path.len() == 0 || path[0] >= children.len() {
        None
    } else {
        node_at(children[path[0] as int], path.drop_first())
    }
}

impl Building {
    /// A leaf with default settings.
    pub fn empty() -> (r: Building) {
        Building {}
    }

    /// A default leaf, as a node.
    pub fn empty_node() -> (r: Node)
        ensures
            r is Building,
    {
        Node::Building(Building::empty())
    }
}

impl Node {
    /// Whether this node can hold children.
    pub fn is_container(&self) -> (r: bool)
        ensures
            r == self is Group,
    {
        match self {
            Node::Group(_) => true,
            Node::Building(_) => false,
        }
    }
}

impl Group {
    /// A group with an empty name and no children.
    pub fn empty() -> (r: Group)
        ensures
            r.name@ == Seq::<char>::empty(),
            r.children@ == Seq::<Node>::empty(),
    {
        Group { name: String::new(), children: Vec::new() }
    }

    /// An empty group, as a node.
    pub fn empty_node() -> (r: Node)
        ensures
            r is Group,
            r->Group_0.name@ == Seq::<char>::empty(),
            r->Group_0.children@ == Seq::<Node>::empty(),
    {
        Node::Group(Group::empty())
    }

    /// A new copy of this group in which the child at `idx` is `child`; the
    /// name and every other child stay as they were.
    pub fn with_child_replaced(self, idx: usize, child: Node) -> (r: Group)
        requires
            idx < self.children.len(),
        ensures
            r.name == self.name,
            r.children@ == self.children@.update(idx as int, child),
            r.children@.len() == self.children@.len(),
            r.children@[idx as int] == child,
            forall|j: int| 0 <= j < r.children@.len() && j != idx ==> r.children@[j] == self.children@[j],
    {
        let mut children = self.children;
        children.set(idx, child);
        Group { name: self.name, children }
    }

    /// A new copy of this group without the child at `idx`; the children after
    /// it move one place towards the front.
    pub fn with_child_removed(self, idx: usize) -> (r: Group)
        requires
            idx < self.children.len(),
        ensures
            r.name == self.name,
            r.children@ == self.children@.remove(idx as int),
            r.children@.len() == self.children@.len() - 1,
            forall|j: int| 0 <= j < idx ==> r.children@[j] == self.children@[j],
            forall|j: int| idx <= j < r.children@.len() ==> r.children@[j] == self.children@[j + 1],
    {
        let mut children = self.children;
        children.remove(idx);
        Group { name: self.name, children }
    }

    /// A new copy of this group with `child` added after the last child.
    pub fn with_child_appended(self, child: Node) -> (r: Group)
        ensures
            r.name == self.name,
            r.children@ == self.children@.push(child),
            r.children@[self.children@.len() as int] == child,
            forall|j: int| 0 <= j < self.children@.len() ==> r.children@[j] == self.children@[j],
    {
        let mut children = self.children;
        children.push(child);
        Group { name: self.name, children }
    }

    /// A new copy of this group named exactly `name`.
    pub fn with_name(self, name: String) -> (r: Group)
        ensures
            r.name == name,
            r.children == self.children,
    {
        Group { name, children: self.children }
    }

    /// A new copy of this group named `name` with surrounding whitespace
    /// removed. An empty name is kept: it is shown as unnamed.
    pub fn with_renamed(self, name: &str) -> (r: Group)
        ensures
            r.name@ == trimmed(name@),
            r.children == self.children,
            name@.len() == 0 ==> r.name@.len() == 0,
    {
        let t = trim_str(name);
        self.with_name(t)
    }
}

impl Node {
    /// A copy of this tree that shares nothing with it.
    pub fn duplicate(&self) -> (r: Node)
        ensures
            same_tree(*self, r),
        decreases self,
    {
        match self {
            Node::Group(g) => {
                let mut children: Vec<Node> = Vec::new();
                let mut i: usize = 0;
                while i < g.children.len()
                    invariant
                        *self == Node::Group(*g),
                        i <= g.children@.len(),
                        children@.len() == i,
                        forall|j: int| 0 <= j < i ==> same_tree(g.children@[j], #[trigger] children@[j]),
                    decreases g.children@.len() - i,
                {
                    proof {
                        assert(decreases_to!(*self => self->Group_0));
                        assert(decreases_to!(g.children => g.children[i as int]));
                    }
                    let c = g.children[i].duplicate();
                    children.push(c);
                    i = i + 1;
                }
                Node::Group(Group { name: g.name.clone(), children })
            },
            Node::Building(_) => Node::Building(Building::empty()),
        }
    }

    /// Whether this tree and `other` have the same shape, names and leaves.
    pub fn same_as(&self, other: &Node) -> (r: bool)
        ensures
            r == same_tree(*self, *other),
        decreases self,
    {
        match self {
            Node::Group(x) => match other {
                Node::Group(y) => {
                    if x.name != y.name || x.children.len() != y.children.len() {
                        return false;
                    }
                    let mut i: usize = 0;
                    while i < x.children.len()
                        invariant
                            *self == Node::Group(*x),
                            *other == Node::Group(*y),
                            i <= x.children@.len(),
                            x.children@.len() == y.children@.len(),
                            forall|j: int| 0 <= j < i ==> same_tree(#[trigger] x.children@[j], y.children@[j]),
                        decreases x.children@.len() - i,
                    {
                        proof {
                            assert(decreases_to!(*self => self->Group_0));
                            assert(decreases_to!(x.children => x.children[i as int]));
                        }
                        if !x.children[i].same_as(&y.children[i]) {
                            return false;
                        }
                        i = i + 1;
                    }
                    true
                },
                Node::Building(_) => false,
            },
            Node::Building(_) => other.is_container() == false,
        }
    }
}

/// Removing the child at `idx` leaves the paths through earlier children as
/// they were and moves every path through a later child one index down: what
/// was reached through child `j + 1` is now reached through child `j`.
pub proof fn lemma_removal_shifts_paths(children: Seq<Node>, idx: int, j: int, rest: Seq<usize>)
    requires
        0 <= idx < children.len(),
        0 <= j,
        j + 1 <= usize::MAX,
    ensures
        j < idx ==> child_at(children.remove(idx), seq![j as usize] + rest) == child_at(
            children,
            seq![j as usize] + rest,
        ),
        idx <= j ==> child_at(children.remove(idx), seq![j as usize] + rest) == child_at(
            children,
            seq![(j + 1) as usize] + rest,
        ),
{
    let p = seq![j as usize] + rest;
    let q = seq![(j + 1) as usize] + rest;
    assert(p.drop_first() =~= rest);
    assert(q.drop_first() =~= rest);
}

} // verus!
