//! The tree of parent-relative transforms.

use vstd::prelude::*;
use crate::leg::{Part, Tag};
use crate::transform::{compose, identity_chain, Transform};

verus! {

/// Stable identifier of a node: its position in insertion order. The root is
/// node 0.
#[derive(Clone, Copy, Debug, PartialEq, Eq, Structural)]
pub struct NodeId {
    pub index: usize,
}

/// Opaque reference to what the host draws for a node.
#[derive(Clone, Copy, Debug, PartialEq, Eq, Structural)]
pub struct Renderable {
    pub mesh: u32,
    pub material: u32,
}

/// Why an operation on the hierarchy was refused.
#[derive(Clone, Copy, Debug, PartialEq, Eq, Structural)]
pub enum HierarchyError {
    /// The node named as parent does not exist.
    InvalidParent,
    /// The node named does not exist.
    UnknownNode,
}

/// One rigid body of the tree.
#[derive(Clone, Copy, Debug, PartialEq, Eq, Structural)]
pub struct Node {
    /// Placement relative to the parent.
    pub local: Transform,
    /// The owning node; `None` for the root only.
    pub parent: Option<NodeId>,
    /// Structural tag, if the node is a tagged segment.
    pub tag: Option<Tag>,
    /// What the host draws for this node, if anything.
    pub renderable: Option<Renderable>,
}

/// Whether `nodes` is the content of a tree rooted at node 0: the root has no
/// parent, every other node has a parent inserted before it, and every index
/// fits a `usize`.
pub open spec fn is_tree(nodes: Seq<Node>) -> bool {
    &&& 1 <= nodes.len() <= usize::MAX
    &&& nodes[0].parent is None
    &&& forall|i: int|
        1 <= i < nodes.len() ==> {
            &&& (#[trigger] nodes[i]).parent is Some
            &&& nodes[i].parent->0.index < i
        }
}

/// Whether node `i` of `nodes` carries a tag of the given part.
pub open spec fn has_part(nodes: Seq<Node>, i: int, part: Part) -> bool {
    nodes[i].tag matches Some(t) && t.part_spec() == part
}

/// The ids, in insertion order, of those among the first `n` nodes that carry
/// a tag of the given part.
pub open spec fn tagged_prefix(nodes: Seq<Node>, part: Part, n: nat) -> Seq<NodeId>
    decreases n,
{
    if n == 0 {
        Seq::empty()
    } else {
        let rest = tagged_prefix(nodes, part, (n - 1) as nat);
        if has_part(nodes, n - 1, part) {
            rest.push(NodeId { index: (n - 1) as usize })
        } else {
            rest
        }
    }
}

/// The ids, in insertion order, of all nodes that carry a tag of the given
/// part.
pub open spec fn tagged(nodes: Seq<Node>, part: Part) -> Seq<NodeId> {
    tagged_prefix(nodes, part, nodes.len())
}

/// The world transform of node `i`: the composition of the local transforms
/// on the path from the root down to the node. The root stands for the world
/// origin, so its own local transform takes no part.
pub open spec fn world_of(nodes: Seq<Node>, i: int) -> Seq<Transform>
    decreases i,
{
    if 1 <= i < nodes.len() && nodes[i].parent is Some && nodes[i].parent->0.index < i {
        compose(world_of(nodes, nodes[i].parent->0.index as int), seq![nodes[i].local])
    } else {
        identity_chain()
    }
}

/// `nodes` with the local transform of node `i` replaced.
pub open spec fn with_local(nodes: Seq<Node>, i: int, local: Transform) -> Seq<Node> {
    nodes.update(i, Node { local, ..nodes[i] })
}

/// Two node sequences that agree on the tags of their first `n` nodes list
/// the same ids among those nodes for every part.
pub proof fn lemma_tagged_prefix_agrees(a: Seq<Node>, b: Seq<Node>, part: Part, n: nat)
    requires
        n <= a.len(),
        n <= b.len(),
        forall|i: int| 0 <= i < n ==> a[i].tag == b[i].tag,
    ensures
        tagged_prefix(a, part, n) == tagged_prefix(b, part, n),
    decreases n,
{
    if n > 0 {
        lemma_tagged_prefix_agrees(a, b, part, (n - 1) as nat);
    }
}

/// What [`tagged_prefix`] lists: ids of nodes below `n` that carry the part,
/// in strictly increasing order, none left out.
pub proof fn lemma_tagged_prefix_lists(nodes: Seq<Node>, part: Part, n: nat)
    requires
        n <= nodes.len() <= usize::MAX,
    ensures
        tagged_prefix(nodes, part, n).len() <= n,
        forall|k: int|
            0 <= k < tagged_prefix(nodes, part, n).len() ==> {
                &&& (#[trigger] tagged_prefix(nodes, part, n)[k]).index < n
                &&& has_part(nodes, tagged_prefix(nodes, part, n)[k].index as int, part)
            },
        forall|j: int, k: int|
            0 <= j < k < tagged_prefix(nodes, part, n).len() ==> (#[trigger] tagged_prefix(
                nodes,
                part,
                n,
            )[j]).index < (#[trigger] tagged_prefix(nodes, part, n)[k]).index,
        forall|i: int|
            0 <= i < n && has_part(nodes, i, part) ==> tagged_prefix(nodes, part, n).contains(
                NodeId { index: i as usize },
            ),
    decreases n,
{
    if n > 0 {
        let rest = tagged_prefix(nodes, part, (n - 1) as nat);
        let all = tagged_prefix(nodes, part, n);
        lemma_tagged_prefix_lists(nodes, part, (n - 1) as nat);
        assert forall|i: int| 0 <= i < n && has_part(nodes, i, part) implies all.contains(
            NodeId { index: i as usize },
        ) by {
            if i == n - 1 {
                assert(all[all.len() - 1] == NodeId { index: i as usize });
            } else {
                let k = choose|k: int| 0 <= k < rest.len() && rest[k] == NodeId { index: i as usize };
                assert(all[k] == NodeId { index: i as usize });
            }
        }
    }
}

/// What [`tagged`] lists: exactly the nodes that carry the part, each once,
/// in insertion order.
pub proof fn lemma_tagged_lists(nodes: Seq<Node>, part: Part)
    requires
        nodes.len() <= usize::MAX,
    ensures
        tagged(nodes, part).len() <= nodes.len(),
        forall|k: int|
            0 <= k < tagged(nodes, part).len() ==> {
                &&& (#[trigger] tagged(nodes, part)[k]).index < nodes.len()
                &&& has_part(nodes, tagged(nodes, part)[k].index as int, part)
            },
        forall|j: int, k: int|
            0 <= j < k < tagged(nodes, part).len() ==> (#[trigger] tagged(nodes, part)[j]).index
                < (#[trigger] tagged(nodes, part)[k]).index,
        forall|i: int|
            0 <= i < nodes.len() && has_part(nodes, i, part) ==> tagged(nodes, part).contains(
                NodeId { index: i as usize },
            ),
{
    lemma_tagged_prefix_lists(nodes, part, nodes.len());
}

/// Replacing a local transform leaves every list of tagged nodes as it was.
pub proof fn lemma_with_local_keeps_tagged(
    nodes: Seq<Node>,
    i: int,
    local: Transform,
    part: Part,
)
    requires
        0 <= i < nodes.len(),
    ensures
        tagged(with_local(nodes, i, local), part) == tagged(nodes, part),
{
    lemma_tagged_prefix_agrees(with_local(nodes, i, local), nodes, part, nodes.len());
}

/// Appending a node appends its id to the list of its own part, if it has
/// one, and leaves the other lists as they were.
pub proof fn lemma_push_extends_tagged(nodes: Seq<Node>, node: Node, part: Part)
    ensures
        tagged(nodes.push(node), part) == if node.tag matches Some(t) && t.part_spec() == part {
            tagged(nodes, part).push(NodeId { index: nodes.len() as usize })
        } else {
            tagged(nodes, part)
        },
{
    lemma_tagged_prefix_agrees(nodes.push(node), nodes, part, nodes.len());
}

/// A strictly increasing list of exactly the nodes that carry the part is the
/// list that [`tagged_prefix`] gives.
pub proof fn lemma_tagged_prefix_unique(nodes: Seq<Node>, part: Part, n: nat, ids: Seq<NodeId>)
    requires
        n <= nodes.len() <= usize::MAX,
        forall|k: int|
            0 <= k < ids.len() ==> (#[trigger] ids[k]).index < n && has_part(
                nodes,
                ids[k].index as int,
                part,
            ),
        forall|j: int, k: int|
            0 <= j < k < ids.len() ==> (#[trigger] ids[j]).index < (#[trigger] ids[k]).index,
        forall|i: int|
            0 <= i < n && has_part(nodes, i, part) ==> ids.contains(NodeId { index: i as usize }),
    ensures
        ids == tagged_prefix(nodes, part, n),
    decreases n,
{
    if n == 0 {
        assert(ids.len() == 0) by {
            if ids.len() > 0 {
                assert(ids[0].index < n);
            }
        }
        assert(ids =~= Seq::empty());
    } else if has_part(nodes, n - 1, part) {
        let last = NodeId { index: (n - 1) as usize };
        let at = choose|k: int| 0 <= k < ids.len() && ids[k] == last;
        assert(at == ids.len() - 1) by {
            if at < ids.len() - 1 {
                assert(ids[at].index < ids[ids.len() - 1].index);
            }
        }
        let rest = ids.drop_last();
        assert forall|i: int| 0 <= i < n - 1 && has_part(nodes, i, part) implies rest.contains(
            NodeId { index: i as usize },
        ) by {
            let k = choose|k: int| 0 <= k < ids.len() && ids[k] == NodeId { index: i as usize };
            assert(rest[k] == ids[k]);
        }
        assert forall|k: int| 0 <= k < rest.len() implies (#[trigger] rest[k]).index < n - 1
            && has_part(nodes, rest[k].index as int, part) by {
            assert(ids[k].index < ids[ids.len() - 1].index);
        }
        lemma_tagged_prefix_unique(nodes, part, (n - 1) as nat, rest);
        assert(ids =~= rest.push(last));
    } else {
        assert forall|k: int| 0 <= k < ids.len() implies (#[trigger] ids[k]).index < n - 1 by {
            assert(has_part(nodes, ids[k].index as int, part));
        }
        lemma_tagged_prefix_unique(nodes, part, (n - 1) as nat, ids);
    }
}

/// A strictly increasing list of exactly the nodes that carry the part is the
/// list that [`tagged`] gives.
pub proof fn lemma_tagged_unique(nodes: Seq<Node>, part: Part, ids: Seq<NodeId>)
    requires
        nodes.len() <= usize::MAX,
        forall|k: int|
            0 <= k < ids.len() ==> (#[trigger] ids[k]).index < nodes.len() && has_part(
                nodes,
                ids[k].index as int,
                part,
            ),
        forall|j: int, k: int|
            0 <= j < k < ids.len() ==> (#[trigger] ids[j]).index < (#[trigger] ids[k]).index,
        forall|i: int|
            0 <= i < nodes.len() && has_part(nodes, i, part) ==> ids.contains(
                NodeId { index: i as usize },
            ),
    ensures
        ids == tagged(nodes, part),
{
    lemma_tagged_prefix_unique(nodes, part, nodes.len(), ids);
}

/// The world transform of the root is the identity, and the world transform
/// of every other node is that of its parent composed with the node's own
/// local transform.
pub proof fn lemma_world_composes(nodes: Seq<Node>, i: int)
    requires
        is_tree(nodes),
        0 <= i < nodes.len(),
    ensures
        i == 0 ==> world_of(nodes, i) == identity_chain(),
        i != 0 ==> {
            &&& nodes[i].parent is Some
            &&& nodes[i].parent->0.index < i
            &&& world_of(nodes, i) == compose(
                world_of(nodes, nodes[i].parent->0.index as int),
                seq![nodes[i].local],
            )
        },
{
}

/// Replacing a local transform changes neither the number of nodes nor any
/// parent, tag or renderable, and leaves a tree a tree.
pub proof fn lemma_with_local_keeps_structure(nodes: Seq<Node>, i: int, local: Transform)
    requires
        0 <= i < nodes.len(),
    ensures
        with_local(nodes, i, local).len() == nodes.len(),
        with_local(nodes, i, local)[i].local == local,
        forall|j: int|
            0 <= j < nodes.len() ==> {
                &&& (#[trigger] with_local(nodes, i, local)[j]).parent == nodes[j].parent
                &&& with_local(nodes, i, local)[j].tag == nodes[j].tag
                &&& with_local(nodes, i, local)[j].renderable == nodes[j].renderable
                &&& j != i ==> with_local(nodes, i, local)[j].local == nodes[j].local
            },
        is_tree(nodes) ==> is_tree(with_local(nodes, i, local)),
{
}

/// Setting the same local transform a second time changes nothing: the nodes,
/// and with them every world transform, are as after the first time.
pub proof fn lemma_set_local_idempotent(nodes: Seq<Node>, i: int, local: Transform)
    requires
        0 <= i < nodes.len(),
    ensures
        with_local(with_local(nodes, i, local), i, local) == with_local(nodes, i, local),
        forall|j: int|
            world_of(with_local(with_local(nodes, i, local), i, local), j) == world_of(
                with_local(nodes, i, local),
                j,
            ),
{
    assert(with_local(with_local(nodes, i, local), i, local) =~= with_local(nodes, i, local));
}

/// Append-only tree of rigid bodies, each placed relative to its parent.
///
/// Besides the nodes it keeps, for each part, the ids of the nodes tagged
/// with it, so that a lookup by tag does not walk the tree.
pub struct TransformHierarchy {
    nodes: Vec<Node>,
    main_bodies: Vec<NodeId>,
    coxas: Vec<NodeId>,
    femurs: Vec<NodeId>,
    tibias: Vec<NodeId>,
}

impl View for TransformHierarchy {
    type V = Seq<Node>;

    closed spec fn view(&self) -> Seq<Node> {
        self.nodes@
    }
}

impl TransformHierarchy {
    /// The invariant of the hierarchy: its nodes form a tree, and the index
    /// kept for each part lists exactly the nodes tagged with it.
    pub closed spec fn well_formed(&self) -> bool {
        &&& is_tree(self.nodes@)
        &&& self.main_bodies@ == tagged(self.nodes@, Part::MainBody)
        &&& self.coxas@ == tagged(self.nodes@, Part::Coxa)
        &&& self.femurs@ == tagged(self.nodes@, Part::Femur)
        &&& self.tibias@ == tagged(self.nodes@, Part::Tibia)
    }

    /// Whether `id` names a node of this hierarchy.
    pub open spec fn has_node(&self, id: NodeId) -> bool {
        id.index < self@.len()
    }

    /// The nodes of a well-formed hierarchy form a tree.
    pub proof fn lemma_well_formed_is_tree(&self)
        requires
            self.well_formed(),
        ensures
            is_tree(self@),
    {
    }

    /// A hierarchy that holds the root alone, placed at the world origin.
    pub fn new() -> (h: TransformHierarchy)
        ensures
            h.well_formed(),
            h@ == seq![
                Node { local: Transform::identity_spec(), parent: None, tag: None, renderable: None },
            ],
    {
        let mut nodes: Vec<Node> = Vec::new();
        nodes.push(
            Node { local: Transform::identity(), parent: None, tag: None, renderable: None },
        );
        proof {
            reveal_with_fuel(tagged_prefix, 2);
            assert(nodes@ =~= seq![
                Node { local: Transform::identity_spec(), parent: None, tag: None, renderable: None },
            ]);
        }
        TransformHierarchy {
            nodes,
            main_bodies: Vec::new(),
            coxas: Vec::new(),
            femurs: Vec::new(),
            tibias: Vec::new(),
        }
    }

    /// The id of the root.
    pub fn root(&self) -> (id: NodeId)
        ensures
            id == (NodeId { index: 0 }),
    {
        NodeId { index: 0 }
    }

    /// Number of nodes, the root included.
    pub fn len(&self) -> (n: usize)
        requires
            self.well_formed(),
        ensures
            n == self@.len(),
            n >= 1,
    {
        self.nodes.len()
    }

    /// Whether `id` names a node of this hierarchy.
    pub fn contains(&self, id: NodeId) -> (b: bool)
        ensures
            b == self.has_node(id),
    {
        id.index < self.nodes.len()
    }

    /// Appends `node`, whose parent exists already, and records it in the
    /// index of its part.
    fn insert(&mut self, node: Node) -> (id: NodeId)
        requires
            old(self).well_formed(),
            node.parent is Some,
            node.parent->0.index < old(self)@.len(),
        ensures
            final(self).well_formed(),
            final(self)@ == old(self)@.push(node),
            id == (NodeId { index: old(self)@.len() as usize }),
    {
        let id = NodeId { index: self.nodes.len() };
        proof {
            lemma_push_extends_tagged(self.nodes@, node, Part::MainBody);
            lemma_push_extends_tagged(self.nodes@, node, Part::Coxa);
            lemma_push_extends_tagged(self.nodes@, node, Part::Femur);
            lemma_push_extends_tagged(self.nodes@, node, Part::Tibia);
        }
        self.nodes.push(node);
        // A vector's length fits `usize`, so the new id does too.
        let count = self.nodes.len();
        assert(count == old(self)@.len() + 1);
        match node.tag {
            Some(Tag::MainBody) => self.main_bodies.push(id),
            Some(Tag::Coxa(_)) => self.coxas.push(id),
            Some(Tag::Femur(_)) => self.femurs.push(id),
            Some(Tag::Tibia(_)) => self.tibias.push(id),
            None => {},
        }
        id
    }

    /// Creates a node as a child of `parent`, with the given placement and
    /// tag and with nothing to draw, and returns its id.
    ///
    /// Fails with `InvalidParent`, and changes nothing, if `parent` does not
    /// exist.
    pub fn attach(&mut self, parent: NodeId, local: Transform, tag: Option<Tag>) -> (r: Result<
        NodeId,
        HierarchyError,
    >)
        requires
            old(self).well_formed(),
        ensures
            final(self).well_formed(),
            old(self).has_node(parent) ==> r == Ok::<NodeId, HierarchyError>(
                NodeId { index: old(self)@.len() as usize },
            ) && final(self)@ == old(self)@.push(
                Node { local, parent: Some(parent), tag, renderable: None },
            ),
            !old(self).has_node(parent) ==> r == Err::<NodeId, HierarchyError>(
                HierarchyError::InvalidParent,
            ) && final(self)@ == old(self)@,
    {
        if parent.index >= self.nodes.len() {
            return Err(HierarchyError::InvalidParent);
        }
        Ok(self.insert(Node { local, parent: Some(parent), tag, renderable: None }))
    }

    /// Creates an untagged node as a child of `parent` that carries something
    /// to draw, and returns its id.
    ///
    /// Fails with `InvalidParent`, and changes nothing, if `parent` does not
    /// exist.
    pub fn attach_mesh(&mut self, parent: NodeId, local: Transform, renderable: Renderable) -> (r:
        Result<NodeId, HierarchyError>)
        requires
            old(self).well_formed(),
        ensures
            final(self).well_formed(),
            old(self).has_node(parent) ==> r == Ok::<NodeId, HierarchyError>(
                NodeId { index: old(self)@.len() as usize },
            ) && final(self)@ == old(self)@.push(
                Node { local, parent: Some(parent), tag: None, renderable: Some(renderable) },
            ),
            !old(self).has_node(parent) ==> r == Err::<NodeId, HierarchyError>(
                HierarchyError::InvalidParent,
            ) && final(self)@ == old(self)@,
    {
        if parent.index >= self.nodes.len() {
            return Err(HierarchyError::InvalidParent);
        }
        Ok(
            self.insert(
                Node { local, parent: Some(parent), tag: None, renderable: Some(renderable) },
            ),
        )
    }

    /// Overwrites the local transform of node `id`; everything else stays.
    ///
    /// Fails with `UnknownNode`, and changes nothing, if `id` does not exist.
    pub fn set_local(&mut self, id: NodeId, local: Transform) -> (r: Result<(), HierarchyError>)
        requires
            old(self).well_formed(),
        ensures
            final(self).well_formed(),
            old(self).has_node(id) ==> r == Ok::<(), HierarchyError>(()) && final(self)@
                == with_local(old(self)@, id.index as int, local),
            !old(self).has_node(id) ==> r == Err::<(), HierarchyError>(
                HierarchyError::UnknownNode,
            ) && final(self)@ == old(self)@,
    {
        if id.index >= self.nodes.len() {
            return Err(HierarchyError::UnknownNode);
        }
        let node = self.nodes[id.index];
        proof {
            lemma_with_local_keeps_tagged(self.nodes@, id.index as int, local, Part::MainBody);
            lemma_with_local_keeps_tagged(self.nodes@, id.index as int, local, Part::Coxa);
            lemma_with_local_keeps_tagged(self.nodes@, id.index as int, local, Part::Femur);
            lemma_with_local_keeps_tagged(self.nodes@, id.index as int, local, Part::Tibia);
        }
        self.nodes.set(
            id.index,
            Node { local, parent: node.parent, tag: node.tag, renderable: node.renderable },
        );
        Ok(())
    }

    /// The node `id`, or `UnknownNode` if it does not exist.
    pub fn node(&self, id: NodeId) -> (r: Result<Node, HierarchyError>)
        ensures
            self.has_node(id) ==> r == Ok::<Node, HierarchyError>(self@[id.index as int]),
            !self.has_node(id) ==> r == Err::<Node, HierarchyError>(HierarchyError::UnknownNode),
    {
        if id.index >= self.nodes.len() {
            return Err(HierarchyError::UnknownNode);
        }
        Ok(self.nodes[id.index])
    }

    /// The local transform of node `id`, or `UnknownNode` if it does not
    /// exist.
    pub fn local(&self, id: NodeId) -> (r: Result<Transform, HierarchyError>)
        ensures
            self.has_node(id) ==> r == Ok::<Transform, HierarchyError>(
                self@[id.index as int].local,
            ),
            !self.has_node(id) ==> r == Err::<Transform, HierarchyError>(
                HierarchyError::UnknownNode,
            ),
    {
        if id.index >= self.nodes.len() {
            return Err(HierarchyError::UnknownNode);
        }
        Ok(self.nodes[id.index].local)
    }

    /// The parent of node `id` (`None` for the root), or `UnknownNode` if
    /// `id` does not exist.
    pub fn parent(&self, id: NodeId) -> (r: Result<Option<NodeId>, HierarchyError>)
        requires
            self.well_formed(),
        ensures
            self.has_node(id) ==> r == Ok::<Option<NodeId>, HierarchyError>(
                self@[id.index as int].parent,
            ),
            !self.has_node(id) ==> r == Err::<Option<NodeId>, HierarchyError>(
                HierarchyError::UnknownNode,
            ),
            r matches Ok(p) ==> (p is None <==> id.index == 0),
            r matches Ok(Some(p)) ==> p.index < id.index,
    {
        if id.index >= self.nodes.len() {
            return Err(HierarchyError::UnknownNode);
        }
        Ok(self.nodes[id.index].parent)
    }

    /// The world transform of node `id`, as the chain of local transforms
    /// that compose to it, outermost first; the empty chain is the identity.
    ///
    /// Fails with `UnknownNode` if `id` does not exist.
    pub fn world_transform(&self, id: NodeId) -> (r: Result<Vec<Transform>, HierarchyError>)
        requires
            self.well_formed(),
        ensures
            self.has_node(id) ==> r is Ok && r->Ok_0@ == world_of(self@, id.index as int),
            !self.has_node(id) ==> r == Err::<Vec<Transform>, HierarchyError>(
                HierarchyError::UnknownNode,
            ),
    {
        if id.index >= self.nodes.len() {
            return Err(HierarchyError::UnknownNode);
        }
        let mut upward: Vec<Transform> = Vec::new();
        let mut cur: usize = id.index;
        while cur != 0
            invariant
                is_tree(self.nodes@),
                cur < self.nodes@.len(),
                world_of(self.nodes@, id.index as int) == compose(
                    world_of(self.nodes@, cur as int),
                    upward@.reverse(),
                ),
            decreases cur,
        {
            let node = self.nodes[cur];
            let ghost before = upward@;
            upward.push(node.local);
            proof {
                assert(upward@.reverse() =~= seq![node.local] + before.reverse());
                assert(compose(
                    world_of(self.nodes@, node.parent->0.index as int),
                    upward@.reverse(),
                ) =~= compose(world_of(self.nodes@, cur as int), before.reverse()));
            }
            match node.parent {
                Some(p) => {
                    cur = p.index;
                },
                None => {
                    cur = 0;
                },
            }
        }
        let mut chain: Vec<Transform> = Vec::new();
        let mut k: usize = upward.len();
        while k > 0
            invariant
                k <= upward@.len(),
                chain@.len() == upward@.len() - k,
                forall|j: int| 0 <= j < chain@.len() ==> chain@[j] == upward@[upward@.len() - 1 - j],
            decreases k,
        {
            k = k - 1;
            chain.push(upward[k]);
        }
        proof {
            assert(chain@ =~= upward@.reverse());
            assert(compose(identity_chain(), chain@) =~= chain@);
        }
        Ok(chain)
    }

    /// The ids of the nodes tagged with `part`, in insertion order.
    pub fn nodes_with_tag(&self, part: Part) -> (ids: Vec<NodeId>)
        requires
            self.well_formed(),
        ensures
            ids@ == tagged(self@, part),
    {
        let index = match part {
            Part::MainBody => &self.main_bodies,
            Part::Coxa => &self.coxas,
            Part::Femur => &self.femurs,
            Part::Tibia => &self.tibias,
        };
        let mut ids: Vec<NodeId> = Vec::new();
        let mut k: usize = 0;
        while k < index.len()
            invariant
                k <= index@.len(),
                ids@ == index@.subrange(0, k as int),
            decreases index@.len() - k,
        {
            ids.push(index[k]);
            k = k + 1;
            proof {
                assert(ids@ =~= index@.subrange(0, k as int));
            }
        }
        proof {
            assert(ids@ =~= index@);
        }
        ids
    }
}

} // verus!
