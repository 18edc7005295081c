use vstd::prelude::*;

verus! {

/// Identity of a node: a namespace index and a numeric identifier within it.
#[derive(Clone, Copy, PartialEq, Eq, Structural, Debug, Hash)]
pub struct NodeId {
    pub namespace: u16,
    pub numeric: u32,
}

#[derive(Clone, Copy, PartialEq, Eq, Structural, Debug)]
pub enum NodeClass {
    ObjectType,
    VariableType,
    Object,
    Variable,
    Method,
}

/// The data types the tank model exposes. A `Double` is carried everywhere as
/// the raw bit pattern of an IEEE-754 double, so the model never computes on
/// it; producers and consumers of the bits live outside the library.
#[derive(Clone, Copy, PartialEq, Eq, Structural, Debug)]
pub enum DataTypeKind {
    Double,
    Boolean,
    Int32,
}

/// A typed scalar value, as held by a Variable node or carried in a method
/// call. `Double` holds raw IEEE-754 bits; `Text` stands for any non-numeric
/// payload a remote caller may supply.
#[derive(Clone, PartialEq, Debug)]
pub enum Variant {
    Double(u64),
    Boolean(bool),
    Int32(i32),
    Text(String),
}

impl Variant {
    /// An exact copy; spelled out so verified callers know the copy equals
    /// the original.
    pub fn copy_value(&self) -> (r: Variant)
        ensures
            r == *self,
    {
        match self {
            Variant::Double(b) => Variant::Double(*b),
            Variant::Boolean(b) => Variant::Boolean(*b),
            Variant::Int32(v) => Variant::Int32(*v),
            Variant::Text(s) => Variant::Text(s.clone()),
        }
    }
}

/// The typed relations that connect nodes into the hierarchical graph.
#[derive(Clone, Copy, PartialEq, Eq, Structural, Debug)]
pub enum ReferenceKind {
    SubtypeOf,
    HasTypeDefinition,
    OrganizedBy,
    PropertyOf,
    ComponentOf,
    HasModellingRule,
}

#[derive(Clone, Copy, PartialEq, Eq, Structural, Debug)]
pub struct Reference {
    pub kind: ReferenceKind,
    pub target: NodeId,
}

/// A declared input or output argument of a Method node.
pub struct Argument {
    pub name: String,
    pub data_type: DataTypeKind,
}

/// One addressable entry of the model: a type, instance, variable or method,
/// with its kind-specific attributes and its outgoing relations.
pub struct Node {
    pub node_id: NodeId,
    pub browse_name: String,
    pub class: NodeClass,
    pub data_type: Option<DataTypeKind>,
    pub value: Option<Variant>,
    pub source_timestamp: u64,
    pub server_timestamp: u64,
    pub references: Vec<Reference>,
    pub input_arguments: Vec<Argument>,
    pub output_arguments: Vec<Argument>,
}

#[derive(Clone, Copy, PartialEq, Eq, Structural, Debug)]
pub enum ModelError {
    DuplicateNodeId,
    UnknownReferenceTarget,
    NamespaceTableFull,
    NodeNotFound,
    NotAVariable,
}

/// Well-known namespace-zero identifiers the model is seeded with.
pub open spec fn spec_base_object_type_id() -> NodeId {
    NodeId { namespace: 0, numeric: 58 }
}

pub fn base_object_type_id() -> (r: NodeId)
    ensures
        r == spec_base_object_type_id(),
{
    NodeId { namespace: 0, numeric: 58 }
}

pub open spec fn spec_property_type_id() -> NodeId {
    NodeId { namespace: 0, numeric: 68 }
}

pub fn property_type_id() -> (r: NodeId)
    ensures
        r == spec_property_type_id(),
{
    NodeId { namespace: 0, numeric: 68 }
}

pub open spec fn spec_modelling_rule_mandatory_id() -> NodeId {
    NodeId { namespace: 0, numeric: 78 }
}

pub fn modelling_rule_mandatory_id() -> (r: NodeId)
    ensures
        r == spec_modelling_rule_mandatory_id(),
{
    NodeId { namespace: 0, numeric: 78 }
}

pub open spec fn spec_objects_folder_id() -> NodeId {
    NodeId { namespace: 0, numeric: 85 }
}

pub fn objects_folder_id() -> (r: NodeId)
    ensures
        r == spec_objects_folder_id(),
{
    NodeId { namespace: 0, numeric: 85 }
}

/// Every node in the sequence has a numeric identifier below the bound; the
/// model's identifier counter keeps this as its freshness invariant.
pub open spec fn spec_nodes_numeric_below(nodes: Seq<Node>, bound: u32) -> bool {
    forall|i: int| 0 <= i < nodes.len() ==> nodes[i].node_id.numeric < bound
}

/// An identifier at or above the numeric bound addresses nothing.
pub proof fn lemma_fresh_numeric(space: AddressSpace, id: NodeId)
    requires
        spec_nodes_numeric_below(space.nodes@, id.numeric),
    ensures
        !space.spec_has_node(id),
{
    if space.spec_has_node(id) {
        let w = choose|i: int|
            0 <= i < space.nodes@.len() && space.nodes@[i].node_id == id;
        assert(space.nodes@[w].node_id.numeric < id.numeric);
    }
}

/// Appending a node below the new bound keeps the freshness invariant.
pub proof fn lemma_numeric_below_push(pre: Seq<Node>, post: Seq<Node>, n: Node, b1: u32, b2: u32)
    requires
        post == pre.push(n),
        spec_nodes_numeric_below(pre, b1),
        b1 <= b2,
        n.node_id.numeric < b2,
    ensures
        spec_nodes_numeric_below(post, b2),
{
    assert forall|i: int| 0 <= i < post.len() implies post[i].node_id.numeric < b2 by {
        if i < pre.len() {
            assert(pre[i].node_id.numeric < b1);
        }
    }
}

/// `post` is `pre` with exactly one node added, under identifier `id`:
/// everything already in the graph keeps its identity and contents.
pub open spec fn spec_extends(pre: AddressSpace, post: AddressSpace, id: NodeId) -> bool {
    &&& post.wf()
    &&& !pre.spec_has_node(id)
    &&& post.spec_has_node(id)
    &&& post.namespaces == pre.namespaces
    &&& post.next_numeric == pre.next_numeric
    &&& post.nodes@.len() == pre.nodes@.len() + 1
    &&& post.spec_node(id).node_id == id
    &&& post.nodes@ == pre.nodes@.push(post.spec_node(id))
    &&& forall|other: NodeId|
        other != id ==> (post.spec_has_node(other) <==> pre.spec_has_node(other))
    &&& forall|other: NodeId|
        other != id && pre.spec_has_node(other) ==> post.spec_node(other) == pre.spec_node(other)
}

/// The in-memory node graph: an arena of nodes addressed by stable
/// identifiers, plus the namespace table. Callers never hold a node; they
/// reach one only through identifier-based accessors.
pub struct AddressSpace {
    pub namespaces: Vec<String>,
    pub nodes: Vec<Node>,
    pub next_numeric: u32,
}

impl AddressSpace {
    /// Node identifiers are unique, every relation points at an existing
    /// node, and the namespace table fits its index type.
    pub open spec fn wf(self) -> bool {
        &&& forall|i: int, j: int|
            0 <= i < j < self.nodes@.len() ==> self.nodes@[i].node_id != self.nodes@[j].node_id
        &&& forall|i: int, k: int|
            0 <= i < self.nodes@.len() && 0 <= k < self.nodes@[i].references@.len()
                ==> self.spec_has_node(#[trigger] self.nodes@[i].references@[k].target)
        &&& self.namespaces@.len() <= u16::MAX
    }

    pub open spec fn spec_has_node(self, id: NodeId) -> bool {
        exists|i: int| 0 <= i < self.nodes@.len() && self.nodes@[i].node_id == id
    }

    pub open spec fn spec_index_of(self, id: NodeId) -> int {
        choose|i: int| 0 <= i < self.nodes@.len() && self.nodes@[i].node_id == id
    }

    /// The node an identifier addresses; meaningful only when
    /// `spec_has_node(id)` holds.
    pub open spec fn spec_node(self, id: NodeId) -> Node {
        self.nodes@[self.spec_index_of(id)]
    }

    /// The current value of a Variable node, `None` for anything else.
    pub open spec fn spec_variable_value(self, id: NodeId) -> Option<Variant> {
        if self.spec_has_node(id) && self.spec_node(id).class == NodeClass::Variable {
            self.spec_node(id).value
        } else {
            None
        }
    }

    pub open spec fn spec_has_reference(self, id: NodeId, kind: ReferenceKind, target: NodeId) -> bool {
        self.spec_has_node(id) && exists|k: int|
            0 <= k < self.spec_node(id).references@.len()
                && self.spec_node(id).references@[k] == (Reference { kind, target })
    }

    pub open spec fn spec_has_namespace(self, uri: Seq<char>) -> bool {
        exists|i: int| 0 <= i < self.namespaces@.len() && self.namespaces@[i]@ == uri
    }

    /// In a well-formed graph, the node found at an index is the node its
    /// identifier addresses.
    pub proof fn lemma_node_at_index(self, i: int)
        requires
            self.wf(),
            0 <= i < self.nodes@.len(),
        ensures
            self.spec_has_node(self.nodes@[i].node_id),
            self.spec_index_of(self.nodes@[i].node_id) == i,
            self.spec_node(self.nodes@[i].node_id) == self.nodes@[i],
    {
        let id = self.nodes@[i].node_id;
        assert(self.spec_has_node(id));
        let j = self.spec_index_of(id);
        assert(0 <= j < self.nodes@.len() && self.nodes@[j].node_id == id);
        if j < i {
            assert(self.nodes@[j].node_id != self.nodes@[i].node_id);
        } else if i < j {
            assert(self.nodes@[i].node_id != self.nodes@[j].node_id);
        }
    }

    /// Two well-formed graphs over the same node sequence address the same
    /// nodes.
    pub proof fn lemma_nodes_preserved(pre: AddressSpace, post: AddressSpace)
        requires
            pre.wf(),
            post.wf(),
            post.nodes@ == pre.nodes@,
        ensures
            forall|id: NodeId| post.spec_has_node(id) <==> pre.spec_has_node(id),
            forall|id: NodeId|
                pre.spec_has_node(id) ==> post.spec_node(id) == pre.spec_node(id),
    {
        assert forall|id: NodeId| post.spec_has_node(id) <==> pre.spec_has_node(id) by {
            if post.spec_has_node(id) {
                let w = post.spec_index_of(id);
                assert(0 <= w < post.nodes@.len() && post.nodes@[w].node_id == id);
                assert(pre.nodes@[w].node_id == id);
            }
            if pre.spec_has_node(id) {
                let w = pre.spec_index_of(id);
                assert(0 <= w < pre.nodes@.len() && pre.nodes@[w].node_id == id);
                assert(post.nodes@[w].node_id == id);
            }
        }
        assert forall|id: NodeId|
            pre.spec_has_node(id) implies post.spec_node(id) == pre.spec_node(id) by {
            let w = pre.spec_index_of(id);
            assert(0 <= w < pre.nodes@.len() && pre.nodes@[w].node_id == id);
            pre.lemma_node_at_index(w);
            assert(post.nodes@[w].node_id == id);
            post.lemma_node_at_index(w);
        }
    }

    fn find_index(&self, id: NodeId) -> (r: Option<usize>)
        requires
            self.wf(),
        ensures
            match r {
                Some(i) => {
                    &&& i < self.nodes@.len()
                    &&& self.nodes@[i as int].node_id == id
                    &&& self.spec_has_node(id)
                    &&& self.spec_index_of(id) == i as int
                }
                None => !self.spec_has_node(id),
            },
    {
        let mut i: usize = 0;
        while i < self.nodes.len()
            invariant
                self.wf(),
                i <= self.nodes@.len(),
                forall|j: int| 0 <= j < i ==> self.nodes@[j].node_id != id,
            decreases self.nodes@.len() - i,
        {
            if self.nodes[i].node_id == id {
                proof {
                    self.lemma_node_at_index(i as int);
                }
                return Some(i);
            }
            i = i + 1;
        }
        None
    }

    pub fn has_node(&self, id: NodeId) -> (r: bool)
        requires
            self.wf(),
        ensures
            r == self.spec_has_node(id),
    {
        self.find_index(id).is_some()
    }

    pub fn new() -> (r: AddressSpace)
        ensures
            r.wf(),
            r.namespaces@.len() == 2,
            r.next_numeric == 1000,
            forall|id: NodeId|
                r.spec_has_node(id) <==> (id == spec_base_object_type_id()
                    || id == spec_property_type_id() || id == spec_objects_folder_id()
                    || id == spec_modelling_rule_mandatory_id()),
            spec_nodes_numeric_below(r.nodes@, 1000),
            r.spec_node(spec_base_object_type_id()).class == NodeClass::ObjectType,
            r.spec_node(spec_property_type_id()).class == NodeClass::VariableType,
            r.spec_node(spec_objects_folder_id()).class == NodeClass::Object,
            r.spec_node(spec_modelling_rule_mandatory_id()).class == NodeClass::Object,
    {
        let mut namespaces: Vec<String> = Vec::new();
        namespaces.push("http://industrial.example/UA/".to_string());
        namespaces.push("urn:tank-server".to_string());
        let mut nodes: Vec<Node> = Vec::new();
        nodes.push(Node {
            node_id: base_object_type_id(),
            browse_name: "BaseObjectType".to_string(),
            class: NodeClass::ObjectType,
            data_type: None,
            value: None,
            source_timestamp: 0,
            server_timestamp: 0,
            references: Vec::new(),
            input_arguments: Vec::new(),
            output_arguments: Vec::new(),
        });
        nodes.push(Node {
            node_id: property_type_id(),
            browse_name: "PropertyType".to_string(),
            class: NodeClass::VariableType,
            data_type: None,
            value: None,
            source_timestamp: 0,
            server_timestamp: 0,
            references: Vec::new(),
            input_arguments: Vec::new(),
            output_arguments: Vec::new(),
        });
        nodes.push(Node {
            node_id: objects_folder_id(),
            browse_name: "Objects".to_string(),
            class: NodeClass::Object,
            data_type: None,
            value: None,
            source_timestamp: 0,
            server_timestamp: 0,
            references: Vec::new(),
            input_arguments: Vec::new(),
            output_arguments: Vec::new(),
        });
        nodes.push(Node {
            node_id: modelling_rule_mandatory_id(),
            browse_name: "Mandatory".to_string(),
            class: NodeClass::Object,
            data_type: None,
            value: None,
            source_timestamp: 0,
            server_timestamp: 0,
            references: Vec::new(),
            input_arguments: Vec::new(),
            output_arguments: Vec::new(),
        });
        let r = AddressSpace { namespaces, nodes, next_numeric: 1000 };
        proof {
            assert(r.nodes@[0].node_id == spec_base_object_type_id());
            assert(r.nodes@[1].node_id == spec_property_type_id());
            assert(r.nodes@[2].node_id == spec_objects_folder_id());
            assert(r.nodes@[3].node_id == spec_modelling_rule_mandatory_id());
            assert(r.wf());
            r.lemma_node_at_index(0);
            r.lemma_node_at_index(1);
            r.lemma_node_at_index(2);
            r.lemma_node_at_index(3);
        }
        r
    }

    /// Hands out a fresh numeric identifier in the given namespace; the
    /// counter starts above every seeded numeric, so generated identifiers
    /// never collide with the seeded nodes.
    pub fn next_numeric_id(&mut self, namespace: u16) -> (id: NodeId)
        requires
            old(self).wf(),
            old(self).next_numeric < u32::MAX,
        ensures
            final(self).wf(),
            final(self).namespaces == old(self).namespaces,
            final(self).nodes == old(self).nodes,
            final(self).next_numeric == old(self).next_numeric + 1,
            id == (NodeId { namespace, numeric: old(self).next_numeric }),
            forall|other: NodeId|
                final(self).spec_has_node(other) <==> old(self).spec_has_node(other),
            forall|other: NodeId|
                old(self).spec_has_node(other) ==> final(self).spec_node(other) == old(
                    self,
                ).spec_node(other),
    {
        let id = NodeId { namespace, numeric: self.next_numeric };
        self.next_numeric = self.next_numeric + 1;
        proof {
            AddressSpace::lemma_nodes_preserved(*old(self), *self);
        }
        id
    }

    /// Registers a namespace URI, idempotently per URI: a URI already in the
    /// table yields its existing (first) index and changes nothing; a new one
    /// is appended, unless the table is exhausted.
    pub fn register_namespace(&mut self, uri: String) -> (r: Result<u16, ModelError>)
        requires
            old(self).wf(),
        ensures
            final(self).wf(),
            final(self).nodes == old(self).nodes,
            final(self).next_numeric == old(self).next_numeric,
            forall|other: NodeId|
                final(self).spec_has_node(other) <==> old(self).spec_has_node(other),
            forall|other: NodeId|
                old(self).spec_has_node(other) ==> final(self).spec_node(other) == old(
                    self,
                ).spec_node(other),
            match r {
                Ok(idx) => {
                    &&& (idx as int) < final(self).namespaces@.len()
                    &&& final(self).namespaces@[idx as int]@ == uri@
                    &&& forall|j: int| 0 <= j < idx as int ==> final(self).namespaces@[j]@ != uri@
                    &&& (old(self).spec_has_namespace(uri@) ==> final(self).namespaces
                        == old(self).namespaces)
                    &&& (!old(self).spec_has_namespace(uri@) ==> {
                        &&& final(self).namespaces@ == old(self).namespaces@.push(uri)
                        &&& idx as int == old(self).namespaces@.len()
                    })
                }
                Err(e) => {
                    &&& e == ModelError::NamespaceTableFull
                    &&& *final(self) == *old(self)
                    &&& !old(self).spec_has_namespace(uri@)
                    &&& old(self).namespaces@.len() == u16::MAX
                }
            },
    {
        let mut i: usize = 0;
        while i < self.namespaces.len()
            invariant
                self.wf(),
                i <= self.namespaces@.len(),
                forall|j: int| 0 <= j < i ==> self.namespaces@[j]@ != uri@,
            decreases self.namespaces@.len() - i,
        {
            if self.namespaces[i] == uri {
                return Ok(i as u16);
            }
            i = i + 1;
        }
        if self.namespaces.len() >= u16::MAX as usize {
            return Err(ModelError::NamespaceTableFull);
        }
        let idx = self.namespaces.len() as u16;
        self.namespaces.push(uri);
        proof {
            AddressSpace::lemma_nodes_preserved(*old(self), *self);
        }
        Ok(idx)
    }

    /// Inserts a node whose identifier is fresh and whose relations all point
    /// at existing nodes; reports exactly why it refuses otherwise.
    fn add_node(&mut self, node: Node) -> (r: Result<(), ModelError>)
        requires
            old(self).wf(),
        ensures
            final(self).wf(),
            match r {
                Ok(()) => {
                    &&& !old(self).spec_has_node(node.node_id)
                    &&& forall|k: int|
                        0 <= k < node.references@.len() ==> old(self).spec_has_node(
                            #[trigger] node.references@[k].target,
                        )
                    &&& final(self).nodes@ == old(self).nodes@.push(node)
                    &&& final(self).namespaces == old(self).namespaces
                    &&& final(self).next_numeric == old(self).next_numeric
                    &&& final(self).spec_has_node(node.node_id)
                    &&& final(self).spec_node(node.node_id) == node
                    &&& forall|other: NodeId|
                        other != node.node_id ==> (final(self).spec_has_node(other)
                            <==> old(self).spec_has_node(other))
                    &&& forall|other: NodeId|
                        other != node.node_id && old(self).spec_has_node(other)
                            ==> final(self).spec_node(other) == old(self).spec_node(other)
                }
                Err(e) => {
                    &&& *final(self) == *old(self)
                    &&& (e == ModelError::DuplicateNodeId <==> old(self).spec_has_node(
                        node.node_id,
                    ))
                    &&& (e == ModelError::UnknownReferenceTarget <==> {
                        &&& !old(self).spec_has_node(node.node_id)
                        &&& exists|k: int|
                            0 <= k < node.references@.len() && !old(self).spec_has_node(
                                #[trigger] node.references@[k].target,
                            )
                    })
                    &&& (e == ModelError::DuplicateNodeId || e
                        == ModelError::UnknownReferenceTarget)
                }
            },
    {
        if self.find_index(node.node_id).is_some() {
            return Err(ModelError::DuplicateNodeId);
        }
        let mut k: usize = 0;
        while k < node.references.len()
            invariant
                self.wf(),
                *self == *old(self),
                !self.spec_has_node(node.node_id),
                k <= node.references@.len(),
                forall|j: int|
                    0 <= j < k ==> self.spec_has_node(#[trigger] node.references@[j].target),
            decreases node.references@.len() - k,
        {
            if !self.has_node(node.references[k].target) {
                return Err(ModelError::UnknownReferenceTarget);
            }
            k = k + 1;
        }
        let ghost pre = *self;
        let ghost id = node.node_id;
        let ghost n = node;
        self.nodes.push(node);
        proof {
            let post = *self;
            assert(post.nodes@ == pre.nodes@.push(n));
            let len = pre.nodes@.len() as int;
            // identifiers stay unique: the new one was checked fresh
            assert forall|i: int, j: int|
                0 <= i < j < post.nodes@.len() implies post.nodes@[i].node_id
                != post.nodes@[j].node_id by {
                if j == len {
                    if post.nodes@[i].node_id == id {
                        assert(pre.spec_has_node(id));
                    }
                } else {
                    assert(pre.nodes@[i].node_id != pre.nodes@[j].node_id);
                }
            }
            // every relation still points at an existing node
            assert forall|i: int, kk: int|
                0 <= i < post.nodes@.len() && 0 <= kk < post.nodes@[i].references@.len()
                implies post.spec_has_node(#[trigger] post.nodes@[i].references@[kk].target) by {
                let t = post.nodes@[i].references@[kk].target;
                if i < len {
                    assert(pre.spec_has_node(t));
                    let w = choose|w: int| 0 <= w < len && pre.nodes@[w].node_id == t;
                    assert(post.nodes@[w].node_id == t);
                } else {
                    assert(pre.spec_has_node(t));
                    let w = choose|w: int| 0 <= w < len && pre.nodes@[w].node_id == t;
                    assert(post.nodes@[w].node_id == t);
                }
            }
            assert(post.wf());
            assert(post.nodes@[len].node_id == id);
            post.lemma_node_at_index(len);
            // existing nodes keep their identity and contents
            assert forall|other: NodeId|
                other != id implies (post.spec_has_node(other) <==> pre.spec_has_node(other)) by {
                if post.spec_has_node(other) {
                    let w = post.spec_index_of(other);
                    assert(0 <= w < post.nodes@.len() && post.nodes@[w].node_id == other);
                    assert(w != len);
                    assert(pre.nodes@[w].node_id == other);
                }
                if pre.spec_has_node(other) {
                    let w = choose|w: int| 0 <= w < len && pre.nodes@[w].node_id == other;
                    assert(post.nodes@[w].node_id == other);
                }
            }
            assert forall|other: NodeId|
                other != id && pre.spec_has_node(other) implies post.spec_node(other)
                == pre.spec_node(other) by {
                let w = choose|w: int| 0 <= w < len && pre.nodes@[w].node_id == other;
                assert(post.nodes@[w].node_id == other);
                pre.lemma_node_at_index(w);
                post.lemma_node_at_index(w);
            }
        }
        Ok(())
    }

    /// Declares an object type, a subtype of an existing type node.
    pub fn define_object_type(
        &mut self,
        node_id: NodeId,
        browse_name: String,
        subtype_of: NodeId,
    ) -> (r: Result<(), ModelError>)
        requires
            old(self).wf(),
        ensures
            final(self).wf(),
            match r {
                Ok(()) => {
                    &&& spec_extends(*old(self), *final(self), node_id)
                    &&& ({
                        let n = final(self).spec_node(node_id);
                        &&& n.node_id == node_id
                        &&& n.browse_name == browse_name
                        &&& n.class == NodeClass::ObjectType
                        &&& n.data_type is None
                        &&& n.value is None
                        &&& n.references@ =~= seq![
                            Reference { kind: ReferenceKind::SubtypeOf, target: subtype_of },
                        ]
                    })
                }
                Err(e) => {
                    &&& *final(self) == *old(self)
                    &&& (e == ModelError::DuplicateNodeId <==> old(self).spec_has_node(node_id))
                    &&& (e == ModelError::UnknownReferenceTarget <==> !old(self).spec_has_node(
                        node_id,
                    ) && !old(self).spec_has_node(subtype_of))
                    &&& (e == ModelError::DuplicateNodeId || e
                        == ModelError::UnknownReferenceTarget)
                }
            },
    {
        let mut references: Vec<Reference> = Vec::new();
        references.push(Reference { kind: ReferenceKind::SubtypeOf, target: subtype_of });
        let node = Node {
            node_id,
            browse_name,
            class: NodeClass::ObjectType,
            data_type: None,
            value: None,
            source_timestamp: 0,
            server_timestamp: 0,
            references,
            input_arguments: Vec::new(),
            output_arguments: Vec::new(),
        };
        assert(node.references@[0].target == subtype_of);
        self.add_node(node)
    }

    /// Declares a variable node: a property of an existing parent, with its
    /// type definition and, optionally, a modelling rule.
    pub fn define_variable(
        &mut self,
        node_id: NodeId,
        browse_name: String,
        data_type: DataTypeKind,
        initial_value: Option<Variant>,
        property_of: NodeId,
        type_definition: NodeId,
        modelling_rule: Option<NodeId>,
    ) -> (r: Result<(), ModelError>)
        requires
            old(self).wf(),
        ensures
            final(self).wf(),
            match r {
                Ok(()) => {
                    &&& spec_extends(*old(self), *final(self), node_id)
                    &&& ({
                        let n = final(self).spec_node(node_id);
                        &&& n.node_id == node_id
                        &&& n.browse_name == browse_name
                        &&& n.class == NodeClass::Variable
                        &&& n.data_type == Some(data_type)
                        &&& n.value == initial_value
                        &&& n.source_timestamp == 0
                        &&& n.server_timestamp == 0
                        &&& (match modelling_rule {
                            Some(m) => n.references@ =~= seq![
                                Reference { kind: ReferenceKind::PropertyOf, target: property_of },
                                Reference {
                                    kind: ReferenceKind::HasTypeDefinition,
                                    target: type_definition,
                                },
                                Reference { kind: ReferenceKind::HasModellingRule, target: m },
                            ],
                            None => n.references@ =~= seq![
                                Reference { kind: ReferenceKind::PropertyOf, target: property_of },
                                Reference {
                                    kind: ReferenceKind::HasTypeDefinition,
                                    target: type_definition,
                                },
                            ],
                        })
                    })
                }
                Err(e) => {
                    &&& *final(self) == *old(self)
                    &&& (e == ModelError::DuplicateNodeId <==> old(self).spec_has_node(node_id))
                    &&& (e == ModelError::UnknownReferenceTarget <==> {
                        &&& !old(self).spec_has_node(node_id)
                        &&& (!old(self).spec_has_node(property_of) || !old(self).spec_has_node(
                            type_definition,
                        ) || (match modelling_rule {
                            Some(m) => !old(self).spec_has_node(m),
                            None => false,
                        }))
                    })
                    &&& (e == ModelError::DuplicateNodeId || e
                        == ModelError::UnknownReferenceTarget)
                }
            },
    {
        let mut references: Vec<Reference> = Vec::new();
        references.push(Reference { kind: ReferenceKind::PropertyOf, target: property_of });
        references.push(
            Reference { kind: ReferenceKind::HasTypeDefinition, target: type_definition },
        );
        match modelling_rule {
            Some(m) => {
                references.push(Reference { kind: ReferenceKind::HasModellingRule, target: m });
            }
            None => {}
        }
        let node = Node {
            node_id,
            browse_name,
            class: NodeClass::Variable,
            data_type: Some(data_type),
            value: initial_value,
            source_timestamp: 0,
            server_timestamp: 0,
            references,
            input_arguments: Vec::new(),
            output_arguments: Vec::new(),
        };
        proof {
            assert(node.references@[0].target == property_of);
            assert(node.references@[1].target == type_definition);
            if modelling_rule is Some {
                assert(node.references@[2].target == modelling_rule.unwrap());
            }
        }
        self.add_node(node)
    }

    /// Declares an object instance, organized under an existing node and
    /// typed by an existing type node.
    pub fn define_object(
        &mut self,
        node_id: NodeId,
        browse_name: String,
        organized_by: NodeId,
        type_definition: NodeId,
    ) -> (r: Result<(), ModelError>)
        requires
            old(self).wf(),
        ensures
            final(self).wf(),
            match r {
                Ok(()) => {
                    &&& spec_extends(*old(self), *final(self), node_id)
                    &&& ({
                        let n = final(self).spec_node(node_id);
                        &&& n.node_id == node_id
                        &&& n.browse_name == browse_name
                        &&& n.class == NodeClass::Object
                        &&& n.data_type is None
                        &&& n.value is None
                        &&& n.references@ =~= seq![
                            Reference { kind: ReferenceKind::OrganizedBy, target: organized_by },
                            Reference {
                                kind: ReferenceKind::HasTypeDefinition,
                                target: type_definition,
                            },
                        ]
                    })
                }
                Err(e) => {
                    &&& *final(self) == *old(self)
                    &&& (e == ModelError::DuplicateNodeId <==> old(self).spec_has_node(node_id))
                    &&& (e == ModelError::UnknownReferenceTarget <==> {
                        &&& !old(self).spec_has_node(node_id)
                        &&& (!old(self).spec_has_node(organized_by) || !old(self).spec_has_node(
                            type_definition,
                        ))
                    })
                    &&& (e == ModelError::DuplicateNodeId || e
                        == ModelError::UnknownReferenceTarget)
                }
            },
    {
        let mut references: Vec<Reference> = Vec::new();
        references.push(Reference { kind: ReferenceKind::OrganizedBy, target: organized_by });
        references.push(
            Reference { kind: ReferenceKind::HasTypeDefinition, target: type_definition },
        );
        let node = Node {
            node_id,
            browse_name,
            class: NodeClass::Object,
            data_type: None,
            value: None,
            source_timestamp: 0,
            server_timestamp: 0,
            references,
            input_arguments: Vec::new(),
            output_arguments: Vec::new(),
        };
        proof {
            assert(node.references@[0].target == organized_by);
            assert(node.references@[1].target == type_definition);
        }
        self.add_node(node)
    }

    /// Declares a method node, a component of an existing instance, with its
    /// declared input and output argument signatures.
    pub fn define_method(
        &mut self,
        node_id: NodeId,
        browse_name: String,
        component_of: NodeId,
        input_arguments: Vec<Argument>,
        output_arguments: Vec<Argument>,
    ) -> (r: Result<(), ModelError>)
        requires
            old(self).wf(),
        ensures
            final(self).wf(),
            match r {
                Ok(()) => {
                    &&& spec_extends(*old(self), *final(self), node_id)
                    &&& ({
                        let n = final(self).spec_node(node_id);
                        &&& n.node_id == node_id
                        &&& n.browse_name == browse_name
                        &&& n.class == NodeClass::Method
                        &&& n.data_type is None
                        &&& n.value is None
                        &&& n.references@ =~= seq![
                            Reference { kind: ReferenceKind::ComponentOf, target: component_of },
                        ]
                        &&& n.input_arguments == input_arguments
                        &&& n.output_arguments == output_arguments
                    })
                }
                Err(e) => {
                    &&& *final(self) == *old(self)
                    &&& (e == ModelError::DuplicateNodeId <==> old(self).spec_has_node(node_id))
                    &&& (e == ModelError::UnknownReferenceTarget <==> !old(self).spec_has_node(
                        node_id,
                    ) && !old(self).spec_has_node(component_of))
                    &&& (e == ModelError::DuplicateNodeId || e
                        == ModelError::UnknownReferenceTarget)
                }
            },
    {
        let mut references: Vec<Reference> = Vec::new();
        references.push(Reference { kind: ReferenceKind::ComponentOf, target: component_of });
        let node = Node {
            node_id,
            browse_name,
            class: NodeClass::Method,
            data_type: None,
            value: None,
            source_timestamp: 0,
            server_timestamp: 0,
            references,
            input_arguments,
            output_arguments,
        };
        assert(node.references@[0].target == component_of);
        self.add_node(node)
    }

    /// Overwrites a Variable node's current value and timestamps; everything
    /// else in the graph is untouched.
    pub fn set_variable_value(
        &mut self,
        node_id: NodeId,
        value: Variant,
        source_timestamp: u64,
        server_timestamp: u64,
    ) -> (r: Result<(), ModelError>)
        requires
            old(self).wf(),
        ensures
            final(self).wf(),
            match r {
                Ok(()) => {
                    &&& old(self).spec_has_node(node_id)
                    &&& old(self).spec_node(node_id).class == NodeClass::Variable
                    &&& final(self).namespaces == old(self).namespaces
                    &&& final(self).next_numeric == old(self).next_numeric
                    &&& final(self).nodes@.len() == old(self).nodes@.len()
                    &&& final(self).spec_has_node(node_id)
                    &&& final(self).spec_node(node_id) == (Node {
                        value: Some(value),
                        source_timestamp,
                        server_timestamp,
                        ..old(self).spec_node(node_id)
                    })
                    &&& final(self).spec_variable_value(node_id) == Some(value)
                    &&& forall|other: NodeId|
                        final(self).spec_has_node(other) <==> old(self).spec_has_node(other)
                    &&& forall|other: NodeId|
                        other != node_id && old(self).spec_has_node(other)
                            ==> final(self).spec_node(other) == old(self).spec_node(other)
                }
                Err(e) => {
                    &&& *final(self) == *old(self)
                    &&& (e == ModelError::NodeNotFound <==> !old(self).spec_has_node(node_id))
                    &&& (e == ModelError::NotAVariable <==> old(self).spec_has_node(node_id)
                        && old(self).spec_node(node_id).class != NodeClass::Variable)
                    &&& (e == ModelError::NodeNotFound || e == ModelError::NotAVariable)
                }
            },
    {
        let idx = match self.find_index(node_id) {
            Some(i) => i,
            None => {
                return Err(ModelError::NodeNotFound);
            }
        };
        match self.nodes[idx].class {
            NodeClass::Variable => {}
            _ => {
                return Err(ModelError::NotAVariable);
            }
        }
        let ghost pre = *self;
        let mut node = self.nodes.remove(idx);
        node.value = Some(value);
        node.source_timestamp = source_timestamp;
        node.server_timestamp = server_timestamp;
        self.nodes.insert(idx, node);
        proof {
            let post = *self;
            let i = idx as int;
            let n = Node {
                value: Some(value),
                source_timestamp,
                server_timestamp,
                ..pre.nodes@[i]
            };
            assert(post.nodes@ =~= pre.nodes@.update(i, n));
            assert(n.node_id == pre.nodes@[i].node_id);
            assert forall|a: int, b: int|
                0 <= a < b < post.nodes@.len() implies post.nodes@[a].node_id
                != post.nodes@[b].node_id by {
                assert(pre.nodes@[a].node_id != pre.nodes@[b].node_id);
                assert(post.nodes@[a].node_id == pre.nodes@[a].node_id);
                assert(post.nodes@[b].node_id == pre.nodes@[b].node_id);
            }
            assert forall|a: int, kk: int|
                0 <= a < post.nodes@.len() && 0 <= kk < post.nodes@[a].references@.len()
                implies post.spec_has_node(#[trigger] post.nodes@[a].references@[kk].target) by {
                assert(post.nodes@[a].references == pre.nodes@[a].references);
                let t = pre.nodes@[a].references@[kk].target;
                assert(pre.spec_has_node(t));
                let w = choose|w: int| 0 <= w < pre.nodes@.len() && pre.nodes@[w].node_id == t;
                assert(post.nodes@[w].node_id == t);
            }
            assert(post.wf());
            assert(post.nodes@[i].node_id == node_id);
            post.lemma_node_at_index(i);
            assert forall|other: NodeId|
                post.spec_has_node(other) <==> pre.spec_has_node(other) by {
                if post.spec_has_node(other) {
                    let w = post.spec_index_of(other);
                    assert(pre.nodes@[w].node_id == other);
                }
                if pre.spec_has_node(other) {
                    let w = choose|w: int| 0 <= w < pre.nodes@.len() && pre.nodes@[w].node_id == other;
                    assert(post.nodes@[w].node_id == other);
                }
            }
            assert forall|other: NodeId|
                other != node_id && pre.spec_has_node(other) implies post.spec_node(other)
                == pre.spec_node(other) by {
                let w = choose|w: int| 0 <= w < pre.nodes@.len() && pre.nodes@[w].node_id == other;
                assert(post.nodes@[w].node_id == other);
                assert(w != i);
                pre.lemma_node_at_index(w);
                post.lemma_node_at_index(w);
            }
        }
        Ok(())
    }

    /// Reads the current value of a Variable node.
    pub fn variable_value(&self, node_id: NodeId) -> (r: Option<Variant>)
        requires
            self.wf(),
        ensures
            r == self.spec_variable_value(node_id),
    {
        let idx = match self.find_index(node_id) {
            Some(i) => i,
            None => {
                return None;
            }
        };
        match self.nodes[idx].class {
            NodeClass::Variable => {}
            _ => {
                return None;
            }
        }
        match &self.nodes[idx].value {
            Some(v) => Some(v.copy_value()),
            None => None,
        }
    }
}

} // verus!
