//! The subtype lattice: which node is a subtype of which, the properties of
//! types, and browse-path lookup.
//!
//! The maps are association vectors with pairwise-distinct keys, viewed as
//! mathematical maps. The upward subtype walk is bounded by the number of
//! nodes, so it terminates on any input; on an acyclic lattice the bound is
//! never the reason a walk stops.

use vstd::prelude::*;

use crate::node_id::{NodeClass, NodeId, NodeIdView, QualifiedName, QualifiedNameView};

verus! {

/// The mathematical map an association vector denotes.
pub open spec fn entries_map<V: View>(s: Seq<(NodeId, V)>) -> Map<NodeIdView, V::V>
    decreases s.len(),
{
    if s.len() == 0 {
        Map::empty()
    } else {
        entries_map(s.drop_last()).insert(s.last().0@, s.last().1@)
    }
}

/// Whether the keys of an association vector are pairwise distinct.
pub open spec fn distinct_keys<V>(s: Seq<(NodeId, V)>) -> bool {
    forall|i: int, j: int| 0 <= i < j < s.len() ==> (#[trigger] s[i]).0@ != (#[trigger] s[j]).0@
}

/// Each entry of an association vector is in its map.
proof fn lemma_entries_map_index<V: View>(s: Seq<(NodeId, V)>, i: int)
    requires
        distinct_keys(s),
        0 <= i < s.len(),
    ensures
        entries_map(s).contains_key(s[i].0@),
        entries_map(s)[s[i].0@] == s[i].1@,
    decreases s.len(),
{
    if i + 1 < s.len() {
        assert(distinct_keys(s.drop_last()));
        lemma_entries_map_index(s.drop_last(), i);
        assert(s[i].0@ != s.last().0@);
    }
}

/// A key no entry carries is not in the map.
proof fn lemma_entries_map_absent<V: View>(s: Seq<(NodeId, V)>, k: NodeIdView)
    requires
        forall|i: int| 0 <= i < s.len() ==> (#[trigger] s[i]).0@ != k,
    ensures
        !entries_map(s).contains_key(k),
    decreases s.len(),
{
    if s.len() > 0 {
        lemma_entries_map_absent(s.drop_last(), k);
    }
}

/// Every key of the map is carried by some entry.
proof fn lemma_entries_map_contains_index<V: View>(s: Seq<(NodeId, V)>, k: NodeIdView)
    requires
        entries_map(s).contains_key(k),
    ensures
        exists|t: int| 0 <= t < s.len() && (#[trigger] s[t]).0@ == k,
    decreases s.len(),
{
    if s.len() > 0 {
        if s.last().0@ == k {
            assert(s[s.len() - 1].0@ == k);
        } else {
            lemma_entries_map_contains_index(s.drop_last(), k);
            let t = choose|t: int|
                0 <= t < s.drop_last().len() && (#[trigger] s.drop_last()[t]).0@ == k;
            assert(s[t].0@ == k);
        }
    }
}

/// Pushing a fresh entry inserts its pair into the map.
proof fn lemma_entries_map_push<V: View>(s: Seq<(NodeId, V)>, k: NodeId, v: V)
    ensures
        entries_map(s.push((k, v))) == entries_map(s).insert(k@, v@),
{
    assert(s.push((k, v)).drop_last() =~= s);
}

/// Removing the entry at `i` removes its key from the map.
proof fn lemma_entries_map_remove<V: View>(s: Seq<(NodeId, V)>, i: int)
    requires
        distinct_keys(s),
        0 <= i < s.len(),
    ensures
        entries_map(s.remove(i)) =~= entries_map(s).remove(s[i].0@),
        distinct_keys(s.remove(i)),
    decreases s.len(),
{
    let k = s[i].0@;
    assert(distinct_keys(s.drop_last()));
    if i + 1 == s.len() {
        assert(s.remove(i) =~= s.drop_last());
        lemma_entries_map_absent(s.drop_last(), k);
        assert(entries_map(s.drop_last()) =~= entries_map(s.drop_last()).insert(
            k,
            s[i].1@,
        ).remove(k));
    } else {
        lemma_entries_map_remove(s.drop_last(), i);
        assert(s.remove(i).drop_last() =~= s.drop_last().remove(i));
        assert(s.remove(i).last() == s.last());
        lemma_entries_map_index(s, i);
        assert(s.last().0@ != k);
    }
}

/// Look a key up in an association vector.
pub fn assoc_get<'a, V: View>(entries: &'a Vec<(NodeId, V)>, k: &NodeId) -> (r: Option<&'a V>)
    requires
        distinct_keys(entries@),
    ensures
        match r {
            Some(v) => entries_map(entries@).contains_key(k@) && v@ == entries_map(entries@)[k@],
            None => !entries_map(entries@).contains_key(k@),
        },
{
    let mut i: usize = 0;
    while i < entries.len()
        invariant
            i <= entries@.len(),
            distinct_keys(entries@),
            forall|j: int| 0 <= j < i ==> (#[trigger] entries@[j]).0@ != k@,
        decreases entries@.len() - i,
    {
        if entries[i].0.same(k) {
            proof {
                lemma_entries_map_index(entries@, i as int);
            }
            return Some(&entries[i].1);
        }
        i += 1;
    }
    proof {
        lemma_entries_map_absent(entries@, k@);
    }
    None
}

/// The position of a key in an association vector.
fn assoc_position<V: View>(entries: &Vec<(NodeId, V)>, k: &NodeId) -> (r: Option<usize>)
    requires
        distinct_keys(entries@),
    ensures
        match r {
            Some(i) => i < entries@.len() && entries@[i as int].0@ == k@,
            None => !entries_map(entries@).contains_key(k@),
        },
{
    let mut i: usize = 0;
    while i < entries.len()
        invariant
            i <= entries@.len(),
            distinct_keys(entries@),
            forall|j: int| 0 <= j < i ==> (#[trigger] entries@[j]).0@ != k@,
        decreases entries@.len() - i,
    {
        if entries[i].0.same(k) {
            return Some(i);
        }
        i += 1;
    }
    proof {
        lemma_entries_map_absent(entries@, k@);
    }
    None
}

/// Insert a pair, replacing the entry for the key when one exists.
pub fn assoc_insert<V: View>(entries: &mut Vec<(NodeId, V)>, k: NodeId, v: V)
    requires
        distinct_keys(old(entries)@),
    ensures
        distinct_keys(final (entries)@),
        entries_map(final (entries)@) == entries_map(old(entries)@).insert(k@, v@),
{
    let pos = assoc_position(entries, &k);
    match pos {
        Some(i) => {
            let ghost pre = entries@;
            proof {
                lemma_entries_map_remove(pre, i as int);
            }
            entries.remove(i);
            proof {
                assert forall|j: int| 0 <= j < entries@.len() implies (#[trigger] entries@[j]).0@
                    != k@ by {
                    if j < i {
                        assert(entries@[j] == pre[j]);
                    } else {
                        assert(entries@[j] == pre[j + 1]);
                    }
                }
                lemma_entries_map_push(entries@, k, v);
            }
            let ghost removed = entries@;
            entries.push((k, v));
            proof {
                assert(entries_map(entries@) =~= entries_map(pre).insert(k@, v@));
                assert forall|a: int, b: int|
                    0 <= a < b < entries@.len() implies (#[trigger] entries@[a]).0@
                    != (#[trigger] entries@[b]).0@ by {
                    assert(entries@[a] == removed[a]);
                    if b + 1 == entries@.len() {
                        assert(removed[a].0@ != k@);
                    } else {
                        assert(entries@[b] == removed[b]);
                    }
                }
            }
        },
        None => {
            proof {
                lemma_entries_map_push(entries@, k, v);
                assert forall|j: int| 0 <= j < entries@.len() implies (#[trigger] entries@[j]).0@
                    != k@ by {
                    lemma_entries_map_index(entries@, j);
                }
            }
            entries.push((k, v));
        },
    }
}

/// Remove the entry for a key; say whether one was there.
pub fn assoc_remove<V: View>(entries: &mut Vec<(NodeId, V)>, k: &NodeId) -> (r: bool)
    requires
        distinct_keys(old(entries)@),
    ensures
        distinct_keys(final (entries)@),
        entries_map(final (entries)@) == entries_map(old(entries)@).remove(k@),
        r == entries_map(old(entries)@).contains_key(k@),
{
    let pos = assoc_position(entries, k);
    match pos {
        Some(i) => {
            proof {
                lemma_entries_map_index(entries@, i as int);
                lemma_entries_map_remove(entries@, i as int);
            }
            entries.remove(i);
            true
        },
        None => {
            proof {
                assert(entries_map(entries@) =~= entries_map(entries@).remove(k@));
            }
            false
        },
    }
}

/// A single property of a type in the type tree.
#[derive(Clone, Debug, PartialEq)]
pub struct TypeProperty {
    /// Node id of the property.
    pub node_id: NodeId,
    /// Node class of the property.
    pub node_class: NodeClass,
}

/// Mathematical image of a [`TypeProperty`].
pub struct TypePropertyView {
    pub node_id: NodeIdView,
    pub node_class: NodeClass,
}

impl View for TypeProperty {
    type V = TypePropertyView;

    open spec fn view(&self) -> TypePropertyView {
        TypePropertyView { node_id: self.node_id@, node_class: self.node_class }
    }
}

/// Inverse reference from a property to its type.
#[derive(Clone, Debug, PartialEq)]
pub struct TypePropertyInverseRef {
    /// Node id of the type.
    pub type_id: NodeId,
    /// Path to the property.
    pub path: Vec<QualifiedName>,
}

/// One property registration: the property, the type it belongs to, and the
/// browse path that reaches it.
#[derive(Clone, Debug, PartialEq)]
pub struct PropertyEntry {
    pub prop_id: NodeId,
    pub type_id: NodeId,
    pub path: Vec<QualifiedName>,
    pub node_class: NodeClass,
}

/// Mathematical image of a [`PropertyEntry`].
pub struct PropertyEntryView {
    pub prop_id: NodeIdView,
    pub type_id: NodeIdView,
    pub path: Seq<QualifiedNameView>,
    pub node_class: NodeClass,
}

impl View for PropertyEntry {
    type V = PropertyEntryView;

    open spec fn view(&self) -> PropertyEntryView {
        PropertyEntryView {
            prop_id: self.prop_id@,
            type_id: self.type_id@,
            path: Seq::new(self.path@.len(), |i: int| self.path@[i]@),
            node_class: self.node_class,
        }
    }
}

/// The map of namespace uris, indexed by namespace index.
#[derive(Clone, Debug, PartialEq)]
pub struct NamespaceMap {
    pub uris: Vec<String>,
}

impl View for NamespaceMap {
    type V = Seq<Seq<char>>;

    open spec fn view(&self) -> Seq<Seq<char>> {
        Seq::new(self.uris@.len(), |i: int| self.uris@[i]@)
    }
}

impl NamespaceMap {
    /// An empty namespace map.
    pub fn new() -> (r: NamespaceMap)
        ensures
            r@.len() == 0,
    {
        NamespaceMap { uris: Vec::new() }
    }

    /// Register a namespace uri; its index is its position.
    pub fn add_namespace(&mut self, uri: String) -> (r: usize)
        ensures
            final (self)@ == old(self)@.push(uri@),
            r == old(self)@.len(),
    {
        let i = self.uris.len();
        self.uris.push(uri);
        proof {
            assert(self@ =~= old(self)@.push(uri@));
        }
        i
    }

    /// How many namespaces are registered.
    pub fn len(&self) -> (r: usize)
        ensures
            r == self@.len(),
    {
        self.uris.len()
    }
}

/// Whether a node can take part in an upward subtype step: present, of a
/// type class, with a registered supertype.
pub open spec fn steppable(
    nodes: Map<NodeIdView, NodeClass>,
    parents: Map<NodeIdView, NodeIdView>,
    n: NodeIdView,
) -> bool {
    nodes.contains_key(n) && nodes[n].spec_is_type_class() && parents.contains_key(n)
}

/// The bounded upward walk: `child` reaches `ancestor` along supertype edges
/// within `fuel` steps, every intermediate node being a present type node.
pub open spec fn walk(
    nodes: Map<NodeIdView, NodeClass>,
    parents: Map<NodeIdView, NodeIdView>,
    child: NodeIdView,
    ancestor: NodeIdView,
    fuel: nat,
) -> bool
    decreases fuel,
{
    if child == ancestor {
        true
    } else if fuel == 0 {
        false
    } else if !steppable(nodes, parents, child) {
        false
    } else {
        walk(nodes, parents, parents[child], ancestor, (fuel - 1) as nat)
    }
}

/// A walk that succeeds with some fuel succeeds with more.
pub proof fn lemma_walk_monotone(
    nodes: Map<NodeIdView, NodeClass>,
    parents: Map<NodeIdView, NodeIdView>,
    child: NodeIdView,
    ancestor: NodeIdView,
    f: nat,
    g: nat,
)
    requires
        walk(nodes, parents, child, ancestor, f),
        f <= g,
    ensures
        walk(nodes, parents, child, ancestor, g),
    decreases f,
{
    if child != ancestor {
        lemma_walk_monotone(nodes, parents, parents[child], ancestor, (f - 1) as nat, (g - 1) as nat);
    }
}

/// Two walks concatenate.
pub proof fn lemma_walk_trans(
    nodes: Map<NodeIdView, NodeClass>,
    parents: Map<NodeIdView, NodeIdView>,
    a: NodeIdView,
    b: NodeIdView,
    c: NodeIdView,
    f: nat,
    g: nat,
)
    requires
        walk(nodes, parents, a, b, f),
        walk(nodes, parents, b, c, g),
    ensures
        walk(nodes, parents, a, c, f + g),
    decreases f,
{
    if a == b {
        lemma_walk_monotone(nodes, parents, b, c, g, f + g);
    } else {
        lemma_walk_trans(nodes, parents, parents[a], b, c, (f - 1) as nat, g);
    }
}

/// A rank function witnessing acyclicity: along every supertype step the rank
/// strictly drops, and every steppable node ranks below `count`.
pub open spec fn acyclic_ranked(
    nodes: Map<NodeIdView, NodeClass>,
    parents: Map<NodeIdView, NodeIdView>,
    rank: Map<NodeIdView, nat>,
    count: nat,
) -> bool {
    forall|n: NodeIdView|
        #[trigger] steppable(nodes, parents, n) ==> rank[n] < count && (steppable(
            nodes,
            parents,
            parents[n],
        ) ==> rank[parents[n]] < rank[n])
}

/// The subtype lattice is acyclic: some rank function bounded by `count`
/// witnesses it.
pub open spec fn acyclic(
    nodes: Map<NodeIdView, NodeClass>,
    parents: Map<NodeIdView, NodeIdView>,
    count: nat,
) -> bool {
    exists|rank: Map<NodeIdView, nat>| acyclic_ranked(nodes, parents, rank, count)
}

/// Under a rank witness, a successful walk from a node succeeds within one
/// more step than the node's rank.
proof fn lemma_walk_rank_tight(
    nodes: Map<NodeIdView, NodeClass>,
    parents: Map<NodeIdView, NodeIdView>,
    rank: Map<NodeIdView, nat>,
    count: nat,
    child: NodeIdView,
    ancestor: NodeIdView,
    f: nat,
)
    requires
        acyclic_ranked(nodes, parents, rank, count),
        walk(nodes, parents, child, ancestor, f),
        child != ancestor,
    ensures
        walk(nodes, parents, child, ancestor, rank[child] + 1),
    decreases f,
{
    let p = parents[child];
    assert(steppable(nodes, parents, child));
    assert(walk(nodes, parents, p, ancestor, (f - 1) as nat));
    if p != ancestor {
        lemma_walk_rank_tight(nodes, parents, rank, count, p, ancestor, (f - 1) as nat);
        assert(steppable(nodes, parents, p));
        assert(rank[p] < rank[child]);
        lemma_walk_monotone(nodes, parents, p, ancestor, rank[p] + 1, rank[child]);
    }
    assert(walk(nodes, parents, p, ancestor, rank[child]));
}

/// Under a rank witness, any successful walk already succeeds with fuel
/// `count`.
proof fn lemma_walk_rank_bound(
    nodes: Map<NodeIdView, NodeClass>,
    parents: Map<NodeIdView, NodeIdView>,
    rank: Map<NodeIdView, nat>,
    count: nat,
    child: NodeIdView,
    ancestor: NodeIdView,
    f: nat,
)
    requires
        acyclic_ranked(nodes, parents, rank, count),
        walk(nodes, parents, child, ancestor, f),
    ensures
        walk(nodes, parents, child, ancestor, count),
{
    if child != ancestor {
        lemma_walk_rank_tight(nodes, parents, rank, count, child, ancestor, f);
        assert(steppable(nodes, parents, child));
        assert(rank[child] < count);
        lemma_walk_monotone(nodes, parents, child, ancestor, rank[child] + 1, count);
    }
}

/// The type tree: node classes, supertype edges, type properties and the
/// namespace map.
#[derive(Debug)]
pub struct DefaultTypeTree {
    /// Registered type nodes and their classes.
    pub nodes: Vec<(NodeId, NodeClass)>,
    /// The supertype of each type node: child to parent.
    pub subtypes_by_target: Vec<(NodeId, NodeId)>,
    /// Registered type properties.
    pub properties: Vec<PropertyEntry>,
    /// The namespace map.
    pub namespaces: NamespaceMap,
}

impl DefaultTypeTree {
    /// The classes of the registered type nodes.
    pub open spec fn nodes_map(self) -> Map<NodeIdView, NodeClass> {
        entries_map(self.nodes@)
    }

    /// The supertype of each registered type node.
    pub open spec fn parents_map(self) -> Map<NodeIdView, NodeIdView> {
        entries_map(self.subtypes_by_target@)
    }

    /// The registered properties.
    pub open spec fn props(self) -> Seq<PropertyEntryView> {
        Seq::new(self.properties@.len(), |i: int| self.properties@[i]@)
    }

    /// The namespace map.
    pub open spec fn spec_namespaces(self) -> Seq<Seq<char>> {
        self.namespaces@
    }

    /// The association vectors carry pairwise-distinct keys.
    pub open spec fn wf(self) -> bool {
        distinct_keys(self.nodes@) && distinct_keys(self.subtypes_by_target@)
    }

    /// The walk bound: every acyclic chain fits within the node count.
    pub open spec fn fuel(self) -> nat {
        self.nodes@.len()
    }

    /// `child` is a subtype of `ancestor`: equal, or connected upward by
    /// supertype edges through present type nodes, within the walk bound.
    pub open spec fn spec_is_subtype_of(self, child: NodeIdView, ancestor: NodeIdView) -> bool {
        walk(self.nodes_map(), self.parents_map(), child, ancestor, self.fuel())
    }
}

/// The mathematical image of a browse path.
pub open spec fn path_view(s: Seq<QualifiedName>) -> Seq<QualifiedNameView> {
    Seq::new(s.len(), |i: int| s[i]@)
}

/// Whether two browse paths hold the same names.
pub fn paths_equal(a: &Vec<QualifiedName>, b: &Vec<QualifiedName>) -> (r: bool)
    ensures
        r == (path_view(a@) == path_view(b@)),
{
    if a.len() != b.len() {
        proof {
            assert(path_view(a@).len() != path_view(b@).len());
        }
        return false;
    }
    let mut i: usize = 0;
    while i < a.len()
        invariant
            i <= a@.len(),
            a@.len() == b@.len(),
            forall|j: int| 0 <= j < i ==> a@[j]@ == b@[j]@,
        decreases a@.len() - i,
    {
        if !a[i].same(&b[i]) {
            proof {
                assert(path_view(a@)[i as int] != path_view(b@)[i as int]);
            }
            return false;
        }
        i += 1;
    }
    proof {
        assert(path_view(a@) =~= path_view(b@));
    }
    true
}

/// An identical copy of a browse path.
pub fn duplicate_path(a: &Vec<QualifiedName>) -> (r: Vec<QualifiedName>)
    ensures
        path_view(r@) == path_view(a@),
{
    let mut out: Vec<QualifiedName> = Vec::new();
    let mut i: usize = 0;
    while i < a.len()
        invariant
            i <= a@.len(),
            out@.len() == i,
            forall|j: int| 0 <= j < i ==> out@[j]@ == a@[j]@,
        decreases a@.len() - i,
    {
        out.push(a[i].duplicate());
        i += 1;
    }
    proof {
        assert(path_view(out@) =~= path_view(a@));
    }
    out
}

/// The first registered property of `type_id` under `path`.
pub open spec fn find_prop(
    s: Seq<PropertyEntryView>,
    type_id: NodeIdView,
    path: Seq<QualifiedNameView>,
) -> Option<TypePropertyView>
    decreases s.len(),
{
    if s.len() == 0 {
        None
    } else if s[0].type_id == type_id && s[0].path == path {
        Some(TypePropertyView { node_id: s[0].prop_id, node_class: s[0].node_class })
    } else {
        find_prop(s.drop_first(), type_id, path)
    }
}

/// The first registered property entry with the given property id.
pub open spec fn find_inverse(s: Seq<PropertyEntryView>, prop_id: NodeIdView) -> Option<
    PropertyEntryView,
>
    decreases s.len(),
{
    if s.len() == 0 {
        None
    } else if s[0].prop_id == prop_id {
        Some(s[0])
    } else {
        find_inverse(s.drop_first(), prop_id)
    }
}

/// A downward reach that succeeds with some fuel succeeds with more.
pub proof fn lemma_down_monotone(
    parents: Map<NodeIdView, NodeIdView>,
    x: NodeIdView,
    root: NodeIdView,
    f: nat,
    g: nat,
)
    requires
        down(parents, x, root, f),
        f <= g,
    ensures
        down(parents, x, root, g),
    decreases f,
{
    if x != root {
        lemma_down_monotone(parents, parents[x], root, (f - 1) as nat, (g - 1) as nat);
    }
}

/// A rank function witnessing acyclicity of the supertype edges: along every
/// edge the rank strictly drops, and every child ranks below `count`.
pub open spec fn parents_ranked(
    parents: Map<NodeIdView, NodeIdView>,
    rank: Map<NodeIdView, nat>,
    count: nat,
) -> bool {
    forall|n: NodeIdView|
        #[trigger] parents.contains_key(n) ==> rank[n] < count && (parents.contains_key(parents[n])
            ==> rank[parents[n]] < rank[n])
}

/// The supertype edges are acyclic: some rank function bounded by `count`
/// witnesses it.
pub open spec fn parents_acyclic(parents: Map<NodeIdView, NodeIdView>, count: nat) -> bool {
    exists|rank: Map<NodeIdView, nat>| parents_ranked(parents, rank, count)
}

/// Under a rank witness, a downward reach from a node succeeds within one
/// more step than the node's rank.
proof fn lemma_down_rank_tight(
    parents: Map<NodeIdView, NodeIdView>,
    rank: Map<NodeIdView, nat>,
    count: nat,
    x: NodeIdView,
    root: NodeIdView,
    f: nat,
)
    requires
        parents_ranked(parents, rank, count),
        down(parents, x, root, f),
        x != root,
    ensures
        down(parents, x, root, rank[x] + 1),
    decreases f,
{
    let p = parents[x];
    assert(parents.contains_key(x));
    assert(down(parents, p, root, (f - 1) as nat));
    if p != root {
        lemma_down_rank_tight(parents, rank, count, p, root, (f - 1) as nat);
        assert(parents.contains_key(p));
        assert(rank[p] < rank[x]);
        lemma_down_monotone(parents, p, root, rank[p] + 1, rank[x]);
    }
    assert(down(parents, p, root, rank[x]));
}

/// On an acyclic lattice any successful downward reach already succeeds
/// within the edge bound: the bound of [`DefaultTypeTree::get_all_children`]
/// never cuts a chain short.
pub proof fn lemma_down_within_bound(
    parents: Map<NodeIdView, NodeIdView>,
    count: nat,
    x: NodeIdView,
    root: NodeIdView,
    f: nat,
)
    requires
        parents_acyclic(parents, count),
        down(parents, x, root, f),
    ensures
        down(parents, x, root, count),
{
    if x != root {
        let rank = choose|rank: Map<NodeIdView, nat>| parents_ranked(parents, rank, count);
        lemma_down_rank_tight(parents, rank, count, x, root, f);
        assert(parents.contains_key(x));
        assert(rank[x] < count);
        lemma_down_monotone(parents, x, root, rank[x] + 1, count);
    }
}

/// The property entries kept when a type is removed: those of other types.
pub open spec fn not_of_type(id: NodeIdView) -> spec_fn(PropertyEntryView) -> bool {
    |e: PropertyEntryView| e.type_id != id
}

/// The property entries kept when a property is removed: the other
/// properties.
pub open spec fn not_prop(id: NodeIdView) -> spec_fn(PropertyEntryView) -> bool {
    |e: PropertyEntryView| e.prop_id != id
}

/// The property entries kept when a registration is replaced: those of other
/// properties under other (type, browse-path) keys.
pub open spec fn keeps_registration(
    prop_id: NodeIdView,
    type_id: NodeIdView,
    path: Seq<QualifiedNameView>,
) -> spec_fn(PropertyEntryView) -> bool {
    |e: PropertyEntryView| e.prop_id != prop_id && !(e.type_id == type_id && e.path == path)
}

/// The downward reach: `x` is `root` or connected to it by a chain of
/// supertype edges of length at most `fuel`.
pub open spec fn down(
    parents: Map<NodeIdView, NodeIdView>,
    x: NodeIdView,
    root: NodeIdView,
    fuel: nat,
) -> bool
    decreases fuel,
{
    x == root || (fuel > 0 && parents.contains_key(x) && down(
        parents,
        parents[x],
        root,
        (fuel - 1) as nat,
    ))
}

/// `x` descends from `root`: some chain of supertype edges connects them.
pub open spec fn descends(parents: Map<NodeIdView, NodeIdView>, x: NodeIdView, root: NodeIdView) -> bool {
    exists|f: nat| down(parents, x, root, f)
}

/// A fresh entry pushed behind non-matching entries is what the browse-path
/// lookup finds.
proof fn lemma_find_prop_push_fresh(s: Seq<PropertyEntryView>, e: PropertyEntryView)
    requires
        forall|i: int|
            0 <= i < s.len() ==> !((#[trigger] s[i]).type_id == e.type_id && s[i].path == e.path),
    ensures
        find_prop(s.push(e), e.type_id, e.path) == Some(
            TypePropertyView { node_id: e.prop_id, node_class: e.node_class },
        ),
    decreases s.len(),
{
    if s.len() == 0 {
        assert(s.push(e)[0] == e);
    } else {
        assert(s.push(e)[0] == s[0]);
        assert(s.push(e).drop_first() =~= s.drop_first().push(e));
        assert forall|i: int|
            0 <= i < s.drop_first().len() implies !((#[trigger] s.drop_first()[i]).type_id
            == e.type_id && s.drop_first()[i].path == e.path) by {
            assert(s.drop_first()[i] == s[i + 1]);
        }
        lemma_find_prop_push_fresh(s.drop_first(), e);
    }
}

/// A fresh entry pushed behind non-matching entries is what the inverse
/// lookup finds.
proof fn lemma_find_inverse_push_fresh(s: Seq<PropertyEntryView>, e: PropertyEntryView)
    requires
        forall|i: int| 0 <= i < s.len() ==> (#[trigger] s[i]).prop_id != e.prop_id,
    ensures
        find_inverse(s.push(e), e.prop_id) == Some(e),
    decreases s.len(),
{
    if s.len() == 0 {
        assert(s.push(e)[0] == e);
    } else {
        assert(s.push(e)[0] == s[0]);
        assert(s.push(e).drop_first() =~= s.drop_first().push(e));
        assert forall|i: int|
            0 <= i < s.drop_first().len() implies (#[trigger] s.drop_first()[i]).prop_id
            != e.prop_id by {
            assert(s.drop_first()[i] == s[i + 1]);
        }
        lemma_find_inverse_push_fresh(s.drop_first(), e);
    }
}

/// The re-registration law: right after a property is registered, both the
/// browse-path lookup under its (type, path) key and the inverse lookup under
/// its id yield exactly that registration, whatever was registered before.
pub proof fn lemma_registration_found(
    pre: Seq<PropertyEntryView>,
    post: Seq<PropertyEntryView>,
    e: PropertyEntryView,
)
    requires
        post == pre.filter(keeps_registration(e.prop_id, e.type_id, e.path)).push(e),
    ensures
        find_prop(post, e.type_id, e.path) == Some(
            TypePropertyView { node_id: e.prop_id, node_class: e.node_class },
        ),
        find_inverse(post, e.prop_id) == Some(e),
{
    let pred = keeps_registration(e.prop_id, e.type_id, e.path);
    let kept = pre.filter(pred);
    assert forall|i: int| 0 <= i < kept.len() implies pred(#[trigger] kept[i]) by {
        pre.lemma_filter_pred(pred, i);
    }
    lemma_find_prop_push_fresh(kept, e);
    lemma_find_inverse_push_fresh(kept, e);
}

/// A reference to a node in the type tree: a registered type, or a property
/// of one.
#[derive(Clone, Debug)]
pub enum TypeTreeNode {
    /// A registered type.
    Type(NodeClass),
    /// A property of a type: the type it belongs to and the path to it.
    Property(TypePropertyInverseRef),
}

impl DefaultTypeTree {
    /// A type tree holding only the four root types of the base namespace.
    pub fn new() -> (r: DefaultTypeTree)
        ensures
            r.wf(),
            r.nodes_map() == Map::<NodeIdView, NodeClass>::empty().insert(
                NodeIdView { namespace: 0, identifier: crate::node_id::IdentifierView::Numeric(58) },
                NodeClass::ObjectType,
            ).insert(
                NodeIdView { namespace: 0, identifier: crate::node_id::IdentifierView::Numeric(31) },
                NodeClass::ReferenceType,
            ).insert(
                NodeIdView { namespace: 0, identifier: crate::node_id::IdentifierView::Numeric(62) },
                NodeClass::VariableType,
            ).insert(
                NodeIdView { namespace: 0, identifier: crate::node_id::IdentifierView::Numeric(24) },
                NodeClass::DataType,
            ),
            r.parents_map() == Map::<NodeIdView, NodeIdView>::empty(),
            r.props().len() == 0,
            r.spec_namespaces().len() == 1,
            r.spec_namespaces()[0] == "http://opcfoundation.org/UA/"@,
    {
        let mut tree = DefaultTypeTree {
            nodes: Vec::new(),
            subtypes_by_target: Vec::new(),
            properties: Vec::new(),
            namespaces: NamespaceMap::new(),
        };
        let uri = String::from_str("http://opcfoundation.org/UA/");
        tree.namespaces.add_namespace(uri);
        assoc_insert(&mut tree.nodes, NodeId::new_numeric(0, 58), NodeClass::ObjectType);
        assoc_insert(&mut tree.nodes, NodeId::new_numeric(0, 31), NodeClass::ReferenceType);
        assoc_insert(&mut tree.nodes, NodeId::new_numeric(0, 62), NodeClass::VariableType);
        assoc_insert(&mut tree.nodes, NodeId::new_numeric(0, 24), NodeClass::DataType);
        tree
    }

    /// Register a type under its supertype.
    pub fn add_type_node(&mut self, id: &NodeId, parent: &NodeId, node_class: NodeClass)
        requires
            old(self).wf(),
        ensures
            final (self).wf(),
            final (self).nodes_map() == old(self).nodes_map().insert(id@, node_class),
            final (self).parents_map() == old(self).parents_map().insert(id@, parent@),
            final (self).props() == old(self).props(),
            final (self).spec_namespaces() == old(self).spec_namespaces(),
    {
        assoc_insert(&mut self.nodes, id.duplicate(), node_class);
        assoc_insert(&mut self.subtypes_by_target, id.duplicate(), parent.duplicate());
    }

    /// Register a property of a type under its browse path. Registering the
    /// same property id, or the same (type, browse-path) key, again replaces
    /// the earlier registration.
    pub fn add_type_property(
        &mut self,
        id: &NodeId,
        typ: &NodeId,
        path: &Vec<QualifiedName>,
        node_class: NodeClass,
    )
        requires
            old(self).wf(),
        ensures
            final (self).wf(),
            final (self).nodes_map() == old(self).nodes_map(),
            final (self).parents_map() == old(self).parents_map(),
            final (self).props() == old(self).props().filter(
                keeps_registration(id@, typ@, path_view(path@)),
            ).push(
                PropertyEntryView {
                    prop_id: id@,
                    type_id: typ@,
                    path: path_view(path@),
                    node_class,
                },
            ),
            final (self).spec_namespaces() == old(self).spec_namespaces(),
    {
        self.retain_props_excluding_registration(id, typ, path);
        let entry = PropertyEntry {
            prop_id: id.duplicate(),
            type_id: typ.duplicate(),
            path: duplicate_path(path),
            node_class,
        };
        let ghost purged = self.props();
        self.properties.push(entry);
        proof {
            assert(final (self).props() =~= purged.push(
                PropertyEntryView {
                    prop_id: id@,
                    type_id: typ@,
                    path: path_view(path@),
                    node_class,
                },
            ));
        }
    }

    /// Drop the entries an incoming registration replaces: the same property
    /// id, or the same (type, browse-path) key.
    fn retain_props_excluding_registration(
        &mut self,
        id: &NodeId,
        typ: &NodeId,
        path: &Vec<QualifiedName>,
    )
        ensures
            final (self).nodes == old(self).nodes,
            final (self).subtypes_by_target == old(self).subtypes_by_target,
            final (self).namespaces == old(self).namespaces,
            final (self).props() == old(self).props().filter(
                keeps_registration(id@, typ@, path_view(path@)),
            ),
    {
        let ghost pred: spec_fn(PropertyEntryView) -> bool = keeps_registration(
            id@,
            typ@,
            path_view(path@),
        );
        let mut kept: Vec<PropertyEntry> = Vec::new();
        let mut i: usize = 0;
        while i < self.properties.len()
            invariant
                i <= self.properties@.len(),
                pred == keeps_registration(id@, typ@, path_view(path@)),
                Seq::new(kept@.len(), |j: int| kept@[j]@) == Seq::new(
                    i as nat,
                    |j: int| self.properties@[j]@,
                ).filter(pred),
            decreases self.properties@.len() - i,
        {
            let ghost prefix = Seq::new(i as nat, |j: int| self.properties@[j]@);
            let e = &self.properties[i];
            let keep = !e.prop_id.same(id) && !(e.type_id.same(typ) && paths_equal(&e.path, path));
            proof {
                assert(keep == pred(self.properties@[i as int]@));
                assert(Seq::new((i + 1) as nat, |j: int| self.properties@[j]@) =~= prefix.push(
                    self.properties@[i as int]@,
                ));
                prefix.lemma_filter_push(self.properties@[i as int]@, pred);
            }
            if keep {
                kept.push(
                    PropertyEntry {
                        prop_id: e.prop_id.duplicate(),
                        type_id: e.type_id.duplicate(),
                        path: duplicate_path(&e.path),
                        node_class: e.node_class,
                    },
                );
                proof {
                    assert(Seq::new(kept@.len(), |j: int| kept@[j]@) =~= prefix.filter(pred).push(
                        self.properties@[i as int]@,
                    ));
                }
            }
            i += 1;
            proof {
                assert(Seq::new(kept@.len(), |j: int| kept@[j]@) =~= Seq::new(
                    i as nat,
                    |j: int| self.properties@[j]@,
                ).filter(pred));
            }
        }
        self.properties = kept;
        proof {
            assert(Seq::new(old(self).properties@.len(), |j: int| old(self).properties@[j]@)
                =~= old(self).props());
        }
    }

    /// The class of a registered type.
    pub fn get(&self, node: &NodeId) -> (r: Option<NodeClass>)
        requires
            self.wf(),
        ensures
            r == if self.nodes_map().contains_key(node@) {
                Some(self.nodes_map()[node@])
            } else {
                None::<NodeClass>
            },
    {
        match assoc_get(&self.nodes, node) {
            Some(c) => Some(*c),
            None => None,
        }
    }

    /// The supertype of a registered type.
    pub fn get_supertype(&self, node: &NodeId) -> (r: Option<NodeId>)
        requires
            self.wf(),
        ensures
            match r {
                Some(p) => self.parents_map().contains_key(node@) && p@ == self.parents_map().index(
                    node@,
                ),
                None => !self.parents_map().contains_key(node@),
            },
    {
        match assoc_get(&self.subtypes_by_target, node) {
            Some(p) => Some(p.duplicate()),
            None => None,
        }
    }

    /// A registered type, or a property of one.
    pub fn get_node(&self, node: &NodeId) -> (r: Option<TypeTreeNode>)
        requires
            self.wf(),
        ensures
            self.nodes_map().contains_key(node@) ==> (r matches Some(n) && n matches
                TypeTreeNode::Type(c) && c == self.nodes_map()[node@]),
            (!self.nodes_map().contains_key(node@) && find_inverse(self.props(), node@) is Some)
                ==> (r matches Some(n) && n matches TypeTreeNode::Property(p) && {
                let e = find_inverse(self.props(), node@)->0;
                p.type_id@ == e.type_id && path_view(p.path@) == e.path
            }),
            (!self.nodes_map().contains_key(node@) && find_inverse(self.props(), node@) is None)
                ==> r is None,
    {
        if let Some(c) = assoc_get(&self.nodes, node) {
            proof {
                assert(*c == self.nodes_map()[node@]);
            }
            return Some(TypeTreeNode::Type(*c));
        }
        proof {
            assert(self.props().skip(0) =~= self.props());
        }
        let mut i: usize = 0;
        while i < self.properties.len()
            invariant
                i <= self.properties@.len(),
                !self.nodes_map().contains_key(node@),
                forall|j: int| 0 <= j < i ==> (#[trigger] self.properties@[j])@.prop_id != node@,
                find_inverse(self.props(), node@) == find_inverse(
                    self.props().skip(i as int),
                    node@,
                ),
            decreases self.properties@.len() - i,
        {
            proof {
                assert(self.props().skip(i as int)[0] == self.properties@[i as int]@);
            }
            if self.properties[i].prop_id.same(node) {
                let e = &self.properties[i];
                return Some(
                    TypeTreeNode::Property(
                        TypePropertyInverseRef {
                            type_id: e.type_id.duplicate(),
                            path: duplicate_path(&e.path),
                        },
                    ),
                );
            }
            proof {
                assert(self.props().skip(i as int).drop_first() =~= self.props().skip(i + 1));
            }
            i += 1;
        }
        proof {
            assert(self.props().skip(i as int).len() == 0);
        }
        None
    }

    /// The first property of `type_id` reachable under `path`.
    pub fn find_type_prop_by_browse_path(
        &self,
        type_id: &NodeId,
        path: &Vec<QualifiedName>,
    ) -> (r: Option<TypeProperty>)
        requires
            self.wf(),
        ensures
            match r {
                Some(p) => find_prop(self.props(), type_id@, path_view(path@)) == Some(p@),
                None => find_prop(self.props(), type_id@, path_view(path@)) is None,
            },
    {
        proof {
            assert(self.props().skip(0) =~= self.props());
        }
        let mut i: usize = 0;
        while i < self.properties.len()
            invariant
                i <= self.properties@.len(),
                find_prop(self.props(), type_id@, path_view(path@)) == find_prop(
                    self.props().skip(i as int),
                    type_id@,
                    path_view(path@),
                ),
            decreases self.properties@.len() - i,
        {
            proof {
                assert(self.props().skip(i as int)[0] == self.properties@[i as int]@);
            }
            let e = &self.properties[i];
            if e.type_id.same(type_id) && paths_equal(&e.path, path) {
                return Some(
                    TypeProperty { node_id: e.prop_id.duplicate(), node_class: e.node_class },
                );
            }
            proof {
                assert(self.props().skip(i as int).drop_first() =~= self.props().skip(i + 1));
            }
            i += 1;
        }
        proof {
            assert(self.props().skip(i as int).len() == 0);
        }
        None
    }

    /// Whether `child` is a subtype of `ancestor`: the same node, or
    /// connected to it upward along supertype edges through present type
    /// nodes. The walk is bounded by the node count, which on an acyclic
    /// lattice never cuts a chain short.
    pub fn is_subtype_of(&self, child: &NodeId, ancestor: &NodeId) -> (r: bool)
        requires
            self.wf(),
        ensures
            r == self.spec_is_subtype_of(child@, ancestor@),
    {
        let mut cur: NodeId = child.duplicate();
        let mut rem: usize = self.nodes.len();
        loop
            invariant
                self.wf(),
                rem <= self.fuel(),
                walk(self.nodes_map(), self.parents_map(), child@, ancestor@, self.fuel()) == walk(
                    self.nodes_map(),
                    self.parents_map(),
                    cur@,
                    ancestor@,
                    rem as nat,
                ),
            decreases rem,
        {
            if cur.same(ancestor) {
                return true;
            }
            if rem == 0 {
                return false;
            }
            let class = match assoc_get(&self.nodes, &cur) {
                Some(c) => *c,
                None => {
                    return false;
                },
            };
            if !class.is_type_class() {
                return false;
            }
            let parent = match assoc_get(&self.subtypes_by_target, &cur) {
                Some(p) => p.duplicate(),
                None => {
                    return false;
                },
            };
            cur = parent;
            rem = rem - 1;
        }
    }

    /// Remove a node: a type with its supertype edge and properties, or a
    /// single property. Says whether anything was removed.
    pub fn remove(&mut self, node_id: &NodeId) -> (r: bool)
        requires
            old(self).wf(),
        ensures
            final (self).wf(),
            final (self).spec_namespaces() == old(self).spec_namespaces(),
            old(self).nodes_map().contains_key(node_id@) ==> r
                && final (self).nodes_map() == old(self).nodes_map().remove(node_id@)
                && final (self).parents_map() == old(self).parents_map().remove(node_id@)
                && final (self).props() == old(self).props().filter(not_of_type(node_id@)),
            !old(self).nodes_map().contains_key(node_id@)
                ==> final (self).nodes_map() == old(self).nodes_map()
                && final (self).parents_map() == old(self).parents_map()
                && final (self).props() == old(self).props().filter(not_prop(node_id@))
                && r == (find_inverse(old(self).props(), node_id@) is Some),
    {
        let was_node = assoc_remove(&mut self.nodes, node_id);
        if was_node {
            assoc_remove(&mut self.subtypes_by_target, node_id);
            self.retain_props_except(node_id, true);
            true
        } else {
            let had_prop = self.find_prop_id(node_id);
            self.retain_props_except(node_id, false);
            had_prop
        }
    }

    /// Whether any property entry carries the given property id.
    fn find_prop_id(&self, node_id: &NodeId) -> (r: bool)
        ensures
            r == (find_inverse(self.props(), node_id@) is Some),
    {
        proof {
            assert(self.props().skip(0) =~= self.props());
        }
        let mut i: usize = 0;
        while i < self.properties.len()
            invariant
                i <= self.properties@.len(),
                find_inverse(self.props(), node_id@) == find_inverse(
                    self.props().skip(i as int),
                    node_id@,
                ),
            decreases self.properties@.len() - i,
        {
            proof {
                assert(self.props().skip(i as int)[0] == self.properties@[i as int]@);
            }
            if self.properties[i].prop_id.same(node_id) {
                return true;
            }
            proof {
                assert(self.props().skip(i as int).drop_first() =~= self.props().skip(i + 1));
            }
            i += 1;
        }
        proof {
            assert(self.props().skip(i as int).len() == 0);
        }
        false
    }

    /// Keep only the property entries that do not refer to `node_id`: by
    /// owning type when `by_type`, else by property id.
    fn retain_props_except(&mut self, node_id: &NodeId, by_type: bool)
        ensures
            final (self).nodes == old(self).nodes,
            final (self).subtypes_by_target == old(self).subtypes_by_target,
            final (self).namespaces == old(self).namespaces,
            by_type ==> final (self).props() == old(self).props().filter(not_of_type(node_id@)),
            !by_type ==> final (self).props() == old(self).props().filter(not_prop(node_id@)),
    {
        let ghost pred: spec_fn(PropertyEntryView) -> bool = if by_type {
            not_of_type(node_id@)
        } else {
            not_prop(node_id@)
        };
        let mut kept: Vec<PropertyEntry> = Vec::new();
        let mut i: usize = 0;
        while i < self.properties.len()
            invariant
                i <= self.properties@.len(),
                Seq::new(kept@.len(), |j: int| kept@[j]@) == Seq::new(
                    i as nat,
                    |j: int| self.properties@[j]@,
                ).filter(pred),
                by_type ==> pred == not_of_type(node_id@),
                !by_type ==> pred == not_prop(node_id@),
            decreases self.properties@.len() - i,
        {
            let ghost prefix = Seq::new(i as nat, |j: int| self.properties@[j]@);
            let e = &self.properties[i];
            let keep = if by_type {
                !e.type_id.same(node_id)
            } else {
                !e.prop_id.same(node_id)
            };
            proof {
                assert(keep == pred(self.properties@[i as int]@));
                assert(Seq::new((i + 1) as nat, |j: int| self.properties@[j]@) =~= prefix.push(
                    self.properties@[i as int]@,
                ));
                prefix.lemma_filter_push(self.properties@[i as int]@, pred);
            }
            if keep {
                kept.push(
                    PropertyEntry {
                        prop_id: e.prop_id.duplicate(),
                        type_id: e.type_id.duplicate(),
                        path: duplicate_path(&e.path),
                        node_class: e.node_class,
                    },
                );
                proof {
                    assert(Seq::new(kept@.len(), |j: int| kept@[j]@) =~= prefix.filter(pred).push(
                        self.properties@[i as int]@,
                    ));
                }
            }
            i += 1;
            proof {
                assert(Seq::new(kept@.len(), |j: int| kept@[j]@) =~= Seq::new(
                    i as nat,
                    |j: int| self.properties@[j]@,
                ).filter(pred));
            }
        }
        self.properties = kept;
        proof {
            assert(Seq::new(old(self).properties@.len(), |j: int| old(self).properties@[j]@)
                =~= old(self).props());
        }
    }

    /// The walk bound for downward reach: one step per registered edge.
    pub open spec fn edge_fuel(self) -> nat {
        self.subtypes_by_target@.len()
    }

    /// Whether `x` reaches `root` along supertype edges within the edge
    /// bound.
    fn reaches_root(&self, x: &NodeId, root: &NodeId) -> (r: bool)
        requires
            self.wf(),
        ensures
            r == down(self.parents_map(), x@, root@, self.edge_fuel()),
    {
        let mut cur: NodeId = x.duplicate();
        let mut rem: usize = self.subtypes_by_target.len();
        loop
            invariant
                self.wf(),
                rem <= self.edge_fuel(),
                down(self.parents_map(), x@, root@, self.edge_fuel()) == down(
                    self.parents_map(),
                    cur@,
                    root@,
                    rem as nat,
                ),
            decreases rem,
        {
            if cur.same(root) {
                return true;
            }
            if rem == 0 {
                return false;
            }
            let parent = match assoc_get(&self.subtypes_by_target, &cur) {
                Some(p) => p.duplicate(),
                None => {
                    return false;
                },
            };
            cur = parent;
            rem = rem - 1;
        }
    }

    /// All descendants of `root`: the root first, then every registered node
    /// whose supertype chain reaches the root within the edge bound, each
    /// exactly once. On an acyclic lattice the bound never cuts a chain
    /// short ([`lemma_down_within_bound`]), so this is every descendant.
    pub fn get_all_children(&self, root: &NodeId) -> (r: Vec<NodeId>)
        requires
            self.wf(),
        ensures
            r@.len() >= 1,
            r@[0]@ == root@,
            forall|i: int|
                0 <= i < r@.len() ==> down(
                    self.parents_map(),
                    (#[trigger] r@[i])@,
                    root@,
                    self.edge_fuel(),
                ),
            forall|i: int, j: int| 0 <= i < j < r@.len() ==> (#[trigger] r@[i])@ != (#[trigger] r@[j])@,
            forall|x: NodeIdView|
                (#[trigger] self.parents_map().contains_key(x) && x != root@ && down(
                    self.parents_map(),
                    x,
                    root@,
                    self.edge_fuel(),
                )) ==> exists|i: int| 0 <= i < r@.len() && (#[trigger] r@[i])@ == x,
    {
        let mut res: Vec<NodeId> = Vec::new();
        res.push(root.duplicate());
        let mut j: usize = 0;
        while j < self.subtypes_by_target.len()
            invariant
                self.wf(),
                j <= self.subtypes_by_target@.len(),
                res@.len() >= 1,
                res@[0]@ == root@,
                forall|i: int|
                    0 <= i < res@.len() ==> down(
                        self.parents_map(),
                        (#[trigger] res@[i])@,
                        root@,
                        self.edge_fuel(),
                    ),
                forall|i: int|
                    1 <= i < res@.len() ==> (#[trigger] res@[i])@ != root@ && exists|t: int|
                        0 <= t < j && (#[trigger] self.subtypes_by_target@[t]).0@ == res@[i]@,
                forall|i: int, k: int|
                    0 <= i < k < res@.len() ==> (#[trigger] res@[i])@ != (#[trigger] res@[k])@,
                forall|t: int|
                    (0 <= t < j && (#[trigger] self.subtypes_by_target@[t]).0@ != root@ && down(
                        self.parents_map(),
                        self.subtypes_by_target@[t].0@,
                        root@,
                        self.edge_fuel(),
                    )) ==> exists|i: int|
                        0 <= i < res@.len() && (#[trigger] res@[i])@
                            == self.subtypes_by_target@[t].0@,
            decreases self.subtypes_by_target@.len() - j,
        {
            let c = &self.subtypes_by_target[j].0;
            let ghost res0 = res@;
            let pushed = !c.same(root) && self.reaches_root(c, root);
            if pushed {
                proof {
                    assert forall|i: int|
                        0 <= i < res@.len() implies (#[trigger] res@[i])@ != c@ by {
                        if i >= 1 {
                            let t = choose|t: int|
                                0 <= t < j && (#[trigger] self.subtypes_by_target@[t]).0@
                                    == res@[i]@;
                            assert(self.subtypes_by_target@[t].0@
                                != self.subtypes_by_target@[j as int].0@);
                        }
                    }
                }
                res.push(c.duplicate());
            }
            proof {
                assert forall|t: int|
                    (0 <= t < j + 1 && (#[trigger] self.subtypes_by_target@[t]).0@ != root@
                        && down(
                        self.parents_map(),
                        self.subtypes_by_target@[t].0@,
                        root@,
                        self.edge_fuel(),
                    )) implies exists|i: int|
                    0 <= i < res@.len() && (#[trigger] res@[i])@
                        == self.subtypes_by_target@[t].0@ by {
                    if t < j {
                        let i = choose|i: int|
                            0 <= i < res0.len() && (#[trigger] res0[i])@
                                == self.subtypes_by_target@[t].0@;
                        assert(res@[i]@ == self.subtypes_by_target@[t].0@);
                    } else {
                        assert(pushed);
                        assert(res@[res@.len() - 1]@ == self.subtypes_by_target@[j as int].0@);
                    }
                }
            }
            j += 1;
        }
        proof {
            assert forall|x: NodeIdView|
                (#[trigger] self.parents_map().contains_key(x) && x != root@ && down(
                    self.parents_map(),
                    x,
                    root@,
                    self.edge_fuel(),
                )) implies exists|i: int| 0 <= i < res@.len() && (#[trigger] res@[i])@ == x by {
                lemma_entries_map_contains_index(self.subtypes_by_target@, x);
            }
        }
        res
    }

    /// A mutable reference to the namespace map.
    pub fn namespaces_mut(&mut self) -> (r: &mut NamespaceMap)
        ensures
            *r == old(self).namespaces,
            *final (self) == (DefaultTypeTree { namespaces: *final (r), ..*old(self) }),
    {
        &mut self.namespaces
    }

    /// The namespace map.
    pub fn namespaces(&self) -> (r: &NamespaceMap)
        ensures
            r == self.namespaces,
    {
        &self.namespaces
    }
}

/// Every node is a subtype of itself, present or not.
pub proof fn lemma_subtype_reflexive(t: DefaultTypeTree, n: NodeIdView)
    ensures
        t.spec_is_subtype_of(n, n),
{
}

/// On an acyclic lattice the subtype relation is transitive: the walk bound
/// is never what stops a chain.
pub proof fn lemma_subtype_transitive(
    t: DefaultTypeTree,
    a: NodeIdView,
    b: NodeIdView,
    c: NodeIdView,
)
    requires
        acyclic(t.nodes_map(), t.parents_map(), t.fuel()),
        t.spec_is_subtype_of(a, b),
        t.spec_is_subtype_of(b, c),
    ensures
        t.spec_is_subtype_of(a, c),
{
    let rank = choose|rank: Map<NodeIdView, nat>|
        acyclic_ranked(t.nodes_map(), t.parents_map(), rank, t.fuel());
    lemma_walk_trans(t.nodes_map(), t.parents_map(), a, b, c, t.fuel(), t.fuel());
    lemma_walk_rank_bound(
        t.nodes_map(),
        t.parents_map(),
        rank,
        t.fuel(),
        a,
        c,
        t.fuel() + t.fuel(),
    );
}

} // verus!
