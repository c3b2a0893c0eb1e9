//! The graph of bullets that a spell creates, and how it is built.
use vstd::prelude::*;

use crate::csv_io::{bullet_table, find_atk_param_pc, find_bullet, find_magic, lookup, atk_param_table, magic_table, error_is, LookupFailure, ParamTables};
use crate::error::AppError;
use crate::models::{AtkParamPc, Bullet, Magic};
use crate::records::SearchField;
use crate::text::{nat_text, push_usize};

verus! {

broadcast use {vstd::seq::axiom_seq_index_decreases, vstd::seq::axiom_seq_subrange_decreases};

/// How a bullet came to be created.
#[derive(Debug, Clone, Copy, PartialEq, Eq, Structural)]
pub enum BulletRelation {
    /// The spell names the bullet in its reference slot `reference_index` (counted from 1).
    MagicReference { reference_index: usize },
    /// The parent bullet emits it at intervals.
    IntervalEmitter,
    /// The parent bullet creates it when it hits.
    HitBullet,
}

/// The attack parameters of a bullet.
#[derive(Debug)]
pub struct AtkParamNode {
    pub id: i64,
    pub value: AtkParamPc,
}

impl Clone for AtkParamNode {
    fn clone(&self) -> (r: Self)
        ensures
            r == *self,
    {
        AtkParamNode { id: self.id, value: self.value.clone() }
    }
}

/// A bullet and what it creates. A node that closes a cycle carries only its id.
#[derive(Debug)]
pub struct BulletNode {
    pub id: i64,
    pub value: Option<Bullet>,
    pub atk_param: Option<AtkParamNode>,
    pub cons_type: Option<i64>,
    pub children: Vec<BulletEdge>,
    pub is_cycle: bool,
}

/// A bullet together with how its parent created it.
#[derive(Debug)]
pub struct BulletEdge {
    pub relation: BulletRelation,
    pub child: BulletNode,
}

/// A spell and the bullets that its references create.
#[derive(Debug)]
pub struct MagicGraph {
    pub magic: Magic,
    pub bullets: Vec<BulletEdge>,
}

impl BulletNode {
    /// A copy of this node and everything below it.
    fn deep_copy(&self) -> (r: Self)
        ensures
            r@ == self@,
        decreases self,
    {
        let mut children: Vec<BulletEdge> = Vec::new();
        let mut i: usize = 0;
        while i < self.children.len()
            invariant
                i <= self.children@.len(),
                children@.len() == i,
                forall|k: int| 0 <= k < i ==> #[trigger] children@[k]@ == self.children@[k]@,
            decreases self.children@.len() - i,
        {
            proof {
                broadcast use vstd::std_specs::vec::axiom_vec_decreases_to_view;
                assert(decreases_to!(*self => self.children));
                assert(decreases_to!(self.children => self.children@));
                assert(decreases_to!(self.children@ => self.children@[i as int]));
                assert(decreases_to!(self.children@[i as int] => self.children@[i as int].child));
            }
            let child = self.children[i].child.deep_copy();
            children.push(BulletEdge { relation: self.children[i].relation, child });
            i = i + 1;
        }
        proof {
            lemma_edges_view(self.children@);
            lemma_edges_view(children@);
            assert forall|k: int| 0 <= k < children@.len() implies #[trigger] edges_view(children@)[k] == edges_view(self.children@)[k] by {
                assert(children@[k]@ == self.children@[k]@);
            }
            assert(edges_view(children@) =~= edges_view(self.children@));
        }
        BulletNode {
            id: self.id,
            value: match &self.value {
                Some(v) => Some(v.clone()),
                None => None,
            },
            atk_param: match &self.atk_param {
                Some(a) => Some(a.clone()),
                None => None,
            },
            cons_type: self.cons_type,
            children,
            is_cycle: self.is_cycle,
        }
    }
}

impl Clone for BulletNode {
    fn clone(&self) -> (r: Self)
        ensures
            r@ == self@,
    {
        self.deep_copy()
    }
}

impl Clone for BulletEdge {
    fn clone(&self) -> (r: Self)
        ensures
            r@ == self@,
    {
        BulletEdge { relation: self.relation, child: self.child.deep_copy() }
    }
}

impl Clone for MagicGraph {
    fn clone(&self) -> (r: Self)
        ensures
            r@ == self@,
    {
        let mut bullets: Vec<BulletEdge> = Vec::new();
        let mut i: usize = 0;
        while i < self.bullets.len()
            invariant
                i <= self.bullets@.len(),
                bullets@.len() == i,
                forall|k: int| 0 <= k < i ==> #[trigger] bullets@[k]@ == self.bullets@[k]@,
            decreases self.bullets@.len() - i,
        {
            bullets.push(self.bullets[i].clone());
            i = i + 1;
        }
        proof {
            lemma_edges_view(self.bullets@);
            lemma_edges_view(bullets@);
            assert forall|k: int| 0 <= k < bullets@.len() implies #[trigger] edges_view(bullets@)[k] == edges_view(self.bullets@)[k] by {
                assert(bullets@[k]@ == self.bullets@[k]@);
            }
            assert(edges_view(bullets@) =~= edges_view(self.bullets@));
        }
        MagicGraph { magic: self.magic.clone(), bullets }
    }
}

/// The mathematical value of a [`BulletNode`]: its children as a sequence.
pub struct NodeView {
    pub id: i64,
    pub value: Option<Bullet>,
    pub atk_param: Option<AtkParamNode>,
    pub cons_type: Option<i64>,
    pub children: Seq<EdgeView>,
    pub is_cycle: bool,
}

/// The mathematical value of a [`BulletEdge`].
pub struct EdgeView {
    pub relation: BulletRelation,
    pub child: NodeView,
}

/// The mathematical value of a [`MagicGraph`].
pub struct GraphView {
    pub magic: Magic,
    pub bullets: Seq<EdgeView>,
}

pub open spec fn node_view(node: BulletNode) -> NodeView
    decreases node,
{
    NodeView {
        id: node.id,
        value: node.value,
        atk_param: node.atk_param,
        cons_type: node.cons_type,
        children: edges_view(node.children@),
        is_cycle: node.is_cycle,
    }
}

pub open spec fn edges_view(edges: Seq<BulletEdge>) -> Seq<EdgeView>
    decreases edges,
{
    if edges.len() == 0 {
        Seq::empty()
    } else {
        edges_view(edges.drop_last()).push(edge_view(edges.last()))
    }
}

pub open spec fn edge_view(edge: BulletEdge) -> EdgeView
    decreases edge,
{
    EdgeView { relation: edge.relation, child: node_view(edge.child) }
}

impl View for BulletNode {
    type V = NodeView;

    open spec fn view(&self) -> NodeView {
        node_view(*self)
    }
}

impl View for BulletEdge {
    type V = EdgeView;

    open spec fn view(&self) -> EdgeView {
        edge_view(*self)
    }
}

impl View for MagicGraph {
    type V = GraphView;

    open spec fn view(&self) -> GraphView {
        GraphView { magic: self.magic, bullets: edges_view(self.bullets@) }
    }
}

/// The view of a sequence of edges has one element per edge, each the edge's view.
pub proof fn lemma_edges_view(edges: Seq<BulletEdge>)
    ensures
        edges_view(edges).len() == edges.len(),
        forall|i: int| 0 <= i < edges.len() ==> #[trigger] edges_view(edges)[i] == edge_view(edges[i]),
    decreases edges.len(),
{
    if edges.len() > 0 {
        lemma_edges_view(edges.drop_last());
    }
}

/// The text of a relation's label.
pub open spec fn relation_label(relation: BulletRelation) -> Seq<char> {
    match relation {
        BulletRelation::MagicReference { reference_index } => "magic ref_id"@ + nat_text(reference_index as nat),
        BulletRelation::IntervalEmitter => "emits"@,
        BulletRelation::HitBullet => "on hit creates"@,
    }
}

impl BulletRelation {
    /// A short label for the relation.
    pub fn label(self) -> (s: String)
        ensures
            s@ == relation_label(self),
    {
        match self {
            BulletRelation::MagicReference { reference_index } => {
                let mut s = String::new();
                s.append("magic ref_id");
                push_usize(&mut s, reference_index);
                s
            },
            BulletRelation::IntervalEmitter => String::from_str("emits"),
            BulletRelation::HitBullet => String::from_str("on hit creates"),
        }
    }
}

/// The view of a node that closes a cycle at `id`.
pub open spec fn cycle_view(id: i64) -> NodeView {
    NodeView { id, value: None, atk_param: None, cons_type: None, children: Seq::empty(), is_cycle: true }
}

impl BulletNode {
    fn cycle(id: i64) -> (node: Self)
        ensures
            node@ == cycle_view(id),
    {
        let node = Self { id, value: None, atk_param: None, cons_type: None, children: Vec::new(), is_cycle: true };
        assert(node@.children =~= Seq::<EdgeView>::empty());
        node
    }
}

/// The reference categories of a spell, slot by slot.
pub open spec fn ref_categories(magic: Magic) -> Seq<i64> {
    seq![magic.ref_category1, magic.ref_category2, magic.ref_category3, magic.ref_category4, magic.ref_category5,
        magic.ref_category6, magic.ref_category7, magic.ref_category8, magic.ref_category9, magic.ref_category10]
}

/// The referenced row ids of a spell, slot by slot.
pub open spec fn ref_ids(magic: Magic) -> Seq<i64> {
    seq![magic.ref_id1, magic.ref_id2, magic.ref_id3, magic.ref_id4, magic.ref_id5,
        magic.ref_id6, magic.ref_id7, magic.ref_id8, magic.ref_id9, magic.ref_id10]
}

/// The consumption types of a spell, slot by slot.
pub open spec fn consumption_types(magic: Magic) -> Seq<i64> {
    seq![magic.consume_type1, magic.consume_type2, magic.consume_type3, magic.consume_type4, magic.consume_type5,
        magic.consume_type6, magic.consume_type7, magic.consume_type8, magic.consume_type9, magic.consume_type10]
}

/// The bullet references among the first `n` slots of a spell: for each slot whose
/// category is `1`, its number counted from 1, the bullet id and the consumption type.
pub open spec fn references_upto(magic: Magic, n: int) -> Seq<(usize, i64, i64)>
    decreases n,
{
    if n <= 0 {
        Seq::empty()
    } else {
        let earlier = references_upto(magic, n - 1);
        if ref_categories(magic)[n - 1] == 1 {
            earlier.push((n as usize, ref_ids(magic)[n - 1], consumption_types(magic)[n - 1]))
        } else {
            earlier
        }
    }
}

/// The bullet references of a spell, in slot order.
pub open spec fn magic_references(magic: Magic) -> Seq<(usize, i64, i64)> {
    references_upto(magic, 10)
}

fn magic_bullet_references(magic: &Magic) -> (refs: Vec<(usize, i64, i64)>)
    ensures
        refs@ == magic_references(*magic),
{
    let categories: [i64; 10] = [
        magic.ref_category1, magic.ref_category2, magic.ref_category3, magic.ref_category4, magic.ref_category5,
        magic.ref_category6, magic.ref_category7, magic.ref_category8, magic.ref_category9, magic.ref_category10,
    ];
    let ids: [i64; 10] = [
        magic.ref_id1, magic.ref_id2, magic.ref_id3, magic.ref_id4, magic.ref_id5,
        magic.ref_id6, magic.ref_id7, magic.ref_id8, magic.ref_id9, magic.ref_id10,
    ];
    let consumption_types: [i64; 10] = [
        magic.consume_type1, magic.consume_type2, magic.consume_type3, magic.consume_type4, magic.consume_type5,
        magic.consume_type6, magic.consume_type7, magic.consume_type8, magic.consume_type9, magic.consume_type10,
    ];
    assert(categories@ =~= ref_categories(*magic));
    assert(ids@ =~= ref_ids(*magic));
    assert(consumption_types@ =~= crate::graph::consumption_types(*magic));
    let mut refs: Vec<(usize, i64, i64)> = Vec::new();
    let mut index: usize = 0;
    while index < 10
        invariant
            index <= 10,
            categories@ == ref_categories(*magic),
            ids@ == ref_ids(*magic),
            consumption_types@ == crate::graph::consumption_types(*magic),
            refs@ == references_upto(*magic, index as int),
        decreases 10 - index,
    {
        if categories[index] == 1 {
            refs.push((index + 1, ids[index], consumption_types[index]));
        }
        index = index + 1;
    }
    refs
}


/// `id` names a readable row of the bullet table.
pub open spec fn bullet_found(tables: ParamTables, id: i64) -> bool {
    lookup(tables.bullets@, SearchField::ID(id), bullet_table()) is Ok
}

/// A path of bullets being expanded: no id twice, each one a readable row.
pub open spec fn path_ok(tables: ParamTables, path: Seq<i64>) -> bool {
    &&& path.no_duplicates()
    &&& forall|i: int| 0 <= i < path.len() ==> bullet_found(tables, #[trigger] path[i])
}

/// A path whose last id is about to be looked up.
pub open spec fn inner_path_ok(tables: ParamTables, path: Seq<i64>) -> bool {
    &&& path.len() > 0
    &&& path.no_duplicates()
    &&& forall|i: int| 0 <= i < path.len() - 1 ==> bullet_found(tables, #[trigger] path[i])
}

/// The ids of the rows of a table; an unreadable row stands as `0`.
pub open spec fn row_ids(rows: Seq<Result<Bullet, crate::error::CsvError>>) -> Seq<i64> {
    Seq::new(rows.len(), |k: int| match rows[k] {
        Ok(b) => b.id,
        Err(_) => 0,
    })
}

proof fn lemma_found_in_rows(rows: Seq<Result<Bullet, crate::error::CsvError>>, id: i64)
    requires
        lookup(rows, SearchField::ID(id), bullet_table()) is Ok,
    ensures
        row_ids(rows).contains(id),
        lookup(rows, SearchField::ID(id), bullet_table())->Ok_0.id == id,
    decreases rows.len(),
{
    let rest = rows.drop_first();
    if let Ok(b) = rows[0] {
        if b.id == id {
            assert(row_ids(rows)[0] == id);
            return;
        }
    }
    lemma_found_in_rows(rest, id);
    let k = choose|k: int| 0 <= k < row_ids(rest).len() && row_ids(rest)[k] == id;
    assert(row_ids(rows)[k + 1] == id);
}

/// A path of distinct readable bullets is no longer than the bullet table.
pub proof fn lemma_path_len(tables: ParamTables, path: Seq<i64>)
    requires
        path_ok(tables, path),
    ensures
        path.len() <= tables.bullets@.len(),
{
    let ids = row_ids(tables.bullets@);
    assert forall|x: i64| path.to_set().contains(x) implies ids.to_set().contains(x) by {
        let i = choose|i: int| 0 <= i < path.len() && path[i] == x;
        assert(bullet_found(tables, path[i]));
        lemma_found_in_rows(tables.bullets@, x);
    }
    path.unique_seq_to_set();
    ids.lemma_cardinality_of_set();
    vstd::set_lib::lemma_len_subset(path.to_set(), ids.to_set());
}

/// The attack parameters of a bullet: none when its attack id is at most 1,
/// otherwise the looked-up row.
pub open spec fn atk_node_spec(tables: ParamTables, bullet: Bullet) -> Result<Option<AtkParamNode>, LookupFailure> {
    if bullet.atk_id_bullet <= 1 {
        Ok(None)
    } else {
        match lookup(tables.atk_params@, SearchField::ID(bullet.atk_id_bullet), atk_param_table()) {
            Ok(atk) => Ok(Some(AtkParamNode { id: atk.id, value: atk })),
            Err(f) => Err(f),
        }
    }
}

/// The tree that expanding bullet `id` gives while the ids in `path` are being
/// expanded above it: a cycle node when `id` is on the path, otherwise the
/// bullet's own expansion.
pub open spec fn bullet_tree(tables: ParamTables, id: i64, cons: Option<i64>, path: Seq<i64>) -> Result<NodeView, LookupFailure>
    decreases tables.bullets@.len() + 1 - path.len(), 1int
    when path_ok(tables, path)
{
    if path.contains(id) {
        Ok(cycle_view(id))
    } else {
        proof {
            lemma_path_len(tables, path);
        }
        bullet_tree_inner(tables, id, cons, path.push(id))
    }
}

/// The expansion of the bullet that ends `path`: its row, its attack parameters,
/// then the bullet it emits at intervals and the bullet it creates on hit, each
/// expanded in turn; the first failure met is the outcome.
pub open spec fn bullet_tree_inner(tables: ParamTables, id: i64, cons: Option<i64>, path: Seq<i64>) -> Result<NodeView, LookupFailure>
    decreases tables.bullets@.len() + 1 - path.len(), 2int
    when inner_path_ok(tables, path) && path.last() == id
{
    match lookup(tables.bullets@, SearchField::ID(id), bullet_table()) {
        Err(f) => Err(f),
        Ok(bullet) => match atk_node_spec(tables, bullet) {
            Err(f) => Err(f),
            Ok(atk_param) => {
                let interval = bullet.interval_create_bullet_id;
                let hit = bullet.hit_bullet_id;
                let first: Result<Seq<EdgeView>, LookupFailure> = if interval >= 0 {
                    match bullet_tree(tables, interval, None, path) {
                        Ok(child) => Ok(seq![EdgeView { relation: BulletRelation::IntervalEmitter, child }]),
                        Err(f) => Err(f),
                    }
                } else {
                    Ok(Seq::empty())
                };
                match first {
                    Err(f) => Err(f),
                    Ok(edges) => {
                        let second: Result<Seq<EdgeView>, LookupFailure> = if hit >= 0 {
                            match bullet_tree(tables, hit, None, path) {
                                Ok(child) => Ok(edges.push(EdgeView { relation: BulletRelation::HitBullet, child })),
                                Err(f) => Err(f),
                            }
                        } else {
                            Ok(edges)
                        };
                        match second {
                            Err(f) => Err(f),
                            Ok(children) => Ok(NodeView {
                                id: bullet.id,
                                value: Some(bullet),
                                atk_param,
                                cons_type: cons,
                                children,
                                is_cycle: false,
                            }),
                        }
                    },
                }
            },
        },
    }
}

/// `r` is the tree outcome that `s` describes.
pub open spec fn tree_outcome_is(r: Result<BulletNode, AppError>, s: Result<NodeView, LookupFailure>) -> bool {
    match s {
        Ok(v) => match r {
            Ok(node) => node@ == v,
            Err(_) => false,
        },
        Err(f) => match r {
            Err(e) => error_is(e, f),
            Ok(_) => false,
        },
    }
}

fn on_path(path: &Vec<i64>, id: i64) -> (b: bool)
    ensures
        b == path@.contains(id),
{
    let mut i: usize = 0;
    while i < path.len()
        invariant
            i <= path@.len(),
            forall|k: int| 0 <= k < i ==> path@[k] != id,
        decreases path@.len() - i,
    {
        if path[i] == id {
            return true;
        }
        i = i + 1;
    }
    false
}

fn build_bullet(tables: &ParamTables, bullet_id: i64, consumption_type: Option<i64>, path: &mut Vec<i64>) -> (r: Result<BulletNode, AppError>)
    requires
        path_ok(*tables, old(path)@),
    ensures
        final(path)@ == old(path)@,
        tree_outcome_is(r, bullet_tree(*tables, bullet_id, consumption_type, old(path)@)),
    decreases tables.bullets@.len() + 1 - old(path)@.len(), 1int,
{
    if on_path(path, bullet_id) {
        return Ok(BulletNode::cycle(bullet_id));
    }
    proof {
        lemma_path_len(*tables, path@);
    }
    path.push(bullet_id);
    let result = build_bullet_inner(tables, bullet_id, consumption_type, path);
    path.pop();
    assert(path@ =~= old(path)@);
    result
}

fn build_bullet_inner(tables: &ParamTables, bullet_id: i64, consumption_type: Option<i64>, path: &mut Vec<i64>) -> (r: Result<BulletNode, AppError>)
    requires
        inner_path_ok(*tables, old(path)@),
        old(path)@.last() == bullet_id,
    ensures
        final(path)@ == old(path)@,
        tree_outcome_is(r, bullet_tree_inner(*tables, bullet_id, consumption_type, old(path)@)),
    decreases tables.bullets@.len() + 1 - old(path)@.len(), 2int,
{
    let bullet = match find_bullet(tables, &SearchField::ID(bullet_id)) {
        Ok(bullet) => bullet,
        Err(e) => return Err(e),
    };
    let atk_param = if bullet.atk_id_bullet <= 1 {
        None
    } else {
        match find_atk_param_pc(tables, &SearchField::ID(bullet.atk_id_bullet)) {
            Ok(atk_param) => Some(AtkParamNode { id: atk_param.id, value: atk_param }),
            Err(e) => return Err(e),
        }
    };
    let interval_create_bullet_id = bullet.interval_create_bullet_id;
    let hit_bullet_id = bullet.hit_bullet_id;
    let mut node = BulletNode {
        id: bullet.id,
        value: Some(bullet),
        atk_param,
        cons_type: consumption_type,
        children: Vec::new(),
        is_cycle: false,
    };
    proof {
        assert(bullet_found(*tables, path@.last()));
        assert(path_ok(*tables, path@));
    }
    if interval_create_bullet_id >= 0 {
        let child = match build_bullet(tables, interval_create_bullet_id, None, path) {
            Ok(child) => child,
            Err(e) => return Err(e),
        };
        node.children.push(BulletEdge { relation: BulletRelation::IntervalEmitter, child });
        assert(node.children@.drop_last() =~= Seq::<BulletEdge>::empty());
        assert(edges_view(Seq::<BulletEdge>::empty()) =~= Seq::<EdgeView>::empty());
        assert(edges_view(node.children@) == edges_view(node.children@.drop_last()).push(edge_view(node.children@.last())));
        assert(edges_view(node.children@) =~= seq![EdgeView { relation: BulletRelation::IntervalEmitter, child: node.children@[0].child@ }]);
    } else {
        assert(edges_view(node.children@) =~= Seq::<EdgeView>::empty());
    }
    let ghost first = node.children@;
    if hit_bullet_id >= 0 {
        let child = match build_bullet(tables, hit_bullet_id, None, path) {
            Ok(child) => child,
            Err(e) => return Err(e),
        };
        node.children.push(BulletEdge { relation: BulletRelation::HitBullet, child });
        assert(node.children@.drop_last() =~= first);
        assert(edges_view(node.children@) == edges_view(node.children@.drop_last()).push(edge_view(node.children@.last())));
        assert(edges_view(node.children@) =~= edges_view(first).push(EdgeView { relation: BulletRelation::HitBullet, child: node.children@.last().child@ }));
    }
    Ok(node)
}


/// The edges from a spell to the bullets of its references, in order; the first
/// failure met is the outcome.
pub open spec fn reference_edges(tables: ParamTables, refs: Seq<(usize, i64, i64)>) -> Result<Seq<EdgeView>, LookupFailure>
    decreases refs.len(),
{
    if refs.len() == 0 {
        Ok(Seq::empty())
    } else {
        match reference_edges(tables, refs.drop_last()) {
            Err(f) => Err(f),
            Ok(edges) => {
                let (reference_index, bullet_id, consumption_type) = refs.last();
                match bullet_tree(tables, bullet_id, Some(consumption_type), Seq::empty()) {
                    Ok(child) => Ok(edges.push(EdgeView { relation: BulletRelation::MagicReference { reference_index }, child })),
                    Err(f) => Err(f),
                }
            },
        }
    }
}

/// The graph of the spell with id `magic_id`.
pub open spec fn graph_spec(tables: ParamTables, magic_id: i64) -> Result<GraphView, LookupFailure> {
    match lookup(tables.magic@, SearchField::ID(magic_id), magic_table()) {
        Err(f) => Err(f),
        Ok(magic) => match reference_edges(tables, magic_references(magic)) {
            Err(f) => Err(f),
            Ok(bullets) => Ok(GraphView { magic, bullets }),
        },
    }
}

/// The graph of the spell that `search_field` finds: the spell is looked up,
/// then the graph is built from its id.
pub open spec fn magic_graph_spec(tables: ParamTables, search_field: SearchField) -> Result<GraphView, LookupFailure> {
    match lookup(tables.magic@, search_field, magic_table()) {
        Err(f) => Err(f),
        Ok(magic) => graph_spec(tables, magic.id),
    }
}

/// `r` is the graph outcome that `s` describes.
pub open spec fn graph_outcome_is(r: Result<MagicGraph, AppError>, s: Result<GraphView, LookupFailure>) -> bool {
    match s {
        Ok(v) => match r {
            Ok(graph) => graph@ == v,
            Err(_) => false,
        },
        Err(f) => match r {
            Err(e) => error_is(e, f),
            Ok(_) => false,
        },
    }
}

proof fn lemma_reference_edges_error_stays(tables: ParamTables, refs: Seq<(usize, i64, i64)>, n: int)
    requires
        0 <= n <= refs.len(),
    ensures
        reference_edges(tables, refs.take(n)) is Err ==> reference_edges(tables, refs) == reference_edges(tables, refs.take(n)),
    decreases refs.len() - n,
{
    if n < refs.len() {
        lemma_reference_edges_error_stays(tables, refs, n + 1);
        assert(refs.take(n + 1).drop_last() =~= refs.take(n));
    } else {
        assert(refs.take(n) =~= refs);
    }
}

impl MagicGraph {
    /// Builds the graph of the spell with id `magic_id`: each reference slot of
    /// category 1 gives an edge to the bullet it names, expanded with a fresh path.
    pub fn build(tables: &ParamTables, magic_id: i64) -> (r: Result<Self, AppError>)
        ensures
            graph_outcome_is(r, graph_spec(*tables, magic_id)),
    {
        let magic = match find_magic(tables, &SearchField::ID(magic_id)) {
            Ok(magic) => magic,
            Err(e) => return Err(e),
        };
        let refs = magic_bullet_references(&magic);
        let mut bullets: Vec<BulletEdge> = Vec::new();
        let mut k: usize = 0;
        assert(refs@.take(0) =~= Seq::<(usize, i64, i64)>::empty());
        assert(edges_view(bullets@) =~= Seq::<EdgeView>::empty());
        while k < refs.len()
            invariant
                k <= refs@.len(),
                refs@ == magic_references(magic),
                lookup(tables.magic@, SearchField::ID(magic_id), magic_table()) == Ok::<Magic, LookupFailure>(magic),
                reference_edges(*tables, refs@.take(k as int)) == Ok::<Seq<EdgeView>, LookupFailure>(edges_view(bullets@)),
            decreases refs@.len() - k,
        {
            let (reference_index, bullet_id, consumption_type) = refs[k];
            let mut path: Vec<i64> = Vec::new();
            assert(path@ =~= Seq::<i64>::empty());
            assert(refs@.take(k + 1).drop_last() =~= refs@.take(k as int));
            proof {
                lemma_reference_edges_error_stays(*tables, refs@, k + 1);
            }
            let bullet = match build_bullet(tables, bullet_id, Some(consumption_type), &mut path) {
                Ok(bullet) => bullet,
                Err(e) => return Err(e),
            };
            let ghost before = bullets@;
            bullets.push(BulletEdge { relation: BulletRelation::MagicReference { reference_index }, child: bullet });
            assert(bullets@.drop_last() =~= before);
            assert(edges_view(bullets@) == edges_view(bullets@.drop_last()).push(edge_view(bullets@.last())));
            k = k + 1;
        }
        assert(refs@.take(refs@.len() as int) =~= refs@);
        Ok(Self { magic, bullets })
    }
}


/// Along every branch of a tree expanded below `ancestors`: a node that closes a
/// cycle repeats an id of the branch above it and carries nothing else; any
/// other node has its bullet row and an id that no node above it has.
pub open spec fn cycle_consistent(node: NodeView, ancestors: Seq<i64>) -> bool
    decreases node,
{
    if node.is_cycle {
        &&& ancestors.contains(node.id)
        &&& node.value is None
        &&& node.atk_param is None
        &&& node.children.len() == 0
    } else {
        &&& !ancestors.contains(node.id)
        &&& node.value is Some
        &&& forall|i: int| 0 <= i < node.children.len() ==> cycle_consistent(#[trigger] node.children[i].child, ancestors.push(node.id))
    }
}

proof fn lemma_tree_cycle_consistent(tables: ParamTables, id: i64, cons: Option<i64>, path: Seq<i64>)
    requires
        path_ok(tables, path),
    ensures
        bullet_tree(tables, id, cons, path) is Ok ==> {
            let node = bullet_tree(tables, id, cons, path)->Ok_0;
            node.id == id && cycle_consistent(node, path)
        },
    decreases tables.bullets@.len() + 1 - path.len(), 1int,
{
    if !path.contains(id) {
        lemma_path_len(tables, path);
        lemma_inner_cycle_consistent(tables, id, cons, path.push(id));
        assert(path.push(id).drop_last() =~= path);
    }
}

proof fn lemma_inner_cycle_consistent(tables: ParamTables, id: i64, cons: Option<i64>, path: Seq<i64>)
    requires
        inner_path_ok(tables, path),
        path.last() == id,
    ensures
        bullet_tree_inner(tables, id, cons, path) is Ok ==> {
            let node = bullet_tree_inner(tables, id, cons, path)->Ok_0;
            node.id == id && cycle_consistent(node, path.drop_last())
        },
    decreases tables.bullets@.len() + 1 - path.len(), 2int,
{
    if bullet_tree_inner(tables, id, cons, path) is Ok {
        let bullet = lookup(tables.bullets@, SearchField::ID(id), bullet_table())->Ok_0;
        lemma_found_in_rows(tables.bullets@, id);
        assert(bullet_found(tables, path.last()));
        assert(path_ok(tables, path));
        let node = bullet_tree_inner(tables, id, cons, path)->Ok_0;
        assert(path.drop_last().push(id) =~= path);
        assert(!path.drop_last().contains(id)) by {
            if path.drop_last().contains(id) {
                let j = choose|j: int| 0 <= j < path.drop_last().len() && path.drop_last()[j] == id;
                assert(path[j] == path[path.len() - 1]);
            }
        }
        if bullet.interval_create_bullet_id >= 0 {
            lemma_tree_cycle_consistent(tables, bullet.interval_create_bullet_id, None, path);
        }
        if bullet.hit_bullet_id >= 0 {
            lemma_tree_cycle_consistent(tables, bullet.hit_bullet_id, None, path);
        }
    }
}

/// Law: in the graph of a spell, every branch from the spell down is free of
/// repeated bullets except at its end: a node that closes a cycle repeats an id
/// of the branch above it and carries nothing else, and any other node has its
/// bullet row and an id seen nowhere above it. Each edge's node is the bullet
/// that its reference slot names, with that slot's consumption type.
pub proof fn law_graph_branches_are_acyclic(tables: ParamTables, magic_id: i64)
    ensures
        graph_spec(tables, magic_id) is Ok ==> {
            let graph = graph_spec(tables, magic_id)->Ok_0;
            let refs = magic_references(graph.magic);
            &&& graph.magic.id == magic_id
            &&& graph.bullets.len() == refs.len()
            &&& forall|i: int| 0 <= i < graph.bullets.len() ==> {
                &&& (#[trigger] graph.bullets[i]).relation == BulletRelation::MagicReference { reference_index: refs[i].0 }
                &&& graph.bullets[i].child.id == refs[i].1
                &&& graph.bullets[i].child.cons_type == Some(refs[i].2)
                &&& !graph.bullets[i].child.is_cycle
                &&& cycle_consistent(graph.bullets[i].child, Seq::empty())
            }
        },
{
    if let Ok(magic) = lookup(tables.magic@, SearchField::ID(magic_id), magic_table()) {
        lemma_found_magic_id(tables.magic@, magic_id);
        lemma_reference_edges_acyclic(tables, magic_references(magic));
    }
}

proof fn lemma_found_magic_id(rows: Seq<Result<Magic, crate::error::CsvError>>, id: i64)
    ensures
        lookup(rows, SearchField::ID(id), magic_table()) is Ok ==> lookup(rows, SearchField::ID(id), magic_table())->Ok_0.id == id,
    decreases rows.len(),
{
    if rows.len() > 0 {
        lemma_found_magic_id(rows.drop_first(), id);
    }
}

proof fn lemma_reference_edges_acyclic(tables: ParamTables, refs: Seq<(usize, i64, i64)>)
    ensures
        reference_edges(tables, refs) is Ok ==> {
            let edges = reference_edges(tables, refs)->Ok_0;
            &&& edges.len() == refs.len()
            &&& forall|i: int| 0 <= i < edges.len() ==> {
                &&& (#[trigger] edges[i]).relation == BulletRelation::MagicReference { reference_index: refs[i].0 }
                &&& edges[i].child.id == refs[i].1
                &&& edges[i].child.cons_type == Some(refs[i].2)
                &&& !edges[i].child.is_cycle
                &&& cycle_consistent(edges[i].child, Seq::empty())
            }
        },
    decreases refs.len(),
{
    if refs.len() > 0 && reference_edges(tables, refs) is Ok {
        lemma_reference_edges_acyclic(tables, refs.drop_last());
        let (reference_index, bullet_id, consumption_type) = refs.last();
        let empty = Seq::<i64>::empty();
        lemma_tree_cycle_consistent(tables, bullet_id, Some(consumption_type), empty);
        assert(!empty.contains(bullet_id));
        assert(path_ok(tables, empty));
        lemma_path_len(tables, empty);
        let edges = reference_edges(tables, refs)->Ok_0;
        let child = bullet_tree(tables, bullet_id, Some(consumption_type), empty)->Ok_0;
        assert(empty.push(bullet_id).drop_last() =~= empty);
        lemma_inner_cons(tables, bullet_id, Some(consumption_type), empty.push(bullet_id));
        assert(edges.last().child == child);
    }
}

proof fn lemma_inner_cons(tables: ParamTables, id: i64, cons: Option<i64>, path: Seq<i64>)
    requires
        inner_path_ok(tables, path),
        path.last() == id,
    ensures
        bullet_tree_inner(tables, id, cons, path) is Ok ==> {
            let node = bullet_tree_inner(tables, id, cons, path)->Ok_0;
            node.cons_type == cons && !node.is_cycle
        },
{
}


/// The edges that a bullet row asks for, in this order: one to the bullet it
/// emits at intervals when `interval_create_bullet_id` is not negative, one to
/// the bullet it creates on hit when `hit_bullet_id` is not negative, and no other;
/// a bullet created by another has no consumption type.
pub open spec fn edges_follow_row(children: Seq<EdgeView>, row: Bullet) -> bool {
    let interval = row.interval_create_bullet_id;
    let hit = row.hit_bullet_id;
    let interval_edges: int = if interval >= 0 { 1 } else { 0 };
    let hit_edges: int = if hit >= 0 { 1 } else { 0 };
    &&& children.len() == interval_edges + hit_edges
    &&& interval >= 0 ==> children[0].relation == BulletRelation::IntervalEmitter && children[0].child.id == interval
    &&& hit >= 0 ==> children.last().relation == BulletRelation::HitBullet && children.last().child.id == hit
    &&& forall|i: int| 0 <= i < children.len() ==> (#[trigger] children[i]).child.cons_type is None
}

/// The attack parameters that a bullet row asks for: none when its attack id is
/// at most 1, otherwise the attack parameter row with that id.
pub open spec fn atk_follows_row(tables: ParamTables, atk_param: Option<AtkParamNode>, row: Bullet) -> bool {
    if row.atk_id_bullet <= 1 {
        atk_param is None
    } else {
        let atk = lookup(tables.atk_params@, SearchField::ID(row.atk_id_bullet), atk_param_table());
        &&& atk is Ok
        &&& atk->Ok_0.id == row.atk_id_bullet
        &&& atk_param == Some(AtkParamNode { id: row.atk_id_bullet, value: atk->Ok_0 })
    }
}

/// Down every branch of a tree, each node that does not close a cycle carries
/// the bullet row with its id, and the attack parameters and the edges that
/// this row asks for.
pub open spec fn follows_rows(tables: ParamTables, node: NodeView) -> bool
    decreases node,
{
    if node.is_cycle {
        true
    } else {
        let row = lookup(tables.bullets@, SearchField::ID(node.id), bullet_table());
        &&& row is Ok
        &&& row->Ok_0.id == node.id
        &&& node.value == Some(row->Ok_0)
        &&& atk_follows_row(tables, node.atk_param, row->Ok_0)
        &&& edges_follow_row(node.children, row->Ok_0)
        &&& forall|i: int| 0 <= i < node.children.len() ==> follows_rows(tables, #[trigger] node.children[i].child)
    }
}

proof fn lemma_found_atk_id(rows: Seq<Result<AtkParamPc, crate::error::CsvError>>, id: i64)
    ensures
        lookup(rows, SearchField::ID(id), atk_param_table()) is Ok ==> lookup(rows, SearchField::ID(id), atk_param_table())->Ok_0.id == id,
    decreases rows.len(),
{
    if rows.len() > 0 {
        lemma_found_atk_id(rows.drop_first(), id);
    }
}

proof fn lemma_tree_follows_rows(tables: ParamTables, id: i64, cons: Option<i64>, path: Seq<i64>)
    requires
        path_ok(tables, path),
    ensures
        bullet_tree(tables, id, cons, path) is Ok ==> follows_rows(tables, bullet_tree(tables, id, cons, path)->Ok_0),
    decreases tables.bullets@.len() + 1 - path.len(), 1int,
{
    if !path.contains(id) {
        lemma_path_len(tables, path);
        lemma_inner_follows_rows(tables, id, cons, path.push(id));
    }
}

proof fn lemma_inner_follows_rows(tables: ParamTables, id: i64, cons: Option<i64>, path: Seq<i64>)
    requires
        inner_path_ok(tables, path),
        path.last() == id,
    ensures
        bullet_tree_inner(tables, id, cons, path) is Ok ==> follows_rows(tables, bullet_tree_inner(tables, id, cons, path)->Ok_0),
    decreases tables.bullets@.len() + 1 - path.len(), 2int,
{
    if bullet_tree_inner(tables, id, cons, path) is Ok {
        let bullet = lookup(tables.bullets@, SearchField::ID(id), bullet_table())->Ok_0;
        lemma_found_in_rows(tables.bullets@, id);
        assert(bullet_found(tables, path.last()));
        assert(path_ok(tables, path));
        lemma_found_atk_id(tables.atk_params@, bullet.atk_id_bullet);
        let interval = bullet.interval_create_bullet_id;
        let hit = bullet.hit_bullet_id;
        if interval >= 0 {
            lemma_tree_follows_rows(tables, interval, None, path);
            lemma_tree_cycle_consistent(tables, interval, None, path);
        }
        if hit >= 0 {
            lemma_tree_follows_rows(tables, hit, None, path);
            lemma_tree_cycle_consistent(tables, hit, None, path);
        }
        let node = bullet_tree_inner(tables, id, cons, path)->Ok_0;
        assert(node.id == id);
        assert(edges_follow_row(node.children, bullet));
        assert forall|i: int| 0 <= i < node.children.len() implies follows_rows(tables, #[trigger] node.children[i].child) by {
            if interval >= 0 && i == 0 {
                assert(node.children[i].child == bullet_tree(tables, interval, None, path)->Ok_0);
            } else {
                assert(node.children[i].child == bullet_tree(tables, hit, None, path)->Ok_0);
            }
        }
    }
}

proof fn lemma_reference_edges_follow_rows(tables: ParamTables, refs: Seq<(usize, i64, i64)>)
    ensures
        reference_edges(tables, refs) is Ok ==> {
            let edges = reference_edges(tables, refs)->Ok_0;
            forall|i: int| 0 <= i < edges.len() ==> follows_rows(tables, #[trigger] edges[i].child)
        },
    decreases refs.len(),
{
    if refs.len() > 0 && reference_edges(tables, refs) is Ok {
        lemma_reference_edges_follow_rows(tables, refs.drop_last());
        let (reference_index, bullet_id, consumption_type) = refs.last();
        let empty = Seq::<i64>::empty();
        assert(path_ok(tables, empty));
        lemma_tree_follows_rows(tables, bullet_id, Some(consumption_type), empty);
    }
}

/// Law: the graph of a spell follows the bullet table. Down every branch, each
/// node that does not close a cycle holds the row of its bullet; it has an edge
/// to the bullet that this row emits at intervals exactly when
/// `interval_create_bullet_id` is not negative, then an edge to the bullet that
/// the row creates on hit exactly when `hit_bullet_id` is not negative (whatever
/// the row's launch condition), and no other edge; and it holds the attack
/// parameter row that the row's attack id names, when that id is above 1.
pub proof fn law_graph_follows_rows(tables: ParamTables, magic_id: i64)
    ensures
        graph_spec(tables, magic_id) is Ok ==> {
            let graph = graph_spec(tables, magic_id)->Ok_0;
            forall|i: int| 0 <= i < graph.bullets.len() ==> follows_rows(tables, #[trigger] graph.bullets[i].child)
        },
{
    if let Ok(magic) = lookup(tables.magic@, SearchField::ID(magic_id), magic_table()) {
        lemma_reference_edges_follow_rows(tables, magic_references(magic));
    }
}


proof fn lemma_references_upto(magic: Magic, n: int)
    requires
        0 <= n <= 10,
    ensures
        ({
            let refs = references_upto(magic, n);
            &&& forall|i: int| 0 <= i < refs.len() ==> {
                let slot = (#[trigger] refs[i]).0 as int;
                &&& 1 <= slot <= n
                &&& ref_categories(magic)[slot - 1] == 1
                &&& refs[i].1 == ref_ids(magic)[slot - 1]
                &&& refs[i].2 == consumption_types(magic)[slot - 1]
            }
            &&& forall|i: int, j: int| 0 <= i < j < refs.len() ==> #[trigger] refs[i].0 < #[trigger] refs[j].0
            &&& forall|k: int| 0 <= k < n && ref_categories(magic)[k] == 1 ==> exists|i: int| 0 <= i < refs.len() && #[trigger] refs[i].0 == k + 1
        }),
    decreases n,
{
    if n > 0 {
        lemma_references_upto(magic, n - 1);
        let earlier = references_upto(magic, n - 1);
        let refs = references_upto(magic, n);
        if ref_categories(magic)[n - 1] == 1 {
            assert(refs[refs.len() - 1].0 == n);
            assert forall|k: int| 0 <= k < n && ref_categories(magic)[k] == 1 implies exists|i: int| 0 <= i < refs.len() && #[trigger] refs[i].0 == k + 1 by {
                if k < n - 1 {
                    let i = choose|i: int| 0 <= i < earlier.len() && #[trigger] earlier[i].0 == k + 1;
                    assert(refs[i] == earlier[i]);
                } else {
                    assert(refs[refs.len() - 1].0 == k + 1);
                }
            }
        }
    }
}

/// Law: the bullet references of a spell are exactly its reference slots whose
/// category is 1, in slot order: each gives the slot's number counted from 1,
/// the row id and the consumption type of that slot.
pub proof fn law_references_are_bullet_slots(magic: Magic)
    ensures
        ({
            let refs = magic_references(magic);
            &&& forall|i: int| 0 <= i < refs.len() ==> {
                let slot = (#[trigger] refs[i]).0 as int;
                &&& 1 <= slot <= 10
                &&& ref_categories(magic)[slot - 1] == 1
                &&& refs[i].1 == ref_ids(magic)[slot - 1]
                &&& refs[i].2 == consumption_types(magic)[slot - 1]
            }
            &&& forall|i: int, j: int| 0 <= i < j < refs.len() ==> #[trigger] refs[i].0 < #[trigger] refs[j].0
            &&& forall|k: int| 0 <= k < 10 && ref_categories(magic)[k] == 1 ==> exists|i: int| 0 <= i < refs.len() && #[trigger] refs[i].0 == k + 1
        }),
{
    lemma_references_upto(magic, 10);
    let refs = magic_references(magic);
    assert(refs == references_upto(magic, 10));
    assert forall|k: int| 0 <= k < 10 && ref_categories(magic)[k] == 1 implies exists|i: int| 0 <= i < refs.len() && #[trigger] refs[i].0 == k + 1 by {
        assert(0 <= k < 10 && ref_categories(magic)[k] == 1);
    }
}

}
