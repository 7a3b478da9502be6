use vstd::prelude::*;

use crate::error::UuidError;
use crate::instance::{instance_of, Instance};
use crate::ordering::{
    ids_of, ids_ordered_by_key, keys_ascending, lemma_sort_by_key, ordered_ids, sort_by_key, Keyed,
};
use crate::text::{camel_case_of, opt_view, to_camel_case};
use crate::uuid::{ConcreteUuid, Uuid};

verus! {

/// How many levels below its root a term may lie and still have a subject.
pub const MAX_SUBJECT_DEPTH: u32 = 20;

/// One term of the taxonomy: its id, its parent (none for a root) and its name.
pub struct TermNode {
    pub id: i32,
    pub parent_id: Option<i32>,
    pub name: String,
}

/// The index of the first node with `id` at or after `i`, or -1.
pub open spec fn node_index_from(nodes: Seq<TermNode>, id: i32, i: int) -> int
    decreases nodes.len() - i,
{
    if i < 0 || i >= nodes.len() {
        -1
    } else if nodes[i].id == id {
        i
    } else {
        node_index_from(nodes, id, i + 1)
    }
}

/// The index of the first node with `id`, or -1.
pub open spec fn node_index(nodes: Seq<TermNode>, id: i32) -> int {
    node_index_from(nodes, id, 0)
}

/// The name of the ancestor of `id` (or `id` itself) whose parent is a root,
/// looking at most `fuel` levels up.
pub open spec fn subject_within(nodes: Seq<TermNode>, id: i32, fuel: nat) -> Option<Seq<char>>
    decreases fuel,
{
    if fuel == 0 {
        None
    } else {
        let i = node_index(nodes, id);
        if i < 0 {
            None
        } else {
            match nodes[i].parent_id {
                None => None,
                Some(p) => {
                    let j = node_index(nodes, p);
                    if j < 0 {
                        None
                    } else if nodes[j].parent_id.is_none() {
                        Some(nodes[i].name@)
                    } else {
                        subject_within(nodes, p, (fuel - 1) as nat)
                    }
                },
            }
        }
    }
}

/// The canonical subject of a term: the name of its ancestor one level below the
/// root, for a term at most `MAX_SUBJECT_DEPTH` levels below its root.
pub open spec fn canonical_subject_of(nodes: Seq<TermNode>, id: i32) -> Option<Seq<char>> {
    subject_within(nodes, id, MAX_SUBJECT_DEPTH as nat)
}

/// A root has no canonical subject, and a term directly below a root is its own.
pub proof fn lemma_subject_near_root(nodes: Seq<TermNode>, id: i32)
    requires
        0 <= node_index(nodes, id),
    ensures
        nodes[node_index(nodes, id)].parent_id is None ==> canonical_subject_of(nodes, id) is None,
        ({
            let n = nodes[node_index(nodes, id)];
            n.parent_id is Some && 0 <= node_index(nodes, n.parent_id->Some_0) && nodes[node_index(
                nodes,
                n.parent_id->Some_0,
            )].parent_id is None ==> canonical_subject_of(nodes, id) == Some(n.name@)
        }),
{
    lemma_node_index_in_range(nodes, id, 0);
}

proof fn lemma_node_index_in_range(nodes: Seq<TermNode>, id: i32, i: int)
    ensures
        node_index_from(nodes, id, i) == -1 || (0 <= i <= node_index_from(nodes, id, i) < nodes.len()
            && nodes[node_index_from(nodes, id, i)].id == id),
    decreases nodes.len() - i,
{
    if 0 <= i < nodes.len() && nodes[i].id != id {
        lemma_node_index_in_range(nodes, id, i + 1);
    }
}

/// The position of the first node with `id`.
pub fn find_node(nodes: &Vec<TermNode>, id: i32) -> (r: Option<usize>)
    ensures
        match r {
            Some(i) => i < nodes@.len() && node_index(nodes@, id) == i,
            None => node_index(nodes@, id) == -1,
        },
{
    let mut i: usize = 0;
    while i < nodes.len()
        invariant
            0 <= i <= nodes@.len(),
            node_index(nodes@, id) == node_index_from(nodes@, id, i as int),
        decreases nodes@.len() - i,
    {
        if nodes[i].id == id {
            return Some(i);
        }
        i = i + 1;
    }
    None
}

/// A taxonomy term.
pub struct TaxonomyTerm {
    pub term_type: String,
    pub instance: Instance,
    pub name: String,
    pub description: Option<String>,
    pub weight: i32,
    pub parent_id: Option<i32>,
    pub children_ids: Vec<i32>,
}

/// The stored row of a taxonomy term.
pub struct TaxonomyTermRow {
    pub trashed: bool,
    pub name: String,
    pub term_type: String,
    pub subdomain: String,
    pub description: Option<String>,
    pub weight: Option<i32>,
    pub parent_id: Option<i32>,
}

/// The children of a term: its entities by position, then its child terms by weight.
pub open spec fn term_children(entities: Seq<Keyed>, children: Seq<Keyed>) -> Seq<i32> {
    ordered_ids(entities) + ordered_ids(children)
}

/// `u` is the term `id` as built from its row, its memberships, its child terms
/// and the taxonomy.
pub open spec fn is_term_resource(
    u: Uuid,
    id: i32,
    row: TaxonomyTermRow,
    entities: Seq<Keyed>,
    children: Seq<Keyed>,
    nodes: Seq<TermNode>,
) -> bool {
    &&& u.id == id
    &&& u.trashed == row.trashed
    &&& opt_view(u.alias_subject) == canonical_subject_of(nodes, id)
    &&& u.alias_title@ == row.name@
    &&& match u.concrete_uuid {
        ConcreteUuid::TaxonomyTerm(t) => {
            &&& t.term_type@ == camel_case_of(row.term_type@)
            &&& instance_of(row.subdomain@) == Some(t.instance)
            &&& t.name@ == row.name@
            &&& opt_view(t.description) == opt_view(row.description)
            &&& t.weight == match row.weight { Some(w) => w, None => 0 }
            &&& t.parent_id == row.parent_id
            &&& t.children_ids@ == term_children(entities, children)
        },
        _ => false,
    }
}

/// `r` is what resolving the term `id` gives: not found without a row, an
/// invalid instance where its subdomain names none, else the term.
pub open spec fn term_fetched(
    r: Result<Uuid, UuidError>,
    id: i32,
    row: Option<TaxonomyTermRow>,
    entities: Seq<Keyed>,
    children: Seq<Keyed>,
    nodes: Seq<TermNode>,
) -> bool {
    match row {
        None => r == Err::<Uuid, UuidError>(UuidError::NotFound),
        Some(w) => if instance_of(w.subdomain@) is None {
            r == Err::<Uuid, UuidError>(UuidError::InvalidInstance)
        } else {
            r is Ok && is_term_resource(r->Ok_0, id, w, entities, children, nodes)
        },
    }
}

/// A resolved term lists the ids of its entity memberships in ascending order of
/// position, then the ids of its child terms in ascending order of weight; each
/// membership and each child term appears once, and equal keys keep their order.
pub proof fn lemma_term_children_order(
    r: Result<Uuid, UuidError>,
    id: i32,
    row: Option<TaxonomyTermRow>,
    entities: Seq<Keyed>,
    children: Seq<Keyed>,
    nodes: Seq<TermNode>,
)
    requires
        term_fetched(r, id, row, entities, children, nodes),
        r is Ok,
    ensures
        r->Ok_0.concrete_uuid matches ConcreteUuid::TaxonomyTerm(t) && t.children_ids@ == ids_of(
            sort_by_key(entities),
        ) + ids_of(sort_by_key(children)),
        keys_ascending(sort_by_key(entities)),
        sort_by_key(entities).to_multiset() == entities.to_multiset(),
        keys_ascending(sort_by_key(children)),
        sort_by_key(children).to_multiset() == children.to_multiset(),
{
    lemma_sort_by_key(entities);
    lemma_sort_by_key(children);
}

impl TaxonomyTerm {
    /// The term type in camel case.
    pub fn normalize_type(typename: &str) -> (r: String)
        ensures
            r@ == camel_case_of(typename@),
    {
        to_camel_case(typename)
    }

    /// The canonical subject of the term `id` in the taxonomy `nodes`.
    pub fn fetch_canonical_subject(nodes: &Vec<TermNode>, id: i32) -> (r: Option<String>)
        ensures
            opt_view(r) == canonical_subject_of(nodes@, id),
    {
        let mut current = id;
        let mut fuel: u32 = MAX_SUBJECT_DEPTH;
        while fuel > 0
            invariant
                canonical_subject_of(nodes@, id) == subject_within(nodes@, current, fuel as nat),
            decreases fuel,
        {
            let i = match find_node(nodes, current) {
                Some(i) => i,
                None => return None,
            };
            let p = match nodes[i].parent_id {
                Some(p) => p,
                None => return None,
            };
            let j = match find_node(nodes, p) {
                Some(j) => j,
                None => return None,
            };
            if nodes[j].parent_id.is_none() {
                return Some(nodes[i].name.clone());
            }
            current = p;
            fuel = fuel - 1;
        }
        None
    }

    /// Builds the term `id` from its row (absent when the id is not a term), its
    /// entity memberships as (position, entity id), its child terms as
    /// (weight, term id), and the taxonomy.
    pub fn fetch(
        id: i32,
        row: Option<TaxonomyTermRow>,
        entities: &Vec<Keyed>,
        children: &Vec<Keyed>,
        nodes: &Vec<TermNode>,
    ) -> (r: Result<Uuid, UuidError>)
        ensures
            term_fetched(r, id, row, entities@, children@, nodes@),
    {
        let row = match row {
            Some(row) => row,
            None => return Err(UuidError::NotFound),
        };
        let instance = match Instance::parse(row.subdomain.as_str()) {
            Some(instance) => instance,
            None => return Err(UuidError::InvalidInstance),
        };
        let mut children_ids = ids_ordered_by_key(entities);
        let mut child_terms = ids_ordered_by_key(children);
        children_ids.append(&mut child_terms);
        let subject = Self::fetch_canonical_subject(nodes, id);
        let term_type = Self::normalize_type(row.term_type.as_str());
        let weight = match row.weight {
            Some(w) => w,
            None => 0,
        };
        let term = TaxonomyTerm {
            term_type,
            instance,
            name: row.name.clone(),
            description: row.description,
            weight,
            parent_id: row.parent_id,
            children_ids,
        };
        Ok(Uuid {
            id,
            trashed: row.trashed,
            alias_subject: subject,
            alias_title: row.name,
            concrete_uuid: ConcreteUuid::TaxonomyTerm(term),
        })
    }
}

} // verus!
