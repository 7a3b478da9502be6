use vstd::prelude::*;

use crate::error::UuidError;
use crate::instance::{instance_of, Instance};
use crate::ordering::{ids_ordered_by_key, ordered_ids, Keyed};
use crate::taxonomy_term::{canonical_subject_of, TaxonomyTerm, TermNode};
use crate::text::{decimal, decimal_of, opt_view, same_text};
use crate::uuid::{ConcreteUuid, Uuid};

verus! {

/// The kinds of entity that carry a payload of their own; every other type name
/// is `Other`.
#[derive(Debug, Clone, Copy, PartialEq, Eq, Structural)]
pub enum EntityType {
    Course,
    CoursePage,
    ExerciseGroup,
    Exercise,
    GroupedExercise,
    Solution,
    Other,
}

/// The entity type that a stored type name stands for.
pub open spec fn entity_type_of(name: Seq<char>) -> EntityType {
    if name == "course"@ {
        EntityType::Course
    } else if name == "course-page"@ {
        EntityType::CoursePage
    } else if name == "text-exercise-group"@ {
        EntityType::ExerciseGroup
    } else if name == "text-exercise"@ {
        EntityType::Exercise
    } else if name == "grouped-text-exercise"@ {
        EntityType::GroupedExercise
    } else if name == "text-solution"@ {
        EntityType::Solution
    } else {
        EntityType::Other
    }
}

impl EntityType {
    /// Reads an entity type from its stored name.
    pub fn parse(name: &str) -> (r: EntityType)
        ensures
            r == entity_type_of(name@),
    {
        if same_text(name, "course") {
            EntityType::Course
        } else if same_text(name, "course-page") {
            EntityType::CoursePage
        } else if same_text(name, "text-exercise-group") {
            EntityType::ExerciseGroup
        } else if same_text(name, "text-exercise") {
            EntityType::Exercise
        } else if same_text(name, "grouped-text-exercise") {
            EntityType::GroupedExercise
        } else if same_text(name, "text-solution") {
            EntityType::Solution
        } else {
            EntityType::Other
        }
    }
}

/// The fields that every entity has.
pub struct AbstractEntity {
    pub entity_type: EntityType,
    pub kind_name: String,
    pub instance: Instance,
    pub date: String,
    pub license_id: i32,
    pub taxonomy_term_ids: Vec<i32>,
    pub current_revision_id: Option<i32>,
    pub revision_ids: Vec<i32>,
}

/// An entity: its common fields and the payload of its kind.
pub struct Entity {
    pub abstract_entity: AbstractEntity,
    pub concrete_entity: ConcreteEntity,
}

/// The payload of an entity's kind.
pub enum ConcreteEntity {
    Generic,
    Course(Course),
    CoursePage(CoursePage),
    ExerciseGroup(ExerciseGroup),
    Exercise(Exercise),
    GroupedExercise(GroupedExercise),
    Solution(Solution),
}

pub struct Course {
    pub page_ids: Vec<i32>,
}

pub struct CoursePage {
    pub parent_id: i32,
}

pub struct ExerciseGroup {
    pub exercise_ids: Vec<i32>,
}

pub struct Exercise {
    pub solution_id: Option<i32>,
}

pub struct GroupedExercise {
    pub parent_id: i32,
    pub solution_id: Option<i32>,
}

pub struct Solution {
    pub parent_id: i32,
}

/// The stored row of an entity, with the title field of its current revision and
/// of its first revision.
pub struct EntityRow {
    pub trashed: bool,
    pub kind_name: String,
    pub subdomain: String,
    pub date: String,
    pub current_revision_id: Option<i32>,
    pub license_id: i32,
    pub title: Option<String>,
    pub fallback_title: Option<String>,
}

/// A link between two entities, with the type name of the child and the value of
/// the link's ordering column.
pub struct EntityLink {
    pub parent_id: i32,
    pub child_id: i32,
    pub child_type: String,
    pub order: i32,
}

/// The links from `id` to children of type `ty`, as (order, child id), in the
/// order given.
pub open spec fn keyed_children(links: Seq<EntityLink>, id: i32, ty: EntityType) -> Seq<Keyed>
    decreases links.len(),
{
    if links.len() == 0 {
        Seq::<Keyed>::empty()
    } else {
        let rest = keyed_children(links.drop_last(), id, ty);
        let l = links.last();
        if l.parent_id == id && entity_type_of(l.child_type@) == ty {
            rest.push((l.order, l.child_id))
        } else {
            rest
        }
    }
}

/// The children of `id` of type `ty`, by the links' ordering column.
pub open spec fn children_of(links: Seq<EntityLink>, id: i32, ty: EntityType) -> Seq<i32> {
    ordered_ids(keyed_children(links, id, ty))
}

/// The first child of `id` of type `ty`, by the links' ordering column.
pub open spec fn first_child_of(links: Seq<EntityLink>, id: i32, ty: EntityType) -> Option<i32> {
    let c = children_of(links, id, ty);
    if c.len() > 0 {
        Some(c[0])
    } else {
        None
    }
}

/// The parent of the first link whose child is `id`.
pub open spec fn parent_of(links: Seq<EntityLink>, id: i32) -> Option<i32>
    decreases links.len(),
{
    if links.len() == 0 {
        None
    } else if links[0].child_id == id {
        Some(links[0].parent_id)
    } else {
        parent_of(links.drop_first(), id)
    }
}

/// Whether a kind of entity must have a parent.
pub open spec fn needs_parent(ty: EntityType) -> bool {
    ty == EntityType::CoursePage || ty == EntityType::GroupedExercise || ty == EntityType::Solution
}

/// A title field that holds text.
pub open spec fn usable_title(t: Option<String>) -> bool {
    t is Some && t->Some_0@.len() > 0
}

/// The title of an entity: its current revision's, else its first revision's,
/// else its id.
pub open spec fn entity_title(row: EntityRow, id: i32) -> Seq<char> {
    if usable_title(row.title) {
        row.title->Some_0@
    } else if usable_title(row.fallback_title) {
        row.fallback_title->Some_0@
    } else {
        decimal_of(id as int)
    }
}

/// The subject of an entity: the canonical subject of the first taxonomy term
/// that it, its parent or its grandparent belongs to.
pub open spec fn entity_subject(nodes: Seq<TermNode>, ancestor_terms: Seq<i32>) -> Option<Seq<char>> {
    if ancestor_terms.len() > 0 {
        canonical_subject_of(nodes, ancestor_terms[0])
    } else {
        None
    }
}

/// The payload that the links give an entity of type `ty`.
pub open spec fn payload_matches(c: ConcreteEntity, links: Seq<EntityLink>, id: i32, ty: EntityType) -> bool {
    match ty {
        EntityType::Course => c matches ConcreteEntity::Course(p) && p.page_ids@ == children_of(
            links,
            id,
            EntityType::CoursePage,
        ),
        EntityType::CoursePage => c matches ConcreteEntity::CoursePage(p) && Some(p.parent_id)
            == parent_of(links, id),
        EntityType::ExerciseGroup => c matches ConcreteEntity::ExerciseGroup(p) && p.exercise_ids@
            == children_of(links, id, EntityType::GroupedExercise),
        EntityType::Exercise => c matches ConcreteEntity::Exercise(p) && p.solution_id
            == first_child_of(links, id, EntityType::Solution),
        EntityType::GroupedExercise => c matches ConcreteEntity::GroupedExercise(p) && Some(
            p.parent_id,
        ) == parent_of(links, id) && p.solution_id == first_child_of(
            links,
            id,
            EntityType::Solution,
        ),
        EntityType::Solution => c matches ConcreteEntity::Solution(p) && Some(p.parent_id)
            == parent_of(links, id),
        EntityType::Other => c matches ConcreteEntity::Generic,
    }
}

/// `u` is the entity `id` as built from its row, revisions, terms, links and subject.
pub open spec fn is_entity_resource(
    u: Uuid,
    id: i32,
    row: EntityRow,
    revision_ids: Seq<i32>,
    taxonomy_term_ids: Seq<i32>,
    links: Seq<EntityLink>,
    subject: Option<Seq<char>>,
) -> bool {
    &&& u.id == id
    &&& u.trashed == row.trashed
    &&& opt_view(u.alias_subject) == subject
    &&& u.alias_title@ == entity_title(row, id)
    &&& match u.concrete_uuid {
        ConcreteUuid::Entity(e) => {
            let a = e.abstract_entity;
            &&& a.entity_type == entity_type_of(row.kind_name@)
            &&& a.kind_name@ == row.kind_name@
            &&& instance_of(row.subdomain@) == Some(a.instance)
            &&& a.date@ == row.date@
            &&& a.license_id == row.license_id
            &&& a.taxonomy_term_ids@ == taxonomy_term_ids
            &&& a.current_revision_id == row.current_revision_id
            &&& a.revision_ids@ == revision_ids
            &&& payload_matches(e.concrete_entity, links, id, a.entity_type)
        },
        _ => false,
    }
}

/// `r` is what resolving the entity `id` gives: not found without a row, an
/// invalid instance where its subdomain names none, a missing parent for a kind
/// that needs one and has no parent link, else the entity.
pub open spec fn entity_fetched(
    r: Result<Uuid, UuidError>,
    id: i32,
    row: Option<EntityRow>,
    revision_ids: Seq<i32>,
    taxonomy_term_ids: Seq<i32>,
    links: Seq<EntityLink>,
    subject: Option<Seq<char>>,
) -> bool {
    match row {
        None => r == Err::<Uuid, UuidError>(UuidError::NotFound),
        Some(w) => if instance_of(w.subdomain@) is None {
            r == Err::<Uuid, UuidError>(UuidError::InvalidInstance)
        } else if needs_parent(entity_type_of(w.kind_name@)) && parent_of(links, id) is None {
            r == Err::<Uuid, UuidError>(UuidError::EntityMissingRequiredParent)
        } else {
            r is Ok && is_entity_resource(
                r->Ok_0,
                id,
                w,
                revision_ids,
                taxonomy_term_ids,
                links,
                subject,
            )
        },
    }
}

/// An entity whose current revision has no title, or an empty one, takes the
/// title of its first revision where that one has text.
pub proof fn lemma_entity_title_fallback(
    r: Result<Uuid, UuidError>,
    id: i32,
    row: EntityRow,
    revision_ids: Seq<i32>,
    taxonomy_term_ids: Seq<i32>,
    links: Seq<EntityLink>,
    subject: Option<Seq<char>>,
)
    requires
        entity_fetched(r, id, Some(row), revision_ids, taxonomy_term_ids, links, subject),
        instance_of(row.subdomain@) is Some,
        !(needs_parent(entity_type_of(row.kind_name@)) && parent_of(links, id) is None),
        !usable_title(row.title),
        usable_title(row.fallback_title),
    ensures
        r is Ok && r->Ok_0.alias_title@ == row.fallback_title->Some_0@,
{
}

/// A course page, grouped exercise or solution without a parent link fails with a
/// missing parent, whatever else its rows hold.
pub proof fn lemma_required_parent(
    r: Result<Uuid, UuidError>,
    id: i32,
    row: EntityRow,
    revision_ids: Seq<i32>,
    taxonomy_term_ids: Seq<i32>,
    links: Seq<EntityLink>,
    subject: Option<Seq<char>>,
)
    requires
        entity_fetched(r, id, Some(row), revision_ids, taxonomy_term_ids, links, subject),
        instance_of(row.subdomain@) is Some,
        needs_parent(entity_type_of(row.kind_name@)),
        forall|k: int| 0 <= k < links.len() ==> links[k].child_id != id,
    ensures
        r == Err::<Uuid, UuidError>(UuidError::EntityMissingRequiredParent),
{
    lemma_no_parent(links, id);
}

proof fn lemma_no_parent(links: Seq<EntityLink>, id: i32)
    requires
        forall|k: int| 0 <= k < links.len() ==> links[k].child_id != id,
    ensures
        parent_of(links, id) is None,
    decreases links.len(),
{
    if links.len() > 0 {
        let t = links.drop_first();
        assert forall|k: int| 0 <= k < t.len() implies t[k].child_id != id by {
            assert(t[k] == links[k + 1]);
        }
        lemma_no_parent(t, id);
    }
}

impl Entity {
    /// The subject of an entity, from the taxonomy terms that it, its parent or
    /// its grandparent belongs to.
    pub fn fetch_canonical_subject(nodes: &Vec<TermNode>, ancestor_term_ids: &Vec<i32>) -> (r:
        Option<String>)
        ensures
            opt_view(r) == entity_subject(nodes@, ancestor_term_ids@),
    {
        if ancestor_term_ids.len() > 0 {
            TaxonomyTerm::fetch_canonical_subject(nodes, ancestor_term_ids[0])
        } else {
            None
        }
    }

    /// The parent of the first link whose child is `id`; a missing parent is an error.
    pub fn find_parent_by_id(links: &Vec<EntityLink>, id: i32) -> (r: Result<i32, UuidError>)
        ensures
            match parent_of(links@, id) {
                Some(p) => r == Ok::<i32, UuidError>(p),
                None => r == Err::<i32, UuidError>(UuidError::EntityMissingRequiredParent),
            },
    {
        let mut i: usize = 0;
        assert(links@.subrange(0, links@.len() as int) =~= links@);
        while i < links.len()
            invariant
                0 <= i <= links@.len(),
                parent_of(links@, id) == parent_of(links@.subrange(i as int, links@.len() as int), id),
            decreases links@.len() - i,
        {
            let ghost rest = links@.subrange(i as int, links@.len() as int);
            assert(rest.drop_first() =~= links@.subrange(i as int + 1, links@.len() as int));
            if links[i].child_id == id {
                return Ok(links[i].parent_id);
            }
            i = i + 1;
        }
        Err(UuidError::EntityMissingRequiredParent)
    }

    /// The children of `id` of type `child_type`, ordered by the links' ordering column.
    pub fn find_children_by_id_and_type(links: &Vec<EntityLink>, id: i32, child_type: EntityType) -> (r:
        Vec<i32>)
        ensures
            r@ == children_of(links@, id, child_type),
    {
        let mut keyed: Vec<Keyed> = Vec::new();
        let mut i: usize = 0;
        while i < links.len()
            invariant
                0 <= i <= links@.len(),
                keyed@ == keyed_children(links@.subrange(0, i as int), id, child_type),
            decreases links@.len() - i,
        {
            let ghost pre = links@.subrange(0, i as int + 1);
            assert(pre.drop_last() =~= links@.subrange(0, i as int));
            let l = &links[i];
            if l.parent_id == id && EntityType::parse(l.child_type.as_str()) == child_type {
                keyed.push((l.order, l.child_id));
            }
            i = i + 1;
        }
        assert(links@.subrange(0, links@.len() as int) =~= links@);
        ids_ordered_by_key(&keyed)
    }

    /// The first child of `id` of type `child_type`, by the links' ordering column.
    pub fn find_child_by_id_and_type(links: &Vec<EntityLink>, id: i32, child_type: EntityType) -> (r:
        Option<i32>)
        ensures
            r == first_child_of(links@, id, child_type),
    {
        let children = Self::find_children_by_id_and_type(links, id, child_type);
        if children.len() > 0 {
            Some(children[0])
        } else {
            None
        }
    }

    /// Builds the kind-specific payload of the entity `id` of type `ty`.
    pub fn concrete_payload(links: &Vec<EntityLink>, id: i32, ty: EntityType) -> (r: Result<
        ConcreteEntity,
        UuidError,
    >)
        ensures
            needs_parent(ty) && parent_of(links@, id).is_none() ==> r == Err::<ConcreteEntity, UuidError>(
                UuidError::EntityMissingRequiredParent,
            ),
            !(needs_parent(ty) && parent_of(links@, id).is_none()) ==> r.is_ok() && payload_matches(
                r.unwrap(),
                links@,
                id,
                ty,
            ),
    {
        match ty {
            EntityType::Course => {
                let page_ids = Self::find_children_by_id_and_type(links, id, EntityType::CoursePage);
                Ok(ConcreteEntity::Course(Course { page_ids }))
            },
            EntityType::CoursePage => {
                let parent_id = Self::find_parent_by_id(links, id)?;
                Ok(ConcreteEntity::CoursePage(CoursePage { parent_id }))
            },
            EntityType::ExerciseGroup => {
                let exercise_ids = Self::find_children_by_id_and_type(
                    links,
                    id,
                    EntityType::GroupedExercise,
                );
                Ok(ConcreteEntity::ExerciseGroup(ExerciseGroup { exercise_ids }))
            },
            EntityType::Exercise => {
                let solution_id = Self::find_child_by_id_and_type(links, id, EntityType::Solution);
                Ok(ConcreteEntity::Exercise(Exercise { solution_id }))
            },
            EntityType::GroupedExercise => {
                let parent_id = Self::find_parent_by_id(links, id)?;
                let solution_id = Self::find_child_by_id_and_type(links, id, EntityType::Solution);
                Ok(ConcreteEntity::GroupedExercise(GroupedExercise { parent_id, solution_id }))
            },
            EntityType::Solution => {
                let parent_id = Self::find_parent_by_id(links, id)?;
                Ok(ConcreteEntity::Solution(Solution { parent_id }))
            },
            EntityType::Other => Ok(ConcreteEntity::Generic),
        }
    }

    /// Builds the entity `id` from its row (absent when the id is not an entity),
    /// its revisions oldest first, the terms it belongs to, the links among
    /// entities, and for its subject the terms of it and its ancestors with the
    /// taxonomy.
    pub fn fetch(
        id: i32,
        row: Option<EntityRow>,
        revision_ids: Vec<i32>,
        taxonomy_term_ids: Vec<i32>,
        links: &Vec<EntityLink>,
        ancestor_term_ids: &Vec<i32>,
        nodes: &Vec<TermNode>,
    ) -> (r: Result<Uuid, UuidError>)
        ensures
            entity_fetched(
                r,
                id,
                row,
                revision_ids@,
                taxonomy_term_ids@,
                links@,
                entity_subject(nodes@, ancestor_term_ids@),
            ),
    {
        let row = match row {
            Some(row) => row,
            None => return Err(UuidError::NotFound),
        };
        let instance = match Instance::parse(row.subdomain.as_str()) {
            Some(instance) => instance,
            None => return Err(UuidError::InvalidInstance),
        };
        let entity_type = EntityType::parse(row.kind_name.as_str());
        let concrete_entity = Self::concrete_payload(links, id, entity_type)?;
        let subject = Self::fetch_canonical_subject(nodes, ancestor_term_ids);
        let alias_title = match &row.title {
            Some(t) if !t.as_str().is_empty() => t.clone(),
            _ => match &row.fallback_title {
                Some(t) if !t.as_str().is_empty() => t.clone(),
                _ => decimal(id),
            },
        };
        let abstract_entity = AbstractEntity {
            entity_type,
            kind_name: row.kind_name,
            instance,
            date: row.date,
            license_id: row.license_id,
            taxonomy_term_ids,
            current_revision_id: row.current_revision_id,
            revision_ids,
        };
        Ok(Uuid {
            id,
            trashed: row.trashed,
            alias_subject: subject,
            alias_title,
            concrete_uuid: ConcreteUuid::Entity(Entity { abstract_entity, concrete_entity }),
        })
    }
}

} // verus!
