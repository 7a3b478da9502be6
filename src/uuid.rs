use vstd::prelude::*;

use crate::alias::{alias_of, format_alias, slug_patterns_compile};
use crate::comment::{comment_fetched, Comment, CommentRow};
use crate::entity::{entity_fetched, ConcreteEntity, Entity, EntityLink, EntityRow};
use crate::error::UuidError;
use crate::ordering::Keyed;
use crate::taxonomy_term::{term_fetched, TaxonomyTerm, TaxonomyTermRow, TermNode};
use crate::text::{opt_view, same_text};

verus! {

/// A resolved resource: the envelope shared by all kinds, and the kind's own part.
/// The alias is given by its inputs: the subject and the title.
pub struct Uuid {
    pub id: i32,
    pub trashed: bool,
    pub alias_subject: Option<String>,
    pub alias_title: String,
    pub concrete_uuid: ConcreteUuid,
}

/// The kind-specific part of a resource.
pub enum ConcreteUuid {
    Comment(Comment),
    Entity(Entity),
    TaxonomyTerm(TaxonomyTerm),
}

/// The kinds that have a builder.
#[derive(Debug, Clone, Copy, PartialEq, Eq, Structural)]
pub enum UuidKind {
    Comment,
    Entity,
    TaxonomyTerm,
}

/// The kind that a stored discriminator names.
pub open spec fn kind_of_tag(tag: Seq<char>) -> Result<UuidKind, UuidError> {
    if tag == "comment"@ {
        Ok(UuidKind::Comment)
    } else if tag == "entity"@ {
        Ok(UuidKind::Entity)
    } else if tag == "taxonomyTerm"@ {
        Ok(UuidKind::TaxonomyTerm)
    } else {
        Err(UuidError::UnsupportedDiscriminator)
    }
}

/// The stored discriminator of a kind.
pub open spec fn tag_of_kind(kind: UuidKind) -> Seq<char> {
    match kind {
        UuidKind::Comment => "comment"@,
        UuidKind::Entity => "entity"@,
        UuidKind::TaxonomyTerm => "taxonomyTerm"@,
    }
}

/// The kind of the resource whose stored discriminator is `discriminator`;
/// `None` when the id is absent.
pub fn kind_of(discriminator: Option<&str>) -> (r: Result<UuidKind, UuidError>)
    ensures
        match discriminator {
            None => r == Err::<UuidKind, UuidError>(UuidError::NotFound),
            Some(tag) => r == kind_of_tag(tag@),
        },
{
    let tag = match discriminator {
        Some(tag) => tag,
        None => return Err(UuidError::NotFound),
    };
    if same_text(tag, "comment") {
        Ok(UuidKind::Comment)
    } else if same_text(tag, "entity") {
        Ok(UuidKind::Entity)
    } else if same_text(tag, "taxonomyTerm") {
        Ok(UuidKind::TaxonomyTerm)
    } else {
        Err(UuidError::UnsupportedDiscriminator)
    }
}

/// Every discriminator either names exactly one kind, and that kind's own tag, or
/// is refused as unsupported.
pub proof fn lemma_registry_exhaustive(tag: Seq<char>)
    ensures
        kind_of_tag(tag) is Ok ==> tag == tag_of_kind(kind_of_tag(tag)->Ok_0),
        kind_of_tag(tag) is Err ==> kind_of_tag(tag) == Err::<UuidKind, UuidError>(
            UuidError::UnsupportedDiscriminator,
        ),
        forall|k: UuidKind| kind_of_tag(tag) == Ok::<UuidKind, UuidError>(k) ==> tag == tag_of_kind(k),
{
}

/// Every kind with a builder is reached from its own discriminator.
pub proof fn lemma_kind_tag_round_trip(kind: UuidKind)
    ensures
        kind_of_tag(tag_of_kind(kind)) == Ok::<UuidKind, UuidError>(kind),
{
    reveal_strlit("comment");
    reveal_strlit("entity");
    reveal_strlit("taxonomyTerm");
    assert("entity"@[0] != "comment"@[0]);
    assert("taxonomyTerm"@[0] != "comment"@[0]);
    assert("taxonomyTerm"@[0] != "entity"@[0]);
}

/// Two entity payloads hold the same ids.
pub open spec fn same_payload(a: ConcreteEntity, b: ConcreteEntity) -> bool {
    match (a, b) {
        (ConcreteEntity::Generic, ConcreteEntity::Generic) => true,
        (ConcreteEntity::Course(x), ConcreteEntity::Course(y)) => x.page_ids@ == y.page_ids@,
        (ConcreteEntity::CoursePage(x), ConcreteEntity::CoursePage(y)) => x.parent_id == y.parent_id,
        (ConcreteEntity::ExerciseGroup(x), ConcreteEntity::ExerciseGroup(y)) => x.exercise_ids@
            == y.exercise_ids@,
        (ConcreteEntity::Exercise(x), ConcreteEntity::Exercise(y)) => x.solution_id == y.solution_id,
        (ConcreteEntity::GroupedExercise(x), ConcreteEntity::GroupedExercise(y)) => x.parent_id
            == y.parent_id && x.solution_id == y.solution_id,
        (ConcreteEntity::Solution(x), ConcreteEntity::Solution(y)) => x.parent_id == y.parent_id,
        _ => false,
    }
}

/// Two resources agree in every field.
pub open spec fn same_resource(a: Uuid, b: Uuid) -> bool {
    &&& a.id == b.id
    &&& a.trashed == b.trashed
    &&& opt_view(a.alias_subject) == opt_view(b.alias_subject)
    &&& a.alias_title@ == b.alias_title@
    &&& match (a.concrete_uuid, b.concrete_uuid) {
        (ConcreteUuid::Comment(x), ConcreteUuid::Comment(y)) => {
            &&& x.author_id == y.author_id
            &&& opt_view(x.title) == opt_view(y.title)
            &&& x.date@ == y.date@
            &&& x.archived == y.archived
            &&& x.content@ == y.content@
            &&& x.parent_id == y.parent_id
            &&& x.children_ids@ == y.children_ids@
        },
        (ConcreteUuid::TaxonomyTerm(x), ConcreteUuid::TaxonomyTerm(y)) => {
            &&& x.term_type@ == y.term_type@
            &&& x.instance == y.instance
            &&& x.name@ == y.name@
            &&& opt_view(x.description) == opt_view(y.description)
            &&& x.weight == y.weight
            &&& x.parent_id == y.parent_id
            &&& x.children_ids@ == y.children_ids@
        },
        (ConcreteUuid::Entity(x), ConcreteUuid::Entity(y)) => {
            let p = x.abstract_entity;
            let q = y.abstract_entity;
            &&& p.entity_type == q.entity_type
            &&& p.kind_name@ == q.kind_name@
            &&& p.instance == q.instance
            &&& p.date@ == q.date@
            &&& p.license_id == q.license_id
            &&& p.taxonomy_term_ids@ == q.taxonomy_term_ids@
            &&& p.current_revision_id == q.current_revision_id
            &&& p.revision_ids@ == q.revision_ids@
            &&& same_payload(x.concrete_entity, y.concrete_entity)
        },
        _ => false,
    }
}

/// Two outcomes of a resolution agree: equal resources, or the same error.
pub open spec fn same_outcome(a: Result<Uuid, UuidError>, b: Result<Uuid, UuidError>) -> bool {
    match (a, b) {
        (Ok(x), Ok(y)) => same_resource(x, y),
        (Err(e), Err(f)) => e == f,
        _ => false,
    }
}

/// Resolving a taxonomy term twice from the same rows gives the same outcome.
pub proof fn lemma_term_fetch_deterministic(
    r1: Result<Uuid, UuidError>,
    r2: Result<Uuid, UuidError>,
    id: i32,
    row: Option<TaxonomyTermRow>,
    entities: Seq<Keyed>,
    children: Seq<Keyed>,
    nodes: Seq<TermNode>,
)
    requires
        term_fetched(r1, id, row, entities, children, nodes),
        term_fetched(r2, id, row, entities, children, nodes),
    ensures
        same_outcome(r1, r2),
{
}

/// Resolving a comment twice from the same rows gives the same outcome.
pub proof fn lemma_comment_fetch_deterministic(
    r1: Result<Uuid, UuidError>,
    r2: Result<Uuid, UuidError>,
    id: i32,
    row: Option<CommentRow>,
    children: Seq<i32>,
    object_kind: Option<UuidKind>,
    nodes: Seq<TermNode>,
    ancestor_term_ids: Seq<i32>,
)
    requires
        comment_fetched(r1, id, row, children, object_kind, nodes, ancestor_term_ids),
        comment_fetched(r2, id, row, children, object_kind, nodes, ancestor_term_ids),
    ensures
        same_outcome(r1, r2),
{
}

/// Resolving an entity twice from the same rows gives the same outcome.
pub proof fn lemma_entity_fetch_deterministic(
    r1: Result<Uuid, UuidError>,
    r2: Result<Uuid, UuidError>,
    id: i32,
    row: Option<EntityRow>,
    revision_ids: Seq<i32>,
    taxonomy_term_ids: Seq<i32>,
    links: Seq<EntityLink>,
    subject: Option<Seq<char>>,
)
    requires
        entity_fetched(r1, id, row, revision_ids, taxonomy_term_ids, links, subject),
        entity_fetched(r2, id, row, revision_ids, taxonomy_term_ids, links, subject),
    ensures
        same_outcome(r1, r2),
{
}

impl Uuid {
    /// The alias of the resource, `/<subject>/<id>/<title>` in slug form. `None`
    /// only where a slug pattern fails to compile.
    pub fn alias(&self) -> (r: Option<String>)
        ensures
            r.is_some() == slug_patterns_compile(),
            r.is_some() ==> r.unwrap()@ == alias_of(
                opt_view(self.alias_subject),
                self.id as int,
                Some(self.alias_title@),
            ),
    {
        let subject = match &self.alias_subject {
            Some(s) => Some(s.as_str()),
            None => None,
        };
        format_alias(subject, self.id, Some(self.alias_title.as_str()))
    }
}

} // verus!
