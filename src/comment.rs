use vstd::prelude::*;

use crate::entity::{entity_subject, Entity};
use crate::error::UuidError;
use crate::taxonomy_term::{canonical_subject_of, TaxonomyTerm, TermNode};
use crate::text::{decimal, decimal_of, opt_view};
use crate::uuid::{ConcreteUuid, Uuid, UuidKind};

verus! {

/// A comment of a discussion thread.
pub struct Comment {
    pub author_id: i32,
    pub title: Option<String>,
    pub date: String,
    pub archived: bool,
    pub content: String,
    pub parent_id: i32,
    pub children_ids: Vec<i32>,
}

/// The stored row of a comment, with the title and the object of its parent comment.
pub struct CommentRow {
    pub trashed: bool,
    pub author_id: i32,
    pub title: Option<String>,
    pub date: String,
    pub archived: bool,
    pub content: Option<String>,
    pub parent_id: Option<i32>,
    pub uuid_id: Option<i32>,
    pub parent_title: Option<String>,
    pub parent_uuid_id: Option<i32>,
}

/// The object that a comment's thread is about: the comment's own object, else,
/// for an answer, the object of the comment it answers.
pub open spec fn thread_object_of(row: CommentRow) -> Option<i32> {
    match row.uuid_id {
        Some(o) => Some(o),
        None => match row.parent_id {
            Some(_) => row.parent_uuid_id,
            None => None,
        },
    }
}

/// The parent of a comment: its parent comment, or for a thread root the object
/// that the thread is about.
pub open spec fn comment_parent(row: CommentRow) -> Option<i32> {
    match row.parent_id {
        Some(p) => Some(p),
        None => row.uuid_id,
    }
}

/// The title used in a comment's alias: its own, else its parent's, else its id.
pub open spec fn comment_title(row: CommentRow, id: i32) -> Seq<char> {
    match row.title {
        Some(t) => t@,
        None => match row.parent_title {
            Some(t) => t@,
            None => decimal_of(id as int),
        },
    }
}

/// `u` is the comment `id` as built from its row, its children and its context.
pub open spec fn is_comment_resource(
    u: Uuid,
    id: i32,
    row: CommentRow,
    children: Seq<i32>,
    context: Option<Seq<char>>,
) -> bool {
    &&& u.id == id
    &&& u.trashed == row.trashed
    &&& opt_view(u.alias_subject) == context
    &&& u.alias_title@ == comment_title(row, id)
    &&& match u.concrete_uuid {
        ConcreteUuid::Comment(c) => {
            &&& c.author_id == row.author_id
            &&& opt_view(c.title) == opt_view(row.title)
            &&& c.date@ == row.date@
            &&& c.archived == row.archived
            &&& c.content@ == match row.content { Some(t) => t@, None => Seq::<char>::empty() }
            &&& Some(c.parent_id) == comment_parent(row)
            &&& c.children_ids@ == children
        },
        _ => false,
    }
}

/// The subject of the object that a thread is about: the canonical subject of a
/// taxonomy term, the subject of an entity, and none for any other kind.
pub open spec fn context_of(
    object_kind: Option<UuidKind>,
    object_id: i32,
    nodes: Seq<TermNode>,
    ancestor_term_ids: Seq<i32>,
) -> Option<Seq<char>> {
    match object_kind {
        Some(UuidKind::TaxonomyTerm) => canonical_subject_of(nodes, object_id),
        Some(UuidKind::Entity) => entity_subject(nodes, ancestor_term_ids),
        _ => None,
    }
}

/// `r` is what resolving the comment `id` gives: not found without a row or
/// without an object for its thread, else the comment with its thread's context.
pub open spec fn comment_fetched(
    r: Result<Uuid, UuidError>,
    id: i32,
    row: Option<CommentRow>,
    children: Seq<i32>,
    object_kind: Option<UuidKind>,
    nodes: Seq<TermNode>,
    ancestor_term_ids: Seq<i32>,
) -> bool {
    match row {
        None => r == Err::<Uuid, UuidError>(UuidError::NotFound),
        Some(w) => match thread_object_of(w) {
            None => r == Err::<Uuid, UuidError>(UuidError::NotFound),
            Some(o) => r is Ok && is_comment_resource(
                r->Ok_0,
                id,
                w,
                children,
                context_of(object_kind, o, nodes, ancestor_term_ids),
            ),
        },
    }
}

/// A thread root, with no parent comment, has the object of its thread as parent.
pub proof fn lemma_root_comment_parent(
    r: Result<Uuid, UuidError>,
    id: i32,
    row: CommentRow,
    children: Seq<i32>,
    object_kind: Option<UuidKind>,
    nodes: Seq<TermNode>,
    ancestor_term_ids: Seq<i32>,
)
    requires
        comment_fetched(r, id, Some(row), children, object_kind, nodes, ancestor_term_ids),
        row.parent_id is None,
        row.uuid_id is Some,
    ensures
        r is Ok,
        r->Ok_0.concrete_uuid matches ConcreteUuid::Comment(c) && c.parent_id == row.uuid_id->Some_0,
{
}

impl Comment {
    /// The object that the comment's thread is about, if the rows name one.
    pub fn thread_object(row: &CommentRow) -> (r: Option<i32>)
        ensures
            r == thread_object_of(*row),
    {
        match row.uuid_id {
            Some(o) => Some(o),
            None => match row.parent_id {
                Some(_) => row.parent_uuid_id,
                None => None,
            },
        }
    }

    /// The context of a comment: the subject of the object its thread is about,
    /// given that object's kind (none when it has none that a builder handles)
    /// and, for an entity, the terms of it and its ancestors. A thread without
    /// an object is not found.
    pub fn fetch_context(
        object_id: Option<i32>,
        object_kind: Option<UuidKind>,
        nodes: &Vec<TermNode>,
        ancestor_term_ids: &Vec<i32>,
    ) -> (r: Result<Option<String>, UuidError>)
        ensures
            match object_id {
                None => r == Err::<Option<String>, UuidError>(UuidError::NotFound),
                Some(o) => r is Ok && opt_view(r->Ok_0) == context_of(
                    object_kind,
                    o,
                    nodes@,
                    ancestor_term_ids@,
                ),
            },
    {
        let o = match object_id {
            Some(o) => o,
            None => return Err(UuidError::NotFound),
        };
        match object_kind {
            Some(UuidKind::TaxonomyTerm) => Ok(TaxonomyTerm::fetch_canonical_subject(nodes, o)),
            Some(UuidKind::Entity) => Ok(Entity::fetch_canonical_subject(nodes, ancestor_term_ids)),
            _ => Ok(None),
        }
    }

    /// Builds the comment `id` from its row (absent when the id is not a comment),
    /// the ids of the comments that answer it, and, for its context, the kind of
    /// its thread's object, the taxonomy, and the terms of that object and its
    /// ancestors.
    pub fn fetch(
        id: i32,
        row: Option<CommentRow>,
        children: Vec<i32>,
        object_kind: Option<UuidKind>,
        nodes: &Vec<TermNode>,
        ancestor_term_ids: &Vec<i32>,
    ) -> (r: Result<Uuid, UuidError>)
        ensures
            comment_fetched(r, id, row, children@, object_kind, nodes@, ancestor_term_ids@),
    {
        let row = match row {
            Some(row) => row,
            None => return Err(UuidError::NotFound),
        };
        let object = Self::thread_object(&row);
        let context = Self::fetch_context(object, object_kind, nodes, ancestor_term_ids)?;
        let parent_id = match row.parent_id {
            Some(p) => p,
            None => match row.uuid_id {
                Some(p) => p,
                None => return Err(UuidError::NotFound),
            },
        };
        let alias_title = match &row.title {
            Some(t) => t.clone(),
            None => match &row.parent_title {
                Some(t) => t.clone(),
                None => decimal(id),
            },
        };
        let content = match row.content {
            Some(c) => c,
            None => String::new(),
        };
        let comment = Comment {
            author_id: row.author_id,
            title: row.title,
            date: row.date,
            archived: row.archived,
            content,
            parent_id,
            children_ids: children,
        };
        Ok(Uuid {
            id,
            trashed: row.trashed,
            alias_subject: context,
            alias_title,
            concrete_uuid: ConcreteUuid::Comment(comment),
        })
    }
}

} // verus!
