use vstd::prelude::*;
use vstd::string::*;

use crate::error::EventError;
use crate::instance::{instance_of, Instance};
use crate::text::{opt_view, same_text};

verus! {

/// The sixteen kinds of concrete event.
#[derive(Debug, Clone, Copy, PartialEq, Eq, Structural)]
pub enum EventType {
    SetThreadState,
    CreateComment,
    CreateThread,
    CreateEntity,
    SetLicense,
    CreateEntityLink,
    RemoveEntityLink,
    CreateEntityRevision,
    CheckoutRevision,
    RejectRevision,
    CreateTaxonomyLink,
    RemoveTaxonomyLink,
    CreateTaxonomyTerm,
    SetTaxonomyTerm,
    SetTaxonomyParent,
    SetUuidState,
}

/// The kind that a stored event tag names, with the state it sets for the two
/// kinds that set one (archived for threads, trashed for uuids; false otherwise).
pub open spec fn event_type_of_tag(tag: Seq<char>) -> Option<(EventType, bool)> {
    if tag == "discussion/comment/archive"@ {
        Some((EventType::SetThreadState, true))
    } else if tag == "discussion/restore"@ {
        Some((EventType::SetThreadState, false))
    } else if tag == "discussion/comment/create"@ {
        Some((EventType::CreateComment, false))
    } else if tag == "discussion/create"@ {
        Some((EventType::CreateThread, false))
    } else if tag == "entity/create"@ {
        Some((EventType::CreateEntity, false))
    } else if tag == "license/object/set"@ {
        Some((EventType::SetLicense, false))
    } else if tag == "entity/link/create"@ {
        Some((EventType::CreateEntityLink, false))
    } else if tag == "entity/link/remove"@ {
        Some((EventType::RemoveEntityLink, false))
    } else if tag == "entity/revision/add"@ {
        Some((EventType::CreateEntityRevision, false))
    } else if tag == "entity/revision/checkout"@ {
        Some((EventType::CheckoutRevision, false))
    } else if tag == "entity/revision/reject"@ {
        Some((EventType::RejectRevision, false))
    } else if tag == "taxonomy/term/associate"@ {
        Some((EventType::CreateTaxonomyLink, false))
    } else if tag == "taxonomy/term/dissociate"@ {
        Some((EventType::RemoveTaxonomyLink, false))
    } else if tag == "taxonomy/term/create"@ {
        Some((EventType::CreateTaxonomyTerm, false))
    } else if tag == "taxonomy/term/update"@ {
        Some((EventType::SetTaxonomyTerm, false))
    } else if tag == "taxonomy/term/parent/change"@ {
        Some((EventType::SetTaxonomyParent, false))
    } else if tag == "uuid/trash"@ {
        Some((EventType::SetUuidState, true))
    } else if tag == "uuid/restore"@ {
        Some((EventType::SetUuidState, false))
    } else {
        None
    }
}

/// The id parameter that a kind of event cannot do without.
pub open spec fn required_parameter(t: EventType) -> Option<Seq<char>> {
    match t {
        EventType::CreateComment => Some("discussion"@),
        EventType::CreateThread => Some("on"@),
        EventType::CreateEntityLink => Some("parent"@),
        EventType::CreateEntityRevision => Some("repository"@),
        EventType::CheckoutRevision => Some("repository"@),
        EventType::RejectRevision => Some("repository"@),
        EventType::CreateTaxonomyLink => Some("object"@),
        EventType::RemoveTaxonomyLink => Some("object"@),
        _ => None,
    }
}

impl EventType {
    /// Reads an event kind, and the state it sets, from a stored tag.
    pub fn parse(tag: &str) -> (r: Option<(EventType, bool)>)
        ensures
            r == event_type_of_tag(tag@),
    {
        if same_text(tag, "discussion/comment/archive") {
            Some((EventType::SetThreadState, true))
        } else if same_text(tag, "discussion/restore") {
            Some((EventType::SetThreadState, false))
        } else if same_text(tag, "discussion/comment/create") {
            Some((EventType::CreateComment, false))
        } else if same_text(tag, "discussion/create") {
            Some((EventType::CreateThread, false))
        } else if same_text(tag, "entity/create") {
            Some((EventType::CreateEntity, false))
        } else if same_text(tag, "license/object/set") {
            Some((EventType::SetLicense, false))
        } else if same_text(tag, "entity/link/create") {
            Some((EventType::CreateEntityLink, false))
        } else if same_text(tag, "entity/link/remove") {
            Some((EventType::RemoveEntityLink, false))
        } else if same_text(tag, "entity/revision/add") {
            Some((EventType::CreateEntityRevision, false))
        } else if same_text(tag, "entity/revision/checkout") {
            Some((EventType::CheckoutRevision, false))
        } else if same_text(tag, "entity/revision/reject") {
            Some((EventType::RejectRevision, false))
        } else if same_text(tag, "taxonomy/term/associate") {
            Some((EventType::CreateTaxonomyLink, false))
        } else if same_text(tag, "taxonomy/term/dissociate") {
            Some((EventType::RemoveTaxonomyLink, false))
        } else if same_text(tag, "taxonomy/term/create") {
            Some((EventType::CreateTaxonomyTerm, false))
        } else if same_text(tag, "taxonomy/term/update") {
            Some((EventType::SetTaxonomyTerm, false))
        } else if same_text(tag, "taxonomy/term/parent/change") {
            Some((EventType::SetTaxonomyParent, false))
        } else if same_text(tag, "uuid/trash") {
            Some((EventType::SetUuidState, true))
        } else if same_text(tag, "uuid/restore") {
            Some((EventType::SetUuidState, false))
        } else {
            None
        }
    }
}

/// A stored event with its named parameters. Lookups by name take the first
/// entry with that name.
pub struct AbstractEvent {
    pub id: i32,
    pub actor_id: i32,
    pub instance: Instance,
    pub date: String,
    pub raw_typename: String,
    pub object_id: i32,
    pub uuid_parameters: Vec<(String, i32)>,
    pub string_parameters: Vec<(String, String)>,
}

/// The stored row of an event.
pub struct AbstractEventRow {
    pub id: i32,
    pub actor_id: i32,
    pub subdomain: String,
    pub date: String,
    pub raw_typename: String,
    pub object_id: i32,
}

/// The value of the first id parameter named `name`.
pub open spec fn uuid_param(params: Seq<(String, i32)>, name: Seq<char>) -> Option<i32>
    decreases params.len(),
{
    if params.len() == 0 {
        None
    } else if params[0].0@ == name {
        Some(params[0].1)
    } else {
        uuid_param(params.drop_first(), name)
    }
}

/// The value of the first text parameter named `name`.
pub open spec fn string_param(params: Seq<(String, String)>, name: Seq<char>) -> Option<Seq<char>>
    decreases params.len(),
{
    if params.len() == 0 {
        None
    } else if params[0].0@ == name {
        Some(params[0].1@)
    } else {
        string_param(params.drop_first(), name)
    }
}

/// The id parameter named `name`, if the event has one.
pub fn get_uuid_parameter(params: &Vec<(String, i32)>, name: &str) -> (r: Option<i32>)
    ensures
        r == uuid_param(params@, name@),
{
    let mut i: usize = 0;
    assert(params@.subrange(0, params@.len() as int) =~= params@);
    while i < params.len()
        invariant
            0 <= i <= params@.len(),
            uuid_param(params@, name@) == uuid_param(params@.subrange(i as int, params@.len() as int), name@),
        decreases params@.len() - i,
    {
        let ghost rest = params@.subrange(i as int, params@.len() as int);
        assert(rest.drop_first() =~= params@.subrange(i as int + 1, params@.len() as int));
        if same_text(params[i].0.as_str(), name) {
            return Some(params[i].1);
        }
        i = i + 1;
    }
    None
}

/// The text parameter named `name`, if the event has one.
pub fn get_string_parameter(params: &Vec<(String, String)>, name: &str) -> (r: Option<String>)
    ensures
        opt_view(r) == string_param(params@, name@),
{
    let mut i: usize = 0;
    assert(params@.subrange(0, params@.len() as int) =~= params@);
    while i < params.len()
        invariant
            0 <= i <= params@.len(),
            string_param(params@, name@) == string_param(
                params@.subrange(i as int, params@.len() as int),
                name@,
            ),
        decreases params@.len() - i,
    {
        let ghost rest = params@.subrange(i as int, params@.len() as int);
        assert(rest.drop_first() =~= params@.subrange(i as int + 1, params@.len() as int));
        if same_text(params[i].0.as_str(), name) {
            return Some(params[i].1.clone());
        }
        i = i + 1;
    }
    None
}

/// Whether `e` is the error for a missing parameter `name`.
pub open spec fn is_missing(e: EventError, name: Seq<char>) -> bool {
    e matches EventError::MissingParameter { name: n } && n@ == name
}

/// The id parameter named `name`; its absence is an error.
pub fn require_uuid_parameter(params: &Vec<(String, i32)>, name: &str) -> (r: Result<i32, EventError>)
    ensures
        match uuid_param(params@, name@) {
            Some(v) => r == Ok::<i32, EventError>(v),
            None => r is Err && is_missing(r->Err_0, name@),
        },
{
    match get_uuid_parameter(params, name) {
        Some(v) => Ok(v),
        None => Err(EventError::MissingParameter { name: String::from_str(name) }),
    }
}

impl AbstractEvent {
    /// Builds an event from its row (absent when the id is not an event) and its
    /// id and text parameters.
    pub fn assemble(
        row: Option<AbstractEventRow>,
        uuid_parameters: Vec<(String, i32)>,
        string_parameters: Vec<(String, String)>,
    ) -> (r: Result<AbstractEvent, EventError>)
        ensures
            row.is_none() ==> r == Err::<AbstractEvent, EventError>(EventError::NotFound),
            row.is_some() && instance_of(row.unwrap().subdomain@).is_none() ==> r == Err::<
                AbstractEvent,
                EventError,
            >(EventError::InvalidInstance),
            row.is_some() && instance_of(row.unwrap().subdomain@).is_some() ==> r.is_ok() && ({
                let e = r.unwrap();
                let w = row.unwrap();
                &&& e.id == w.id
                &&& e.actor_id == w.actor_id
                &&& instance_of(w.subdomain@) == Some(e.instance)
                &&& e.date@ == w.date@
                &&& e.raw_typename@ == w.raw_typename@
                &&& e.object_id == w.object_id
                &&& e.uuid_parameters@ == uuid_parameters@
                &&& e.string_parameters@ == string_parameters@
            }),
    {
        let row = match row {
            Some(row) => row,
            None => return Err(EventError::NotFound),
        };
        let instance = match Instance::parse(row.subdomain.as_str()) {
            Some(instance) => instance,
            None => return Err(EventError::InvalidInstance),
        };
        Ok(AbstractEvent {
            id: row.id,
            actor_id: row.actor_id,
            instance,
            date: row.date,
            raw_typename: row.raw_typename,
            object_id: row.object_id,
            uuid_parameters,
            string_parameters,
        })
    }
}

} // verus!
