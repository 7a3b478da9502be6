use vstd::prelude::*;
use vstd::string::*;

use crate::error::EventError;
use crate::event::{
    event_type_of_tag, get_string_parameter, get_uuid_parameter, is_missing, require_uuid_parameter,
    required_parameter, string_param, uuid_param, AbstractEvent, EventType,
};

verus! {

pub struct SetThreadStateEvent {
    pub thread_id: i32,
    pub archived: bool,
}

pub struct CreateComment {
    pub thread_id: i32,
    pub comment_id: i32,
}

pub struct CreateThreadEvent {
    pub object_id: i32,
    pub thread_id: i32,
}

pub struct CreateEntityEvent {
    pub entity_id: i32,
}

pub struct SetLicenseEvent {
    pub repository_id: i32,
}

pub struct EntityLinkEvent {
    pub child_id: i32,
    pub parent_id: i32,
}

pub struct CreateEntityRevisionEvent {
    pub entity_id: i32,
    pub entity_revision_id: i32,
}

pub struct RevisionEvent {
    pub repository_id: i32,
    pub revision_id: i32,
    pub reason: String,
}

pub struct TaxonomyLinkEvent {
    pub parent_id: i32,
    pub child_id: i32,
}

pub struct RemoveTaxonomyLink {
    pub parent_id: i32,
    pub child_id: i32,
}

pub struct CreateTaxonomyTerm {
    pub taxonomy_term_id: i32,
}

pub struct TaxonomyTermEvent {
    pub taxonomy_term_id: i32,
}

pub struct SetTaxonomyParentEvent {
    pub child_id: i32,
    pub previous_parent_id: Option<i32>,
    pub parent_id: Option<i32>,
}

pub struct SetUuidStateEvent {
    pub trashed: bool,
}

/// The typed part of an event.
pub enum ConcreteEvent {
    SetThreadState(SetThreadStateEvent),
    CreateComment(CreateComment),
    CreateThread(CreateThreadEvent),
    CreateEntity(CreateEntityEvent),
    SetLicense(SetLicenseEvent),
    CreateEntityLink(EntityLinkEvent),
    RemoveEntityLink(EntityLinkEvent),
    CreateEntityRevision(CreateEntityRevisionEvent),
    CheckoutRevision(RevisionEvent),
    RejectRevision(RevisionEvent),
    CreateTaxonomyLink(TaxonomyLinkEvent),
    RemoveTaxonomyLink(RemoveTaxonomyLink),
    CreateTaxonomyTerm(CreateTaxonomyTerm),
    SetTaxonomyTerm(TaxonomyTermEvent),
    SetTaxonomyParent(SetTaxonomyParentEvent),
    SetUuidState(SetUuidStateEvent),
}

/// An event: the stored record and its typed projection.
pub struct Event {
    pub abstract_event: AbstractEvent,
    pub concrete_event: ConcreteEvent,
}

/// The name of the required parameter that `ev` lacks for the kind `t`, if any.
pub open spec fn missing_parameter(ev: AbstractEvent, t: EventType) -> Option<Seq<char>> {
    match required_parameter(t) {
        Some(n) => if uuid_param(ev.uuid_parameters@, n) is None {
            Some(n)
        } else {
            None
        },
        None => None,
    }
}

/// `c` is the projection of `ev` as an event of kind `t` that sets `flag`.
pub open spec fn is_projection(c: ConcreteEvent, ev: AbstractEvent, t: EventType, flag: bool) -> bool {
    let ids = ev.uuid_parameters@;
    let texts = ev.string_parameters@;
    let o = ev.object_id;
    match t {
        EventType::SetThreadState => c matches ConcreteEvent::SetThreadState(e) && e.thread_id == o
            && e.archived == flag,
        EventType::CreateComment => c matches ConcreteEvent::CreateComment(e) && Some(e.thread_id)
            == uuid_param(ids, "discussion"@) && e.comment_id == o,
        EventType::CreateThread => c matches ConcreteEvent::CreateThread(e) && Some(e.object_id)
            == uuid_param(ids, "on"@) && e.thread_id == o,
        EventType::CreateEntity => c matches ConcreteEvent::CreateEntity(e) && e.entity_id == o,
        EventType::SetLicense => c matches ConcreteEvent::SetLicense(e) && e.repository_id == o,
        EventType::CreateEntityLink => c matches ConcreteEvent::CreateEntityLink(e) && e.child_id == o
            && Some(e.parent_id) == uuid_param(ids, "parent"@),
        EventType::RemoveEntityLink => c matches ConcreteEvent::RemoveEntityLink(e) && e.child_id == o
            && e.parent_id == match uuid_param(ids, "parent"@) {
            Some(p) => p,
            None => o,
        },
        EventType::CreateEntityRevision => c matches ConcreteEvent::CreateEntityRevision(e) && Some(
            e.entity_id,
        ) == uuid_param(ids, "repository"@) && e.entity_revision_id == o,
        EventType::CheckoutRevision => c matches ConcreteEvent::CheckoutRevision(e) && Some(
            e.repository_id,
        ) == uuid_param(ids, "repository"@) && e.revision_id == o && e.reason@ == match string_param(
            texts,
            "reason"@,
        ) {
            Some(r) => r,
            None => Seq::<char>::empty(),
        },
        EventType::RejectRevision => c matches ConcreteEvent::RejectRevision(e) && Some(e.repository_id)
            == uuid_param(ids, "repository"@) && e.revision_id == o && e.reason@ == match string_param(
            texts,
            "reason"@,
        ) {
            Some(r) => r,
            None => Seq::<char>::empty(),
        },
        EventType::CreateTaxonomyLink => c matches ConcreteEvent::CreateTaxonomyLink(e) && e.parent_id
            == o && Some(e.child_id) == uuid_param(ids, "object"@),
        EventType::RemoveTaxonomyLink => c matches ConcreteEvent::RemoveTaxonomyLink(e) && e.parent_id
            == o && Some(e.child_id) == uuid_param(ids, "object"@),
        EventType::CreateTaxonomyTerm => c matches ConcreteEvent::CreateTaxonomyTerm(e)
            && e.taxonomy_term_id == o,
        EventType::SetTaxonomyTerm => c matches ConcreteEvent::SetTaxonomyTerm(e) && e.taxonomy_term_id
            == o,
        EventType::SetTaxonomyParent => c matches ConcreteEvent::SetTaxonomyParent(e) && e.child_id == o
            && e.previous_parent_id == uuid_param(ids, "from"@) && e.parent_id == uuid_param(ids, "to"@),
        EventType::SetUuidState => c matches ConcreteEvent::SetUuidState(e) && e.trashed == flag,
    }
}

impl CreateComment {
    /// The comment event: the thread from the `discussion` parameter, the comment
    /// from the object.
    pub fn try_from_event(ev: &AbstractEvent) -> (r: Result<CreateComment, EventError>)
        ensures
            match uuid_param(ev.uuid_parameters@, "discussion"@) {
                Some(t) => r is Ok && r->Ok_0.thread_id == t && r->Ok_0.comment_id == ev.object_id,
                None => r is Err && is_missing(r->Err_0, "discussion"@),
            },
    {
        let thread_id = require_uuid_parameter(&ev.uuid_parameters, "discussion")?;
        Ok(CreateComment { thread_id, comment_id: ev.object_id })
    }
}

impl CreateTaxonomyTerm {
    /// The term event: the term is the object.
    pub fn fetch(ev: &AbstractEvent) -> (r: CreateTaxonomyTerm)
        ensures
            r.taxonomy_term_id == ev.object_id,
    {
        CreateTaxonomyTerm { taxonomy_term_id: ev.object_id }
    }
}

impl RemoveTaxonomyLink {
    /// The unlinking event: the parent term is the object, the child comes from the
    /// `object` parameter.
    pub fn fetch(ev: &AbstractEvent) -> (r: Result<RemoveTaxonomyLink, EventError>)
        ensures
            match uuid_param(ev.uuid_parameters@, "object"@) {
                Some(c) => r is Ok && r->Ok_0.child_id == c && r->Ok_0.parent_id == ev.object_id,
                None => r is Err && is_missing(r->Err_0, "object"@),
            },
    {
        let child_id = require_uuid_parameter(&ev.uuid_parameters, "object")?;
        Ok(RemoveTaxonomyLink { parent_id: ev.object_id, child_id })
    }
}

/// The revision event, with the reason given or an empty one.
fn revision_event(ev: &AbstractEvent) -> (r: Result<RevisionEvent, EventError>)
    ensures
        match uuid_param(ev.uuid_parameters@, "repository"@) {
            Some(p) => r is Ok && r->Ok_0.repository_id == p && r->Ok_0.revision_id == ev.object_id
                && r->Ok_0.reason@ == match string_param(ev.string_parameters@, "reason"@) {
                Some(t) => t,
                None => Seq::<char>::empty(),
            },
            None => r is Err && is_missing(r->Err_0, "repository"@),
        },
{
    let repository_id = require_uuid_parameter(&ev.uuid_parameters, "repository")?;
    let reason = match get_string_parameter(&ev.string_parameters, "reason") {
        Some(t) => t,
        None => String::new(),
    };
    Ok(RevisionEvent { repository_id, revision_id: ev.object_id, reason })
}

/// Projects `ev` as an event of kind `t` that sets `flag`.
pub fn project(t: EventType, flag: bool, ev: &AbstractEvent) -> (r: Result<ConcreteEvent, EventError>)
    ensures
        match missing_parameter(*ev, t) {
            Some(n) => r is Err && is_missing(r->Err_0, n),
            None => r is Ok && is_projection(r->Ok_0, *ev, t, flag),
        },
{
    let ids = &ev.uuid_parameters;
    let o = ev.object_id;
    match t {
        EventType::SetThreadState => Ok(
            ConcreteEvent::SetThreadState(SetThreadStateEvent { thread_id: o, archived: flag }),
        ),
        EventType::CreateComment => Ok(ConcreteEvent::CreateComment(CreateComment::try_from_event(ev)?)),
        EventType::CreateThread => {
            let object_id = require_uuid_parameter(ids, "on")?;
            Ok(ConcreteEvent::CreateThread(CreateThreadEvent { object_id, thread_id: o }))
        },
        EventType::CreateEntity => Ok(ConcreteEvent::CreateEntity(CreateEntityEvent { entity_id: o })),
        EventType::SetLicense => Ok(ConcreteEvent::SetLicense(SetLicenseEvent { repository_id: o })),
        EventType::CreateEntityLink => {
            let parent_id = require_uuid_parameter(ids, "parent")?;
            Ok(ConcreteEvent::CreateEntityLink(EntityLinkEvent { child_id: o, parent_id }))
        },
        EventType::RemoveEntityLink => {
            let parent_id = match get_uuid_parameter(ids, "parent") {
                Some(p) => p,
                None => o,
            };
            Ok(ConcreteEvent::RemoveEntityLink(EntityLinkEvent { child_id: o, parent_id }))
        },
        EventType::CreateEntityRevision => {
            let entity_id = require_uuid_parameter(ids, "repository")?;
            Ok(
                ConcreteEvent::CreateEntityRevision(
                    CreateEntityRevisionEvent { entity_id, entity_revision_id: o },
                ),
            )
        },
        EventType::CheckoutRevision => Ok(ConcreteEvent::CheckoutRevision(revision_event(ev)?)),
        EventType::RejectRevision => Ok(ConcreteEvent::RejectRevision(revision_event(ev)?)),
        EventType::CreateTaxonomyLink => {
            let child_id = require_uuid_parameter(ids, "object")?;
            Ok(ConcreteEvent::CreateTaxonomyLink(TaxonomyLinkEvent { parent_id: o, child_id }))
        },
        EventType::RemoveTaxonomyLink => Ok(
            ConcreteEvent::RemoveTaxonomyLink(RemoveTaxonomyLink::fetch(ev)?),
        ),
        EventType::CreateTaxonomyTerm => Ok(
            ConcreteEvent::CreateTaxonomyTerm(CreateTaxonomyTerm::fetch(ev)),
        ),
        EventType::SetTaxonomyTerm => Ok(
            ConcreteEvent::SetTaxonomyTerm(TaxonomyTermEvent { taxonomy_term_id: o }),
        ),
        EventType::SetTaxonomyParent => {
            let previous_parent_id = get_uuid_parameter(ids, "from");
            let parent_id = get_uuid_parameter(ids, "to");
            Ok(
                ConcreteEvent::SetTaxonomyParent(
                    SetTaxonomyParentEvent { child_id: o, previous_parent_id, parent_id },
                ),
            )
        },
        EventType::SetUuidState => Ok(ConcreteEvent::SetUuidState(SetUuidStateEvent { trashed: flag })),
    }
}

impl Event {
    /// Projects a stored event into its typed form, by its tag.
    pub fn from_abstract(abstract_event: AbstractEvent) -> (r: Result<Event, EventError>)
        ensures
            match event_type_of_tag(abstract_event.raw_typename@) {
                None => r == Err::<Event, EventError>(EventError::UnsupportedEventType),
                Some((t, flag)) => match missing_parameter(abstract_event, t) {
                    Some(n) => r is Err && is_missing(r->Err_0, n),
                    None => r is Ok && r->Ok_0.abstract_event == abstract_event && is_projection(
                        r->Ok_0.concrete_event,
                        abstract_event,
                        t,
                        flag,
                    ),
                },
            },
    {
        let (t, flag) = match EventType::parse(abstract_event.raw_typename.as_str()) {
            Some(parsed) => parsed,
            None => return Err(EventError::UnsupportedEventType),
        };
        let concrete_event = project(t, flag, &abstract_event)?;
        Ok(Event { abstract_event, concrete_event })
    }
}

} // verus!
