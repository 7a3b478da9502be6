use vstd::prelude::*;
use vstd::string::*;

verus! {

/// The fields shared by the events that notifications are made of.
pub struct CommonEventData {
    pub id: i32,
    pub instance: String,
    pub date: String,
    pub uuid_id: i32,
    pub actor_id: i32,
    pub parameter_uuid_id: Option<i32>,
}

/// A removed link between two entities, as shown in a notification.
pub struct RemoveEntityLink {
    pub typename: String,
    pub id: i32,
    pub instance: String,
    pub date: String,
    pub object_id: i32,
    pub actor_id: i32,
    pub child_id: i32,
    pub parent_id: i32,
}

impl RemoveEntityLink {
    /// The notification event of a removed link: the child is the object, and the
    /// parent is the `parent` parameter, or the object where there is none.
    pub fn build(data: CommonEventData) -> (r: RemoveEntityLink)
        ensures
            r.typename@ == "RemoveEntityLinkNotificationEvent"@,
            r.id == data.id,
            r.instance@ == data.instance@,
            r.date@ == data.date@,
            r.object_id == data.uuid_id,
            r.actor_id == data.actor_id,
            r.child_id == data.uuid_id,
            r.parent_id == match data.parameter_uuid_id {
                Some(p) => p,
                None => data.uuid_id,
            },
    {
        let parent_id = match data.parameter_uuid_id {
            Some(p) => p,
            None => data.uuid_id,
        };
        RemoveEntityLink {
            typename: String::from_str("RemoveEntityLinkNotificationEvent"),
            id: data.id,
            instance: data.instance,
            date: data.date,
            object_id: data.uuid_id,
            actor_id: data.actor_id,
            child_id: data.uuid_id,
            parent_id,
        }
    }
}

/// A message about notifications.
pub enum NotificationMessage {
    NotificationsQuery(NotificationsQuery),
    NotificationSetStateMutation(NotificationSetStateMutation),
}

/// Asks for the notifications of a user.
pub struct NotificationsQuery {
    pub user_id: i32,
}

/// Marks notifications of a user as read or unread.
pub struct NotificationSetStateMutation {
    pub ids: Vec<i32>,
    pub user_id: i32,
    pub unread: bool,
}

} // verus!
