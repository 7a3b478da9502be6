use serlo_resolve::alias::{format_alias, slugify};
use serlo_resolve::comment::{Comment, CommentRow};
use serlo_resolve::datetime::{format_datetime, format_rfc3339, LocalDateTime};
use serlo_resolve::entity::{ConcreteEntity, Entity, EntityLink, EntityRow, EntityType};
use serlo_resolve::error::{EventError, UuidError};
use serlo_resolve::event::{AbstractEvent, AbstractEventRow, EventType};
use serlo_resolve::instance::Instance;
use serlo_resolve::notification::{CommonEventData, RemoveEntityLink};
use serlo_resolve::ordering::ids_ordered_by_key;
use serlo_resolve::projection::{ConcreteEvent, Event};
use serlo_resolve::taxonomy_term::{TaxonomyTerm, TaxonomyTermRow, TermNode};
use serlo_resolve::uuid::{kind_of, ConcreteUuid, Uuid, UuidKind};

fn node(id: i32, parent_id: Option<i32>, name: &str) -> TermNode {
    TermNode { id, parent_id, name: name.to_string() }
}

fn chain(depth: i32) -> Vec<TermNode> {
    let mut nodes = vec![node(1, None, "Root")];
    for d in 1..=depth {
        let name = if d == 1 { "Biology".to_string() } else { format!("Level {}", d) };
        nodes.push(TermNode { id: d + 1, parent_id: Some(d), name });
    }
    nodes
}

fn term_row(name: &str, subdomain: &str) -> TaxonomyTermRow {
    TaxonomyTermRow {
        trashed: false,
        name: name.to_string(),
        term_type: "topic-folder".to_string(),
        subdomain: subdomain.to_string(),
        description: None,
        weight: Some(3),
        parent_id: Some(1),
    }
}

fn entity_row(kind: &str, title: Option<&str>, fallback: Option<&str>) -> EntityRow {
    EntityRow {
        trashed: false,
        kind_name: kind.to_string(),
        subdomain: "de".to_string(),
        date: "2014-03-01T20:45:56+01:00".to_string(),
        current_revision_id: Some(7),
        license_id: 1,
        title: title.map(|t| t.to_string()),
        fallback_title: fallback.map(|t| t.to_string()),
    }
}

fn link(parent_id: i32, child_id: i32, child_type: &str, order: i32) -> EntityLink {
    EntityLink { parent_id, child_id, child_type: child_type.to_string(), order }
}

fn comment_row(parent_id: Option<i32>, uuid_id: Option<i32>) -> CommentRow {
    CommentRow {
        trashed: false,
        author_id: 10,
        title: None,
        date: "2020-01-01T00:00:00+01:00".to_string(),
        archived: false,
        content: Some("text".to_string()),
        parent_id,
        uuid_id,
        parent_title: None,
        parent_uuid_id: None,
    }
}

fn event(tag: &str, object_id: i32, ids: Vec<(&str, i32)>, texts: Vec<(&str, &str)>) -> AbstractEvent {
    let row = AbstractEventRow {
        id: 5,
        actor_id: 6,
        subdomain: "de".to_string(),
        date: "2020-01-01T00:00:00+01:00".to_string(),
        raw_typename: tag.to_string(),
        object_id,
    };
    let ids = ids.into_iter().map(|(n, v)| (n.to_string(), v)).collect();
    let texts = texts.into_iter().map(|(n, v)| (n.to_string(), v.to_string())).collect();
    match AbstractEvent::assemble(Some(row), ids, texts) {
        Ok(e) => e,
        Err(_) => panic!("event row should assemble"),
    }
}

#[test]
fn format_alias_double_dash() {
    assert_eq!(
        slugify("Flächen- und Volumenberechnung mit Integralen"),
        Some("flächen-und-volumenberechnung-mit-integralen".to_string())
    )
}

#[test]
fn slugify_strips_and_trims() {
    assert_eq!(slugify("\"Hello\", (World)!"), Some("hello-world".to_string()));
    assert_eq!(slugify("--ABC--"), Some("abc".to_string()));
}

#[test]
fn format_alias_with_prefix_and_suffix() {
    assert_eq!(format_alias(Some("Mathe"), 1855, Some("Hello World")), Some("/mathe/1855/hello-world".to_string()));
    assert_eq!(format_alias(None, 7, None), Some("/7/".to_string()));
    assert_eq!(format_alias(None, -3, Some("x")), Some("/-3/x".to_string()));
}

#[test]
fn normalize_type_is_camel_case() {
    assert_eq!(TaxonomyTerm::normalize_type("topic-folder"), "topicFolder");
    assert_eq!(TaxonomyTerm::normalize_type("curriculum_topic_folder"), "curriculumTopicFolder");
}

#[test]
fn instance_parse() {
    assert_eq!(Instance::parse("de"), Some(Instance::De));
    assert_eq!(Instance::parse("ta"), Some(Instance::Ta));
    assert_eq!(Instance::parse("xx"), None);
}

#[test]
fn ordering_is_stable_by_key() {
    assert_eq!(ids_ordered_by_key(&vec![(3, 30), (1, 10), (3, 31), (2, 20), (1, 11)]), vec![10, 11, 20, 30, 31]);
    assert_eq!(ids_ordered_by_key(&vec![]), Vec::<i32>::new());
}

#[test]
fn taxonomy_children_entities_first() {
    let nodes = chain(2);
    let r = TaxonomyTerm::fetch(3, Some(term_row("Cells", "de")), &vec![(2, 100), (1, 101)], &vec![(5, 200), (1, 201)], &nodes);
    match r {
        Ok(Uuid { concrete_uuid: ConcreteUuid::TaxonomyTerm(t), alias_subject, alias_title, .. }) => {
            assert_eq!(t.children_ids, vec![101, 100, 201, 200]);
            assert_eq!(t.term_type, "topicFolder");
            assert_eq!(t.weight, 3);
            assert_eq!(t.instance, Instance::De);
            assert_eq!(alias_subject, Some("Biology".to_string()));
            assert_eq!(alias_title, "Cells");
        }
        _ => panic!("expected a taxonomy term"),
    }
}

#[test]
fn taxonomy_term_errors() {
    let nodes = chain(1);
    assert!(matches!(TaxonomyTerm::fetch(2, None, &vec![], &vec![], &nodes), Err(UuidError::NotFound)));
    assert!(matches!(
        TaxonomyTerm::fetch(2, Some(term_row("X", "zz")), &vec![], &vec![], &nodes),
        Err(UuidError::InvalidInstance)
    ));
}

#[test]
fn canonical_subject_depths() {
    let nodes = chain(3);
    assert_eq!(TaxonomyTerm::fetch_canonical_subject(&nodes, 4), Some("Biology".to_string()));
    assert_eq!(TaxonomyTerm::fetch_canonical_subject(&nodes, 2), Some("Biology".to_string()));
    assert_eq!(TaxonomyTerm::fetch_canonical_subject(&nodes, 1), None);
    assert_eq!(TaxonomyTerm::fetch_canonical_subject(&nodes, 99), None);
}

#[test]
fn canonical_subject_depth_bound() {
    let nodes = chain(21);
    assert_eq!(TaxonomyTerm::fetch_canonical_subject(&nodes, 21), Some("Biology".to_string()));
    assert_eq!(TaxonomyTerm::fetch_canonical_subject(&nodes, 22), None);
}

#[test]
fn canonical_subject_cycle_is_none() {
    let nodes = vec![node(1, Some(2), "a"), node(2, Some(1), "b")];
    assert_eq!(TaxonomyTerm::fetch_canonical_subject(&nodes, 1), None);
}

#[test]
fn entity_title_falls_back_to_first_revision() {
    let r = Entity::fetch(50, Some(entity_row("article", Some(""), Some("T"))), vec![1, 2], vec![4], &vec![], &vec![], &chain(1));
    match r {
        Ok(u) => {
            assert_eq!(u.alias_title, "T");
            assert!(matches!(u.concrete_uuid, ConcreteUuid::Entity(Entity { concrete_entity: ConcreteEntity::Generic, .. })));
        }
        Err(_) => panic!("expected an entity"),
    }
    let r = Entity::fetch(50, Some(entity_row("article", None, None)), vec![], vec![], &vec![], &vec![], &chain(1));
    assert_eq!(r.ok().map(|u| u.alias_title), Some("50".to_string()));
}

#[test]
fn course_page_without_parent_fails() {
    let r = Entity::fetch(60, Some(entity_row("course-page", Some("P"), None)), vec![], vec![], &vec![link(1, 2, "course-page", 0)], &vec![], &chain(1));
    assert!(matches!(r, Err(UuidError::EntityMissingRequiredParent)));
}

#[test]
fn course_pages_in_link_order() {
    let links = vec![
        link(70, 73, "course-page", 2),
        link(70, 71, "course-page", 0),
        link(70, 80, "text-exercise", 1),
        link(70, 72, "course-page", 1),
    ];
    let r = Entity::fetch(70, Some(entity_row("course", Some("C"), None)), vec![], vec![], &links, &vec![2], &chain(1));
    match r {
        Ok(Uuid { concrete_uuid: ConcreteUuid::Entity(e), alias_subject, .. }) => {
            assert_eq!(e.abstract_entity.entity_type, EntityType::Course);
            assert_eq!(alias_subject, Some("Biology".to_string()));
            match e.concrete_entity {
                ConcreteEntity::Course(c) => assert_eq!(c.page_ids, vec![71, 72, 73]),
                _ => panic!("expected a course"),
            }
        }
        _ => panic!("expected an entity"),
    }
}

#[test]
fn grouped_exercise_takes_first_solution() {
    let links = vec![
        link(90, 91, "grouped-text-exercise", 0),
        link(91, 93, "text-solution", 5),
        link(91, 92, "text-solution", 1),
    ];
    let r = Entity::fetch(91, Some(entity_row("grouped-text-exercise", Some("G"), None)), vec![], vec![], &links, &vec![], &chain(1));
    match r {
        Ok(Uuid { concrete_uuid: ConcreteUuid::Entity(e), .. }) => match e.concrete_entity {
            ConcreteEntity::GroupedExercise(g) => {
                assert_eq!(g.parent_id, 90);
                assert_eq!(g.solution_id, Some(92));
            }
            _ => panic!("expected a grouped exercise"),
        },
        _ => panic!("expected an entity"),
    }
}

#[test]
fn root_comment_parent_is_object() {
    let nodes = chain(2);
    let r = Comment::fetch(11, Some(comment_row(None, Some(99))), vec![12, 13], None, &nodes, &vec![]);
    match r {
        Ok(Uuid { concrete_uuid: ConcreteUuid::Comment(c), alias_title, alias_subject, .. }) => {
            assert_eq!(c.parent_id, 99);
            assert_eq!(c.children_ids, vec![12, 13]);
            assert_eq!(alias_title, "11");
            assert_eq!(alias_subject, None);
        }
        _ => panic!("expected a comment"),
    }
    assert!(matches!(Comment::fetch(11, None, vec![], None, &nodes, &vec![]), Err(UuidError::NotFound)));
}

#[test]
fn comment_without_thread_object_is_not_found() {
    let nodes = chain(2);
    let r = Comment::fetch(11, Some(comment_row(None, None)), vec![], None, &nodes, &vec![]);
    assert!(matches!(r, Err(UuidError::NotFound)));
    let r = Comment::fetch(11, Some(comment_row(Some(8), None)), vec![], None, &nodes, &vec![]);
    assert!(matches!(r, Err(UuidError::NotFound)));
}

#[test]
fn answer_takes_context_from_parent_object() {
    let nodes = chain(2);
    let mut row = comment_row(Some(8), None);
    row.parent_uuid_id = Some(3);
    assert_eq!(Comment::thread_object(&row), Some(3));
    let r = Comment::fetch(11, Some(row), vec![], Some(UuidKind::TaxonomyTerm), &nodes, &vec![]);
    match r {
        Ok(Uuid { concrete_uuid: ConcreteUuid::Comment(c), alias_subject, .. }) => {
            assert_eq!(c.parent_id, 8);
            assert_eq!(alias_subject, Some("Biology".to_string()));
        }
        _ => panic!("expected a comment"),
    }
}

#[test]
fn comment_alias_uses_parent_title() {
    let mut row = comment_row(Some(8), None);
    row.parent_title = Some("Frage zu Brüchen".to_string());
    row.parent_uuid_id = Some(50);
    let u = Comment::fetch(11, Some(row), vec![], Some(UuidKind::Entity), &chain(2), &vec![2]).ok().unwrap();
    assert_eq!(u.alias(), Some("/biology/11/frage-zu-brüchen".to_string()));
}

#[test]
fn registry_kinds() {
    assert_eq!(kind_of(Some("comment")), Ok(UuidKind::Comment));
    assert_eq!(kind_of(Some("entity")), Ok(UuidKind::Entity));
    assert_eq!(kind_of(Some("taxonomyTerm")), Ok(UuidKind::TaxonomyTerm));
    assert_eq!(kind_of(Some("page")), Err(UuidError::UnsupportedDiscriminator));
    assert_eq!(kind_of(None), Err(UuidError::NotFound));
}

#[test]
fn resolving_twice_gives_the_same_term() {
    let nodes = chain(2);
    let a = TaxonomyTerm::fetch(3, Some(term_row("Cells", "de")), &vec![(1, 100)], &vec![(1, 200)], &nodes).ok().unwrap();
    let b = TaxonomyTerm::fetch(3, Some(term_row("Cells", "de")), &vec![(1, 100)], &vec![(1, 200)], &nodes).ok().unwrap();
    assert_eq!(a.alias(), b.alias());
    assert_eq!(a.alias(), Some("/biology/3/cells".to_string()));
    match (a.concrete_uuid, b.concrete_uuid) {
        (ConcreteUuid::TaxonomyTerm(x), ConcreteUuid::TaxonomyTerm(y)) => assert_eq!(x.children_ids, y.children_ids),
        _ => panic!("expected taxonomy terms"),
    }
}

#[test]
fn remove_entity_link_defaults_parent() {
    let e = Event::from_abstract(event("entity/link/remove", 42, vec![], vec![])).ok().unwrap();
    match e.concrete_event {
        ConcreteEvent::RemoveEntityLink(l) => {
            assert_eq!(l.child_id, 42);
            assert_eq!(l.parent_id, 42);
        }
        _ => panic!("expected a removed link"),
    }
    let data = CommonEventData { id: 1, instance: "de".to_string(), date: "d".to_string(), uuid_id: 42, actor_id: 3, parameter_uuid_id: None };
    let n = RemoveEntityLink::build(data);
    assert_eq!((n.child_id, n.parent_id), (42, 42));
    assert_eq!(n.typename, "RemoveEntityLinkNotificationEvent");
}

#[test]
fn create_comment_requires_discussion() {
    let r = Event::from_abstract(event("discussion/comment/create", 12, vec![("other", 1)], vec![]));
    assert_eq!(r.err(), Some(EventError::MissingParameter { name: "discussion".to_string() }));
    let e = Event::from_abstract(event("discussion/comment/create", 12, vec![("discussion", 11)], vec![])).ok().unwrap();
    match e.concrete_event {
        ConcreteEvent::CreateComment(c) => assert_eq!((c.thread_id, c.comment_id), (11, 12)),
        _ => panic!("expected a comment event"),
    }
}

#[test]
fn event_projection_kinds() {
    let e = Event::from_abstract(event("entity/revision/reject", 30, vec![("repository", 20)], vec![("reason", "spam")])).ok().unwrap();
    match e.concrete_event {
        ConcreteEvent::RejectRevision(r) => {
            assert_eq!((r.repository_id, r.revision_id), (20, 30));
            assert_eq!(r.reason, "spam");
        }
        _ => panic!("expected a rejected revision"),
    }
    let e = Event::from_abstract(event("taxonomy/term/parent/change", 5, vec![("to", 9)], vec![])).ok().unwrap();
    match e.concrete_event {
        ConcreteEvent::SetTaxonomyParent(p) => assert_eq!((p.child_id, p.previous_parent_id, p.parent_id), (5, None, Some(9))),
        _ => panic!("expected a parent change"),
    }
    let e = Event::from_abstract(event("uuid/trash", 5, vec![], vec![])).ok().unwrap();
    assert!(matches!(e.concrete_event, ConcreteEvent::SetUuidState(s) if s.trashed));
    let e = Event::from_abstract(event("taxonomy/term/dissociate", 5, vec![("object", 8)], vec![])).ok().unwrap();
    assert!(matches!(e.concrete_event, ConcreteEvent::RemoveTaxonomyLink(l) if l.parent_id == 5 && l.child_id == 8));
    assert_eq!(EventType::parse("nope"), None);
    assert_eq!(Event::from_abstract(event("nope", 1, vec![], vec![])).err(), Some(EventError::UnsupportedEventType));
}

#[test]
fn event_row_errors() {
    assert_eq!(AbstractEvent::assemble(None, vec![], vec![]).err(), Some(EventError::NotFound));
    let row = AbstractEventRow { id: 1, actor_id: 1, subdomain: "xx".to_string(), date: String::new(), raw_typename: "entity/create".to_string(), object_id: 1 };
    assert_eq!(AbstractEvent::assemble(Some(row), vec![], vec![]).err(), Some(EventError::InvalidInstance));
}

fn local(year: i32, month: u32, day: u32, hour: u32, minute: u32, second: u32) -> LocalDateTime {
    LocalDateTime { year, month, day, hour, minute, second }
}

#[test]
fn datetime_in_winter_and_summer() {
    assert_eq!(format_datetime(&local(2014, 3, 1, 20, 45, 56)), Some("2014-03-01T20:45:56+01:00".to_string()));
    assert_eq!(format_datetime(&local(2020, 7, 1, 9, 5, 0)), Some("2020-07-01T09:05:00+02:00".to_string()));
    assert_eq!(format_datetime(&local(1999, 12, 31, 23, 59, 59)), Some("1999-12-31T23:59:59+01:00".to_string()));
}

#[test]
fn datetime_skipped_or_repeated_is_none() {
    assert_eq!(format_datetime(&local(2021, 3, 28, 2, 30, 0)), None);
    assert_eq!(format_datetime(&local(2021, 10, 31, 2, 30, 0)), None);
    assert_eq!(format_datetime(&local(2021, 2, 30, 12, 0, 0)), None);
}

#[test]
fn comment_context_by_object_kind() {
    let nodes = chain(2);
    assert_eq!(Comment::fetch_context(Some(3), Some(UuidKind::TaxonomyTerm), &nodes, &vec![]), Ok(Some("Biology".to_string())));
    assert_eq!(Comment::fetch_context(Some(50), Some(UuidKind::Entity), &nodes, &vec![3, 1]), Ok(Some("Biology".to_string())));
    assert_eq!(Comment::fetch_context(Some(50), Some(UuidKind::Entity), &nodes, &vec![]), Ok(None));
    assert_eq!(Comment::fetch_context(Some(3), None, &nodes, &vec![3]), Ok(None));
    assert_eq!(Comment::fetch_context(None, Some(UuidKind::TaxonomyTerm), &nodes, &vec![]), Err(UuidError::NotFound));
}

#[test]
fn rfc3339_offsets() {
    assert_eq!(format_rfc3339(&local(2014, 3, 1, 20, 45, 56), 3600), "2014-03-01T20:45:56+01:00");
    assert_eq!(format_rfc3339(&local(33, 1, 2, 3, 4, 5), -19800), "0033-01-02T03:04:05-05:30");
    assert_eq!(format_rfc3339(&local(1890, 1, 1, 0, 0, 0), 3208), "1890-01-01T00:00:00+00:53");
    assert_eq!(format_rfc3339(&local(2000, 1, 1, 0, 0, 0), 0), "2000-01-01T00:00:00+00:00");
}

#[test]
fn decimal_and_trim() {
    assert_eq!(serlo_resolve::text::decimal(-2147483648), "-2147483648");
    assert_eq!(serlo_resolve::text::decimal(0), "0");
    assert_eq!(serlo_resolve::text::decimal(1905), "1905");
    assert_eq!(serlo_resolve::text::trim_dashes("--a-b--"), "a-b");
    assert_eq!(serlo_resolve::text::trim_dashes("---"), "");
}
