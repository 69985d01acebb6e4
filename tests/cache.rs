use chess_bot::cache::{EntityCache, Lookup, RemoteEntity, ResourceType};
use chess_bot::commands::Error;

fn hit(l: Lookup<RemoteEntity>) -> RemoteEntity {
    match l {
        Lookup::Hit(e) => e,
        other => panic!("not a hit: {other:?}"),
    }
}

#[test]
fn read_through_then_hit() {
    let mut c = EntityCache::new();
    assert!(matches!(c.get_or_fetch(ResourceType::User, "u1"), Lookup::Fetch));
    let first = c.complete_fetch(ResourceType::User, "u1", Ok("{\"name\":\"a\"}".into())).unwrap();
    assert_eq!((first.id.as_str(), first.kind, first.payload.as_str()), ("u1", ResourceType::User, "{\"name\":\"a\"}"));
    let second = hit(c.get_or_fetch(ResourceType::User, "u1"));
    assert_eq!((second.id, second.kind, second.payload), (first.id, first.kind, first.payload));
}

#[test]
fn concurrent_reads_fetch_once() {
    let mut c = EntityCache::new();
    let outcomes: Vec<Lookup<RemoteEntity>> = (0..5).map(|_| c.get_or_fetch(ResourceType::User, "u1")).collect();
    let fetches = outcomes.iter().filter(|l| matches!(l, Lookup::Fetch)).count();
    let waits = outcomes.iter().filter(|l| matches!(l, Lookup::Wait)).count();
    assert_eq!((fetches, waits), (1, 4));
    assert!(matches!(outcomes[0], Lookup::Fetch));
    c.complete_fetch(ResourceType::User, "u1", Ok("p".into())).unwrap();
    assert_eq!(hit(c.get_or_fetch(ResourceType::User, "u1")).payload, "p");
}

#[test]
fn failed_fetch_is_reported_and_retried() {
    let mut c = EntityCache::new();
    assert!(matches!(c.get_or_fetch(ResourceType::Channel, "c1"), Lookup::Fetch));
    let e = c.complete_fetch(ResourceType::Channel, "c1", Err("Delta(Timeout)".into())).unwrap_err();
    assert!(matches!(&e, Error::Fetch { resource: ResourceType::Channel, inner } if inner == "Delta(Timeout)"));
    assert_eq!(e.to_string(), "Failed to fetch Channel: Delta(Timeout)");
    assert!(c.get_only(ResourceType::Channel, "c1").is_none());
    assert!(matches!(c.get_or_fetch(ResourceType::Channel, "c1"), Lookup::Fetch));
}

#[test]
fn kinds_are_separate() {
    let mut c = EntityCache::new();
    c.bulk_load(ResourceType::Server, vec![("x".into(), "server".into())]);
    assert!(c.get_only(ResourceType::User, "x").is_none());
    assert_eq!(c.get_only(ResourceType::Server, "x").unwrap().payload, "server");
    assert!(matches!(c.get_or_fetch(ResourceType::User, "x"), Lookup::Fetch));
}

#[test]
fn bulk_load_replaces_kind() {
    let mut c = EntityCache::new();
    assert!(matches!(c.get_or_fetch(ResourceType::User, "old"), Lookup::Fetch));
    c.complete_fetch(ResourceType::User, "old", Ok("o".into())).unwrap();
    c.bulk_load(
        ResourceType::User,
        vec![("a".into(), "1".into()), ("b".into(), "2".into()), ("a".into(), "3".into())],
    );
    assert_eq!(c.len(ResourceType::User), 2);
    assert!(c.get_only(ResourceType::User, "old").is_none());
    assert_eq!(c.get_only(ResourceType::User, "a").unwrap().payload, "3");
    assert_eq!(c.get_only(ResourceType::User, "b").unwrap().kind, ResourceType::User);
    c.bulk_load(ResourceType::User, vec![]);
    assert_eq!(c.len(ResourceType::User), 0);
}

#[test]
fn resource_names() {
    assert_eq!(ResourceType::User.name(), "User");
    assert_eq!(ResourceType::Server.name(), "Server");
    assert_eq!(ResourceType::Member.name(), "Member");
    assert_eq!(ResourceType::Emoji.name(), "Emoji");
}
