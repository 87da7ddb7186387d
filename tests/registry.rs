use etcd_nats_cluster::registry::{RegistryCache, RegistryError, WatchEvent};
use etcd_nats_cluster::server::{server_key, server_kind_prefix, servers_prefix, Server};

fn server(id: &str, kind: &str) -> Server {
    Server::new(id.to_owned(), kind.to_owned(), "".to_owned(), true)
}

#[test]
fn cache_empty_on_start() {
    let cache = RegistryCache::new("pitaya".to_owned());
    assert_eq!(cache.len(), 0);
    assert_eq!(cache.list_by_kind("room").len(), 0);
    assert_eq!(cache.prefix(), "pitaya");
}

#[test]
fn server_by_id_works() {
    // The store holds one member of kind "room".
    let stored = vec![Some(server("stored-id", "room"))];

    let mut cache = RegistryCache::new("pitaya".to_owned());
    assert!(cache.lookup_by_id("random-id").is_none());
    let found = cache.fill_then_lookup("random-id", &stored).unwrap();
    assert!(found.is_none());
    assert_eq!(cache.len(), 1);

    let mut fresh = RegistryCache::new("pitaya".to_owned());
    assert!(fresh.lookup_by_id("stored-id").is_none());
    let found = fresh.fill_then_lookup("stored-id", &stored).unwrap();
    assert!(found.is_some());
    assert_eq!(fresh.len(), 1);
    assert_eq!(fresh.kinds().len(), 1);
    assert_eq!(fresh.list_by_kind("room").len(), 1);
    assert_eq!(found.unwrap().id, "stored-id");
}

#[test]
fn kinds_are_listed_once() {
    let mut cache = RegistryCache::new("pitaya".to_owned());
    assert!(cache.kinds().is_empty());
    let fetched = vec![
        Some(server("r1", "room")),
        Some(server("g1", "gate")),
        Some(server("r2", "room")),
    ];
    cache.fill(&fetched).unwrap();
    assert_eq!(cache.kinds(), vec!["room".to_owned(), "gate".to_owned()]);
    assert!(cache.cached_bucket("chat").is_none());
    assert_eq!(cache.cached_bucket("room").unwrap().len(), 2);
}

#[test]
fn duplicate_metadata_keys_are_corrupt() {
    let mut bad = server("x", "room");
    bad.metadata.push(("region".to_owned(), "eu".to_owned()));
    bad.metadata.push(("region".to_owned(), "us".to_owned()));
    assert!(!bad.has_unique_metadata_keys());
    let mut cache = RegistryCache::new("pitaya".to_owned());
    assert_eq!(
        cache.fill(&vec![Some(bad.duplicate())]),
        Err(RegistryError::CorruptRegistryEntry)
    );
    assert_eq!(
        cache.apply_event(WatchEvent::Put(Some(bad))),
        Err(RegistryError::CorruptRegistryEntry)
    );
    assert_eq!(cache.len(), 0);
    let mut good = server("y", "room");
    good.metadata.push(("region".to_owned(), "eu".to_owned()));
    good.metadata.push(("zone".to_owned(), "a".to_owned()));
    assert!(good.has_unique_metadata_keys());
    assert!(cache.apply_event(WatchEvent::Put(Some(good))).is_ok());
    assert_eq!(cache.len(), 1);
}

#[test]
fn server_by_type_works() {
    let mut cache = RegistryCache::new("pitaya".to_owned());
    let fetched = vec![
        Some(server("r1", "room")),
        Some(server("g1", "gate")),
        Some(server("r2", "room")),
    ];
    let rooms = cache.fill_then_list("room", &fetched).unwrap();
    assert_eq!(rooms.len(), 2);
    assert_eq!(rooms[0].id, "r1");
    assert_eq!(rooms[1].id, "r2");
    let gates = cache.list_by_kind("gate");
    assert_eq!(gates.len(), 1);
    assert_eq!(gates[0].id, "g1");
    assert_eq!(cache.list_by_kind("chat").len(), 0);
}

#[test]
fn server_watch_works() {
    let mut cache = RegistryCache::new("pitaya".to_owned());
    assert!(cache.apply_event(WatchEvent::Put(Some(server("a", "room")))).is_ok());
    assert!(cache.apply_event(WatchEvent::Put(Some(server("b", "gate")))).is_ok());
    assert_eq!(cache.len(), 2);

    // A put for a known id replaces the entry, moving it to its new kind.
    assert!(cache.apply_event(WatchEvent::Put(Some(server("a", "gate")))).is_ok());
    assert_eq!(cache.len(), 2);
    assert_eq!(cache.list_by_kind("room").len(), 0);
    assert_eq!(cache.list_by_kind("gate").len(), 2);

    // A delete names the key the entry is stored under.
    let key = server_key("pitaya", "gate", "b");
    assert!(cache.apply_event(WatchEvent::Delete(key)).is_ok());
    assert_eq!(cache.len(), 1);
    assert!(cache.lookup_by_id("b").is_none());
    assert!(cache.lookup_by_id("a").is_some());

    // A delete for a key nobody holds changes nothing.
    assert!(cache.apply_event(WatchEvent::Delete("pitaya/servers/gate/zz".to_owned())).is_ok());
    assert_eq!(cache.len(), 1);

    // A corrupt put is refused and changes nothing.
    assert_eq!(
        cache.apply_event(WatchEvent::Put(None)),
        Err(RegistryError::CorruptRegistryEntry)
    );
    assert_eq!(cache.len(), 1);
}

#[test]
fn fill_with_corrupt_entry_changes_nothing() {
    let mut cache = RegistryCache::new("pitaya".to_owned());
    cache.put(server("a", "room"));
    let fetched = vec![Some(server("b", "room")), None];
    assert_eq!(cache.fill(&fetched), Err(RegistryError::CorruptRegistryEntry));
    assert_eq!(cache.len(), 1);
    assert!(cache.lookup_by_id("b").is_none());
    assert_eq!(
        cache.fill_then_lookup("b", &fetched).err(),
        Some(RegistryError::CorruptRegistryEntry)
    );
}

#[test]
fn fill_on_miss_leaves_no_phantom() {
    let mut cache = RegistryCache::new("pitaya".to_owned());
    let found = cache.fill_then_lookup("never-seen", &Vec::new()).unwrap();
    assert!(found.is_none());
    assert_eq!(cache.len(), 0);
    assert_eq!(cache.list_by_kind("room").len(), 0);
}

#[test]
fn cache_stays_consistent_over_fills_and_events() {
    let mut cache = RegistryCache::new("pitaya".to_owned());
    let fetched = vec![Some(server("a", "room")), Some(server("a", "gate"))];
    cache.fill(&fetched).unwrap();
    // Two entries with one id leave a single entry, under the later kind.
    assert_eq!(cache.len(), 1);
    assert_eq!(cache.list_by_kind("room").len(), 0);
    assert_eq!(cache.list_by_kind("gate").len(), 1);
    cache.apply_event(WatchEvent::Put(Some(server("a", "room")))).unwrap();
    assert_eq!(cache.list_by_kind("room").len(), 1);
    assert_eq!(cache.list_by_kind("gate").len(), 0);
    assert_eq!(cache.lookup_by_id("a").unwrap().kind, "room");
}

#[test]
fn keys_follow_the_layout() {
    assert_eq!(servers_prefix("pitaya"), "pitaya/servers/");
    assert_eq!(server_kind_prefix("pitaya", "room"), "pitaya/servers/room/");
    assert_eq!(server_key("pitaya", "room", "my-id"), "pitaya/servers/room/my-id");
    let s = server("my-id", "room");
    assert_eq!(s.registry_key("pitaya"), "pitaya/servers/room/my-id");
    assert_eq!(s.topic(), "pitaya/servers/room/my-id");
}

#[test]
fn duplicate_keeps_every_field() {
    let mut s = Server::new("x".to_owned(), "room".to_owned(), "host".to_owned(), false);
    s.metadata.push(("region".to_owned(), "eu".to_owned()));
    let d = s.duplicate();
    assert_eq!(d.id, "x");
    assert_eq!(d.kind, "room");
    assert_eq!(d.hostname, "host");
    assert!(!d.frontend);
    assert_eq!(d.metadata, vec![("region".to_owned(), "eu".to_owned())]);
}
