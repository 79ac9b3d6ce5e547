use graph_server::messages::ArenaMessage;
use graph_server::messages::GraphMessage;
use graph_server::messages::SourceMessage;
use graph_server::history::BoundedHistory;
use graph_server::dedup::DedupSet;
use graph_server::latest::LatestValue;

fn graph(g: &str, t: u64) -> GraphMessage {
    GraphMessage { graph: String::from(g), timestamp: t }
}

fn source(n: usize, p: &str, s: &str) -> SourceMessage {
    SourceMessage { file_number: n, path: String::from(p), source: String::from(s) }
}

fn arena(a: &str) -> ArenaMessage {
    ArenaMessage { arena: String::from(a) }
}

#[test]
fn history_starts_empty() {
    let h = BoundedHistory::new();
    assert_eq!(h.snapshot().len(), 0);
}

#[test]
fn history_keeps_append_order() {
    let mut h = BoundedHistory::new();
    h.append(graph("a", 1));
    h.append(graph("b", 2));
    h.append(graph("c", 3));
    let snap = h.snapshot();
    assert_eq!(snap.len(), 3);
    assert_eq!(snap[0], graph("a", 1));
    assert_eq!(snap[1], graph("b", 2));
    assert_eq!(snap[2], graph("c", 3));
}

#[test]
fn history_keeps_duplicates() {
    let mut h = BoundedHistory::new();
    h.append(graph("same", 7));
    h.append(graph("same", 7));
    assert_eq!(h.snapshot().len(), 2);
}

#[test]
fn history_evicts_oldest_past_capacity() {
    let mut h = BoundedHistory::new();
    let mut i: u64 = 0;
    while i < 10_001 {
        h.append(graph(&format!("g{}", i), i));
        i += 1;
    }
    let snap = h.snapshot();
    assert_eq!(snap.len(), 10_000);
    assert_eq!(snap[0], graph("g1", 1));
    assert_eq!(snap[9_999], graph("g10000", 10_000));
}

#[test]
fn history_clear_empties() {
    let mut h = BoundedHistory::new();
    h.append(graph("a", 1));
    h.clear();
    assert_eq!(h.snapshot().len(), 0);
}

#[test]
fn dedup_insert_is_idempotent() {
    let mut d = DedupSet::new();
    d.insert(source(1, "a.rs", "fn main(){}"));
    let once = d.snapshot();
    d.insert(source(1, "a.rs", "fn main(){}"));
    let twice = d.snapshot();
    assert_eq!(once.len(), 1);
    assert_eq!(twice, once);
}

#[test]
fn dedup_keeps_items_differing_in_one_field() {
    let base = source(1, "a.rs", "text");
    let by_number = source(2, "a.rs", "text");
    let by_path = source(1, "b.rs", "text");
    let by_source = source(1, "a.rs", "other");
    for other in [by_number, by_path, by_source] {
        let mut d = DedupSet::new();
        d.insert(base.clone());
        d.insert(other.clone());
        let snap = d.snapshot();
        assert_eq!(snap.len(), 2);
        assert!(snap.contains(&base));
        assert!(snap.contains(&other));
    }
}

#[test]
fn dedup_clear_empties() {
    let mut d = DedupSet::new();
    d.insert(source(1, "a.rs", "x"));
    d.clear();
    assert_eq!(d.snapshot().len(), 0);
}

#[test]
fn latest_value_last_write_wins() {
    let mut l = LatestValue::new(ArenaMessage::default());
    l.set(arena("a"));
    l.set(arena("b"));
    assert_eq!(l.get(), arena("b"));
}

#[test]
fn arena_default_is_sentinel() {
    let l = LatestValue::new(ArenaMessage::default());
    assert_eq!(l.get(), arena("Empty"));
}
