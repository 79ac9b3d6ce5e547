use graph_server::messages::ArenaMessage;
use graph_server::messages::GraphMessage;
use graph_server::messages::SourceMessage;
use graph_server::state::SharedState;

fn graph(g: &str, t: u64) -> GraphMessage {
    GraphMessage { graph: String::from(g), timestamp: t }
}

fn source(n: usize, p: &str, s: &str) -> SourceMessage {
    SourceMessage { file_number: n, path: String::from(p), source: String::from(s) }
}

fn arena(a: &str) -> ArenaMessage {
    ArenaMessage { arena: String::from(a) }
}

#[test]
fn add_graph_then_get_graphs() {
    let state = SharedState::new();
    state.add_graph(graph("G1", 100));
    let graphs = state.get_graphs();
    assert_eq!(graphs.len(), 1);
    assert_eq!(graphs[0], graph("G1", 100));
}

#[test]
fn add_source_twice_keeps_one() {
    let state = SharedState::new();
    state.add_source(source(1, "a.rs", "fn main(){}"));
    state.add_source(source(1, "a.rs", "fn main(){}"));
    let sources = state.get_sources();
    assert_eq!(sources.len(), 1);
    assert_eq!(sources[0], source(1, "a.rs", "fn main(){}"));
}

#[test]
fn same_file_different_source_keeps_both() {
    let state = SharedState::new();
    state.add_source(source(1, "a.rs", "v1"));
    state.add_source(source(1, "a.rs", "v2"));
    let sources = state.get_sources();
    assert_eq!(sources.len(), 2);
    assert!(sources.contains(&source(1, "a.rs", "v1")));
    assert!(sources.contains(&source(1, "a.rs", "v2")));
}

#[test]
fn clear_empties_stores_but_keeps_arena() {
    let state = SharedState::new();
    state.add_graph(graph("G1", 1));
    state.add_source(source(1, "a.rs", "v1"));
    state.update_arena(arena("X"));
    let confirmation = state.clear();
    assert_eq!(confirmation, "History and sources cleared");
    assert_eq!(state.get_arena(), arena("X"));
    assert_eq!(state.get_graphs().len(), 0);
    assert_eq!(state.get_sources().len(), 0);
}

#[test]
fn arena_starts_at_default() {
    let state = SharedState::new();
    assert_eq!(state.get_arena(), arena("Empty"));
}

#[test]
fn arena_update_overwrites() {
    let state = SharedState::new();
    state.update_arena(arena("first"));
    state.update_arena(arena("second"));
    assert_eq!(state.get_arena(), arena("second"));
}

#[test]
fn eviction_after_capacity_plus_one_appends() {
    let state = SharedState::new();
    let mut i: u64 = 0;
    while i < 10_001 {
        state.add_graph(graph(&format!("g{}", i), i));
        i += 1;
    }
    let graphs = state.get_graphs();
    assert_eq!(graphs.len(), 10_000);
    assert_eq!(graphs[0], graph("g1", 1));
    assert_eq!(graphs[9_999], graph("g10000", 10_000));
}
