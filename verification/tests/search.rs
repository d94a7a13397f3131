use song_search::matching::{fold_char, name_matches};
use song_search::protocol::{dispatch, AppState, ClientMsg, ServerMsg, SocketEvent, SocketStep};
use song_search::store::{Song, Store};

fn store_from(names: &[&str]) -> Store {
    let mut store = Store::new();
    for name in names {
        store.add(Song { name: name.to_string() });
    }
    store
}

fn result_names(reply: &ServerMsg) -> Vec<String> {
    let ServerMsg::SearchResults(songs) = reply;
    songs.iter().map(|s| s.name.clone()).collect()
}

#[test]
fn round_trip_ab() {
    let store = store_from(&["Abba", "abacus", "zebra"]);
    let results = store.search("ab");
    let names: Vec<String> = results.iter().map(|s| s.name.clone()).collect();
    assert_eq!(names, vec!["Abba".to_string(), "abacus".to_string()]);
}

#[test]
fn empty_term_returns_all() {
    let store = store_from(&["Abba", "abacus", "zebra"]);
    let results = store.search("");
    let names: Vec<String> = results.iter().map(|s| s.name.clone()).collect();
    assert_eq!(
        names,
        vec!["Abba".to_string(), "abacus".to_string(), "zebra".to_string()]
    );
}

#[test]
fn no_match_returns_empty() {
    let store = store_from(&["Abba", "abacus", "zebra"]);
    let results = store.search("quartz");
    assert!(results.is_empty());
}

#[test]
fn matching_prefix_is_case_insensitive() {
    let store = store_from(&["Zebra"]);
    let results = store.search("zEB");
    assert_eq!(results.len(), 1);
    assert_eq!(results[0].name, "Zebra");
}

#[test]
fn empty_store_returns_empty() {
    let store = store_from(&[]);
    assert!(store.search("").is_empty());
    assert!(store.search("a").is_empty());
    assert_eq!(store.len(), 0);
}

#[test]
fn term_longer_than_name_does_not_match() {
    assert!(!name_matches("abc", "ab"));
    assert!(name_matches("ab", "ab"));
    assert!(name_matches("", "ab"));
}

#[test]
fn folding_is_ascii_only() {
    assert_eq!(fold_char('A'), 'a' as u32);
    assert_eq!(fold_char('Z'), 'z' as u32);
    assert_eq!(fold_char('a'), 'a' as u32);
    assert_eq!(fold_char('1'), '1' as u32);
    // Letters outside ASCII do not fold.
    assert_eq!(fold_char('Ä'), 'Ä' as u32);
    assert!(!name_matches("ä", "Ärger"));
    assert!(name_matches("Ä", "Ärger"));
}

#[test]
fn dispatch_replies_to_search() {
    let state = AppState { store: store_from(&["Abba", "abacus", "zebra"]) };
    let step = dispatch(&state, SocketEvent::Inbound(ClientMsg::Search("ab".to_string())));
    match step {
        SocketStep::Reply(reply) => {
            assert_eq!(
                result_names(&reply),
                vec!["Abba".to_string(), "abacus".to_string()]
            );
        }
        _ => panic!("a search must be answered with a reply"),
    }
}

#[test]
fn dispatch_ignores_control_and_malformed_frames() {
    let state = AppState { store: store_from(&["Abba"]) };
    assert!(matches!(dispatch(&state, SocketEvent::Control), SocketStep::Continue));
    assert!(matches!(dispatch(&state, SocketEvent::Malformed), SocketStep::Continue));
}

#[test]
fn dispatch_stops_on_fault_and_close() {
    let state = AppState { store: store_from(&["Abba"]) };
    assert!(matches!(dispatch(&state, SocketEvent::Fault), SocketStep::Stop));
    assert!(matches!(dispatch(&state, SocketEvent::Closed), SocketStep::Stop));
}

#[test]
fn two_connections_get_independent_results() {
    let state = AppState { store: store_from(&["Abba", "abacus", "zebra"]) };
    // Two connections interleave their turns against the shared store.
    let step_a1 = dispatch(&state, SocketEvent::Inbound(ClientMsg::Search("ab".to_string())));
    let step_b1 = dispatch(&state, SocketEvent::Inbound(ClientMsg::Search("ze".to_string())));
    let step_a2 = dispatch(&state, SocketEvent::Inbound(ClientMsg::Search("ab".to_string())));
    match (step_a1, step_b1, step_a2) {
        (SocketStep::Reply(a1), SocketStep::Reply(b1), SocketStep::Reply(a2)) => {
            assert_eq!(
                result_names(&a1),
                vec!["Abba".to_string(), "abacus".to_string()]
            );
            assert_eq!(result_names(&b1), vec!["zebra".to_string()]);
            // The other connection's turn changed nothing for this one.
            assert_eq!(result_names(&a2), result_names(&a1));
        }
        _ => panic!("searches must be answered with replies"),
    }
}
