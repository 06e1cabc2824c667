use stream_api::cache::{Cache, WinsMessage};
use stream_api::command::{check_action, command_amount, counter_action, CommandError, CounterAction};
use stream_api::counter::{
    command_handler, counter_value, ws_open, ws_step, CounterMessage, SocketAction, SocketEvent,
    SocketStart, POLICY_VIOLATION,
};
use stream_api::win::{decrement, get_win, increment, win_value};

fn chars(s: &str) -> Vec<char> {
    s.chars().collect()
}

fn args(ws: &[&str]) -> Vec<Vec<char>> {
    ws.iter().map(|w| chars(w)).collect()
}

#[test]
fn set_increment_decrement_values() {
    assert_eq!(stream_api::win::set(3, None), 3);
    assert_eq!(stream_api::win::set(3, Some(9)), 9);
    assert_eq!(increment(3, None), 4);
    assert_eq!(increment(3, Some(10)), 13);
    assert_eq!(decrement(3, None), 2);
    assert_eq!(decrement(3, Some(3)), 0);
    assert_eq!(decrement(0, Some(5)), 0);
    assert_eq!(decrement(0, None), 0);
    assert_eq!(stream_api::counter::set(1, Some(2)), 2);
    assert_eq!(stream_api::counter::increment(1, Some(2)), 3);
    assert_eq!(stream_api::counter::decrement(5, Some(2)), 3);
}

#[test]
fn decrement_undoes_increment_on_values() {
    for stored in [0u32, 1, 7, 1000] {
        for amount in [None, Some(0u32), Some(1), Some(25)] {
            assert_eq!(decrement(increment(stored, amount), amount), stored);
        }
    }
}

#[test]
fn every_alias_names_its_action() {
    assert_eq!(counter_action(&chars("_get")), CounterAction::Get);
    assert_eq!(counter_action(&chars("_set")), CounterAction::Assign);
    for w in ["_inc", "_increment", "_add", "_+"] {
        assert_eq!(counter_action(&chars(w)), CounterAction::Increment);
    }
    for w in ["_dec", "_decrement", "_-"] {
        assert_eq!(counter_action(&chars(w)), CounterAction::Decrement);
    }
    for w in ["get", "_GET", "_sub", "", "_incr"] {
        assert_eq!(counter_action(&chars(w)), CounterAction::Other);
    }
}

#[test]
fn amount_is_second_word() {
    assert_eq!(command_amount(&args(&["_inc", "12"])), Some(12));
    assert_eq!(command_amount(&args(&["_inc", "x"])), None);
    assert_eq!(command_amount(&args(&["_inc"])), None);
}

#[test]
fn check_action_reports_overflows() {
    assert_eq!(check_action(u32::MAX, CounterAction::Increment, None), Some(CommandError::AddOverflow));
    assert_eq!(check_action(u32::MAX - 1, CounterAction::Increment, None), None);
    assert_eq!(check_action(3, CounterAction::Decrement, Some(4)), Some(CommandError::SubtractOverflow));
    assert_eq!(check_action(0, CounterAction::Decrement, Some(4)), None);
    assert_eq!(check_action(3, CounterAction::Assign, Some(4)), None);
}

#[test]
fn win_value_applies_command() {
    assert_eq!(win_value(5, &args(&["_inc"])), 6);
    assert_eq!(win_value(5, &args(&["_set", "1"])), 1);
    assert_eq!(win_value(5, &args(&["_set"])), 5);
    assert_eq!(win_value(5, &args(&["_dec", "2"])), 3);
    assert_eq!(win_value(5, &args(&["_get", "9"])), 5);
    assert_eq!(win_value(5, &args(&["hello"])), 5);
    assert_eq!(counter_value(5, &args(&["_+", "5"])), 10);
}

#[test]
fn win_increment_from_nothing() {
    let mut cache: Cache<u32> = Cache::new();
    let r = get_win(&mut cache, "k".to_string(), "_inc").unwrap();
    assert_eq!(r.value, 1);
    assert_eq!(r.message.map(|m| m.wins), Some(1));
    assert_eq!(cache.get("k"), Some(1));
}

#[test]
fn win_get_does_not_create_key() {
    let mut cache: Cache<u32> = Cache::new();
    let r = get_win(&mut cache, "k".to_string(), "_get").unwrap();
    assert_eq!(r.value, 0);
    assert!(r.message.is_none());
    assert_eq!(cache.get("k"), None);
}

#[test]
fn win_commands_are_case_insensitive() {
    let mut cache: Cache<u32> = Cache::new();
    let r = get_win(&mut cache, "k".to_string(), "  _SET 7 ").unwrap();
    assert_eq!(r.value, 7);
    let r = get_win(&mut cache, "k".to_string(), "_Dec 2").unwrap();
    assert_eq!(r.value, 5);
    assert_eq!(cache.get("k"), Some(5));
}

#[test]
fn win_unchanged_value_is_not_announced() {
    let mut cache: Cache<u32> = Cache::new();
    cache.insert("k".to_string(), 4);
    let r = get_win(&mut cache, "k".to_string(), "_set 4").unwrap();
    assert_eq!(r.value, 4);
    assert!(r.message.is_none());
    let r = get_win(&mut cache, "k".to_string(), "whatever").unwrap();
    assert_eq!(r.value, 4);
    assert!(r.message.is_none());
}

#[test]
fn win_decrement_at_zero_stays_zero() {
    let mut cache: Cache<u32> = Cache::new();
    let r = get_win(&mut cache, "k".to_string(), "_dec 10").unwrap();
    assert_eq!(r.value, 0);
    assert!(r.message.is_none());
}

#[test]
fn win_refusals_change_nothing() {
    let mut cache: Cache<u32> = Cache::new();
    cache.insert("k".to_string(), 3);
    assert_eq!(get_win(&mut cache, "k".to_string(), "   ").err(), Some(CommandError::MissingCommand));
    assert_eq!(get_win(&mut cache, "k".to_string(), "_dec 4").err(), Some(CommandError::SubtractOverflow));
    cache.insert("m".to_string(), u32::MAX);
    assert_eq!(get_win(&mut cache, "m".to_string(), "_inc").err(), Some(CommandError::AddOverflow));
    assert_eq!(cache.get("k"), Some(3));
    assert_eq!(cache.get("m"), Some(u32::MAX));
    assert_eq!(get_win(&mut cache, "n".to_string(), "").err(), Some(CommandError::MissingCommand));
    assert_eq!(cache.get("n"), None);
}

#[test]
fn win_increment_then_decrement_returns() {
    let mut cache: Cache<u32> = Cache::new();
    cache.insert("k".to_string(), 10);
    get_win(&mut cache, "k".to_string(), "_add 5").unwrap();
    let r = get_win(&mut cache, "k".to_string(), "_- 5").unwrap();
    assert_eq!(r.value, 10);
    assert_eq!(cache.get("k"), Some(10));
}

#[test]
fn wins_message_carries_count() {
    let m = WinsMessage { wins: 3 };
    assert_eq!(m.wins, 3);
}

#[test]
fn counter_creates_key_on_first_use() {
    let mut cache: Cache<u32> = Cache::new();
    let r = command_handler(&mut cache, "c".to_string(), "_get").unwrap();
    assert_eq!(r.value, 0);
    assert!(r.message.is_none());
    assert_eq!(cache.get("c"), Some(0));
}

#[test]
fn counter_creates_key_even_when_refused() {
    let mut cache: Cache<u32> = Cache::new();
    assert_eq!(command_handler(&mut cache, "c".to_string(), " ").err(), Some(CommandError::MissingCommand));
    assert_eq!(cache.get("c"), Some(0));
}

#[test]
fn counter_changes_are_announced() {
    let mut cache: Cache<u32> = Cache::new();
    let r = command_handler(&mut cache, "c".to_string(), "_increment 3").unwrap();
    assert_eq!(r.value, 3);
    assert_eq!(r.message.map(|m: CounterMessage| m.counter), Some(3));
    assert_eq!(cache.get("c"), Some(3));
}

#[test]
fn websocket_rejects_unknown_key() {
    let cache: Cache<u32> = Cache::new();
    match ws_open(&cache, "nope") {
        SocketStart::Reject { code, reason } => {
            assert_eq!(code, POLICY_VIOLATION);
            assert_eq!(code, 1008);
            assert_eq!(reason, "Invalid key!");
        }
        SocketStart::Accept(_) => panic!("accepted an unknown key"),
    }
}

#[test]
fn websocket_accepts_known_key() {
    let mut cache: Cache<u32> = Cache::new();
    cache.insert("c".to_string(), 12);
    match ws_open(&cache, "c") {
        SocketStart::Accept(m) => assert_eq!(m.counter, 12),
        SocketStart::Reject { .. } => panic!("rejected a known key"),
    }
}

#[test]
fn websocket_forwards_and_stops() {
    match ws_step(SocketEvent::Announced("{\"counter\":1}".to_string())) {
        SocketAction::Send(s) => assert_eq!(s, "{\"counter\":1}"),
        SocketAction::Stop => panic!("stopped on an announcement"),
    }
    assert!(matches!(ws_step(SocketEvent::AnnouncementsLost), SocketAction::Stop));
    assert!(matches!(ws_step(SocketEvent::SendFailed), SocketAction::Stop));
}
