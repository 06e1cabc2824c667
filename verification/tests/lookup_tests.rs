use std::io::BufRead;
use stream_api::cache::Cache;
use stream_api::command::{decrement_count, increment_count, set_count};
use stream_api::reply::HttpError;
use stream_api::state::{State, WinsState};
use stream_api::steam::{self, hours_played, owned_games_request, Game, OwnedGames};
use stream_api::youtube::{
    self, entry_reply, first_line, get_last_short, get_last_video, last_entry_url, same_text, Entry,
    Feed,
};

#[test]
fn status_codes() {
    assert_eq!(HttpError::BadRequest.status_code(), 400);
    assert_eq!(HttpError::NotFound.status_code(), 404);
    assert_eq!(HttpError::InternalServerError.status_code(), 500);
}

#[test]
fn cache_read_after_write() {
    let mut c: Cache<String> = Cache::new();
    assert_eq!(c.get("a"), None);
    c.insert("a".to_string(), "x".to_string());
    c.insert("b".to_string(), "y".to_string());
    assert_eq!(c.get("a"), Some("x".to_string()));
    c.insert("a".to_string(), "z".to_string());
    assert_eq!(c.get("a"), Some("z".to_string()));
    assert_eq!(c.get("b"), Some("y".to_string()));
}

#[test]
fn state_starts_empty() {
    let s: WinsState = State::new();
    assert_eq!(s.cache.get("any"), None);
}

#[test]
fn steam_only_one_account() {
    assert_eq!(steam::check_your_mom(76561199118689987), Some(()));
    assert_eq!(steam::check_your_mom(76561199118689986), None);
    assert_eq!(steam::check_your_mom(0), None);
}

#[test]
fn steam_request_filters_on_game() {
    let r = owned_games_request(42, 730);
    assert_eq!(r.steamid, 42);
    assert!(!r.include_appinfo);
    assert!(!r.include_played_free_games);
    assert_eq!(r.appids_filter, vec![730]);
    assert_eq!(r.include_free_sub, None);
    assert_eq!(r.language, None);
    assert_eq!(r.include_extended_appinfo, None);
}

fn owned(games: Option<Vec<(u32, u32)>>) -> OwnedGames {
    OwnedGames {
        game_count: games.as_ref().map(|g| g.len() as u32).unwrap_or(0),
        games: games.map(|g| {
            g.into_iter()
                .map(|(appid, playtime_forever)| Game { appid, playtime_forever })
                .collect()
        }),
    }
}

#[test]
fn steam_hours_are_whole_hours() {
    assert_eq!(hours_played(Some(&owned(Some(vec![(730, 125)]))), 730), Ok(2));
    assert_eq!(hours_played(Some(&owned(Some(vec![(730, 59)]))), 730), Ok(0));
    assert_eq!(hours_played(Some(&owned(Some(vec![(730, 60)]))), 730), Ok(1));
}

#[test]
fn steam_hours_failures() {
    assert_eq!(hours_played(None, 730), Err(HttpError::InternalServerError));
    assert_eq!(hours_played(Some(&owned(None)), 730), Err(HttpError::NotFound));
    assert_eq!(hours_played(Some(&owned(Some(vec![]))), 730), Err(HttpError::NotFound));
    assert_eq!(
        hours_played(Some(&owned(Some(vec![(440, 600)]))), 730),
        Err(HttpError::InternalServerError)
    );
}

#[test]
fn youtube_served_channels() {
    assert_eq!(youtube::check_your_mom("raixssa"), Some(()));
    assert_eq!(youtube::check_your_mom("elakstriker"), Some(()));
    assert_eq!(youtube::check_your_mom("Raixssa"), None);
    assert_eq!(youtube::check_your_mom(""), None);
    assert!(same_text("ab", "ab"));
    assert!(!same_text("ab", "abc"));
}

#[test]
fn youtube_feed_urls() {
    assert_eq!(get_last_video("raixssa"), Ok("https://www.youtube.com/@raixssa/videos".to_string()));
    assert_eq!(
        get_last_short("elakstriker"),
        Ok("https://www.youtube.com/@elakstriker/shorts".to_string())
    );
    assert_eq!(get_last_video("someone"), Err(HttpError::BadRequest));
    assert_eq!(last_entry_url("x", Feed::Shorts), Err(HttpError::BadRequest));
}

#[test]
fn youtube_first_line() {
    assert_eq!(first_line(&b"".to_vec()), None);
    assert_eq!(first_line(&b"{\"a\":1}\n{\"b\":2}\n".to_vec()), Some(b"{\"a\":1}".to_vec()));
    assert_eq!(first_line(&b"abc\r\ndef".to_vec()), Some(b"abc".to_vec()));
    assert_eq!(first_line(&b"abc\r".to_vec()), Some(b"abc\r".to_vec()));
    assert_eq!(first_line(&b"no newline".to_vec()), Some(b"no newline".to_vec()));
    assert_eq!(first_line(&b"\n".to_vec()), Some(Vec::new()));
    assert_eq!(first_line(&b"\r\n".to_vec()), Some(Vec::new()));
}

#[test]
fn youtube_first_line_matches_std_lines() {
    let samples: [&[u8]; 6] = [b"a\nb", b"a\r\nb", b"\r\r\n", b"x", b"\n\n", b"a\rb\n"];
    for s in samples {
        let expected = s.lines().next().map(|l| l.unwrap().into_bytes());
        assert_eq!(first_line(&s.to_vec()), expected);
    }
}

#[test]
fn youtube_entry_reply() {
    let e = Entry { title: "Novo vídeo".to_string(), url: "https://youtu.be/x".to_string() };
    assert_eq!(entry_reply(Some(&e)), Ok("Novo vídeo - https://youtu.be/x".to_string()));
    assert_eq!(entry_reply(None), Err(HttpError::InternalServerError));
}

#[test]
fn steam_unserved_account_is_refused_before_fetching() {
    assert_eq!(steam::hours_request(1, 730).err(), Some(HttpError::BadRequest));
    assert_eq!(steam::hours_request(1, 730).err().map(|e| e.status_code()), Some(400));
    let q = steam::hours_request(76561199118689987, 730).ok().unwrap();
    assert_eq!(q.steamid, 76561199118689987);
    assert_eq!(q.appids_filter, vec![730]);
    assert!(!q.include_appinfo && !q.include_played_free_games);
}

#[test]
fn shared_count_steps() {
    assert_eq!(set_count(4, None), 4);
    assert_eq!(increment_count(4, Some(3)), 7);
    assert_eq!(decrement_count(4, None), 3);
    assert_eq!(decrement_count(0, Some(9)), 0);
}
