//! Hours played of a Steam game, from the owned-games answer of the Steam Web API.
use vstd::prelude::*;
use crate::reply::HttpError;

verus! {

/// The only Steam account whose play time is served.
pub const SERVED_STEAM_ID: u64 = 76561199118689987;

/// Whether the play time of `steamid` is served.
pub fn check_your_mom(steamid: u64) -> (r: Option<()>)
    ensures
        r is Some <==> steamid == SERVED_STEAM_ID,
{
    if steamid == SERVED_STEAM_ID {
        Some(())
    } else {
        None
    }
}

/// The parameters of an owned-games query.
pub struct OwnedGamesRequest {
    pub steamid: u64,
    pub include_appinfo: bool,
    pub include_played_free_games: bool,
    pub appids_filter: Vec<u32>,
    pub include_free_sub: Option<bool>,
    pub language: Option<String>,
    pub include_extended_appinfo: Option<bool>,
}

/// Whether `q` is the query for the games of `steamid`, filtered to the one
/// game `appid`, without app information and without free games.
pub open spec fn queries_game(q: OwnedGamesRequest, steamid: u64, appid: u32) -> bool {
    &&& q.steamid == steamid
    &&& !q.include_appinfo
    &&& !q.include_played_free_games
    &&& q.appids_filter@ == seq![appid]
    &&& q.include_free_sub is None
    &&& q.language is None
    &&& q.include_extended_appinfo is None
}

/// The query for the games of `steamid`, filtered to the one game `appid`,
/// without app information and without free games.
pub fn owned_games_request(steamid: u64, appid: u32) -> (r: OwnedGamesRequest)
    ensures
        queries_game(r, steamid, appid),
{
    let r = OwnedGamesRequest {
        steamid: steamid,
        include_appinfo: false,
        include_played_free_games: false,
        appids_filter: vec![appid],
        include_free_sub: None,
        language: None,
        include_extended_appinfo: None,
    };
    assert(r.appids_filter@ =~= seq![appid]);
    r
}

/// The first step of an hours-played request: an account that is not served
/// is refused with Bad Request before anything is fetched; for the served
/// account, the query to send to Steam.
pub fn hours_request(steamid: u64, appid: u32) -> (r: Result<OwnedGamesRequest, HttpError>)
    ensures
        steamid != SERVED_STEAM_ID ==> (r matches Err(e) && e == HttpError::BadRequest),
        steamid == SERVED_STEAM_ID ==> (r matches Ok(q) && queries_game(q, steamid, appid)),
{
    if check_your_mom(steamid).is_none() {
        return Err(HttpError::BadRequest);
    }
    Ok(owned_games_request(steamid, appid))
}

/// A game in the owned-games answer; play time is in minutes.
#[derive(Clone, Copy)]
pub struct Game {
    pub appid: u32,
    pub playtime_forever: u32,
}

/// The owned-games answer.
#[derive(Clone)]
pub struct OwnedGames {
    pub game_count: u32,
    pub games: Option<Vec<Game>>,
}

/// The first game of an answer, if it lists any.
pub open spec fn first_game(owned: OwnedGames) -> Option<Game> {
    match owned.games {
        Some(gs) => if gs@.len() > 0 {
            Some(gs@[0])
        } else {
            None
        },
        None => None,
    }
}

/// The answer to an hours-played request given what the Steam query returned
/// (`None` when the query failed): the whole hours played of the first listed
/// game, which must be `appid`.
pub open spec fn hours_answer(fetched: Option<OwnedGames>, appid: u32) -> Result<u32, HttpError> {
    match fetched {
        None => Err(HttpError::InternalServerError),
        Some(owned) => match first_game(owned) {
            None => Err(HttpError::NotFound),
            Some(game) => if game.appid != appid {
                Err(HttpError::InternalServerError)
            } else {
                Ok(game.playtime_forever / 60)
            },
        },
    }
}

/// The hours played of `appid`, from what the Steam query returned (`None`
/// when it failed). The query filters on `appid`, so at most that game is
/// listed: no game means the account does not own it, and another game means
/// the answer is inconsistent.
pub fn hours_played(fetched: Option<&OwnedGames>, appid: u32) -> (r: Result<u32, HttpError>)
    ensures
        r == hours_answer(
            match fetched {
                Some(o) => Some(*o),
                None => None,
            },
            appid,
        ),
{
    let owned = match fetched {
        Some(owned) => owned,
        None => {
            return Err(HttpError::InternalServerError);
        },
    };
    let game = match &owned.games {
        Some(games) => {
            if games.len() > 0 {
                games[0]
            } else {
                return Err(HttpError::NotFound);
            }
        },
        None => {
            return Err(HttpError::NotFound);
        },
    };
    if game.appid != appid {
        return Err(HttpError::InternalServerError);
    }
    Ok(game.playtime_forever / 60)
}

/// An hours-played answer is the play time of the listed game in whole hours:
/// the answer `h` is the number of full 60-minute periods in its minutes.
/// It is given exactly when the first listed game is `appid`; no game listed
/// answers Not Found, another game or a failed query answers Internal Server Error.
pub proof fn law_hours_are_whole_hours(fetched: Option<OwnedGames>, appid: u32)
    ensures
        hours_answer(fetched, appid) matches Ok(h) ==> ({
            let minutes = first_game(fetched->0)->0.playtime_forever;
            &&& fetched is Some
            &&& first_game(fetched->0) is Some
            &&& first_game(fetched->0)->0.appid == appid
            &&& h * 60 <= minutes < (h + 1) * 60
        }),
        fetched is None ==> hours_answer(fetched, appid) == Err::<u32, HttpError>(
            HttpError::InternalServerError,
        ),
        fetched matches Some(o) && first_game(o) is None ==> hours_answer(fetched, appid) == Err::<
            u32,
            HttpError,
        >(HttpError::NotFound),
        fetched matches Some(o) && first_game(o) matches Some(g) && g.appid != appid
            ==> hours_answer(fetched, appid) == Err::<u32, HttpError>(
            HttpError::InternalServerError,
        ),
        fetched matches Some(o) && first_game(o) matches Some(g) && g.appid == appid
            ==> hours_answer(fetched, appid) is Ok,
{
}

} // verus!
