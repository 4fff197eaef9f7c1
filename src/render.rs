//! Requests for the screenshot producer: which page to render and at what
//! viewport size.

use vstd::prelude::*;
use crate::error::Error;
use crate::text::{decimal, decimal_of, lower_of, lowercase, percent_encoded, url_encode};
use vstd::utf8::encode_utf8;

verus! {

/// Viewport width of league screenshots.
pub const LEAGUE_WIDTH: u32 = 1185;

/// Viewport height of a league screenshot with a single round.
pub const LEAGUE_BASE_HEIGHT: u32 = 350;

/// Extra viewport height for each round after the first.
pub const LEAGUE_ROUND_HEIGHT: u32 = 60;

/// Most rounds a replay given as data may have.
pub const MAX_REPLAY_ROUNDS: usize = 14;

/// Score shown on a side of the league test page when none is given.
pub const DEFAULT_TEST_SCORE: u32 = 5;

/// Viewport of profile card screenshots.
pub const TETO_WIDTH: u32 = 900;

pub const TETO_HEIGHT: u32 = 500;

/// A page for the producer to render, and the viewport to render it in.
#[derive(Debug, PartialEq, Eq)]
pub struct RenderRequest {
    pub url: String,
    pub width: u32,
    pub height: u32,
}

/// Scores for the league test page; a missing side shows the default score.
#[derive(Debug, Clone, Copy, PartialEq, Eq)]
pub struct TetraTestParam {
    pub left_score: Option<u32>,
    pub right_score: Option<u32>,
}

/// One game of a player's recent league record.
#[derive(Debug)]
pub struct LeagueGame {
    pub replay_id: String,
    pub rounds: usize,
}

/// Viewport height for `rounds` rounds: the base height plus one round
/// height for each round after the first; no rounds count as one, and the
/// height stops at `u32::MAX`.
pub open spec fn league_height_of(rounds: int) -> int {
    let extra = if rounds <= 1 { 0 } else { rounds - 1 };
    let h = LEAGUE_BASE_HEIGHT + LEAGUE_ROUND_HEIGHT * extra;
    if h > u32::MAX { u32::MAX as int } else { h }
}

/// The viewport height for a league screenshot of `rounds` rounds.
pub fn league_height(rounds: u64) -> (r: u32)
    ensures
        r == league_height_of(rounds as int),
{
    let extra: u64 = if rounds <= 1 { 0 } else { rounds - 1 };
    let limit: u64 = ((u32::MAX - LEAGUE_BASE_HEIGHT) / LEAGUE_ROUND_HEIGHT) as u64;
    if extra > limit {
        u32::MAX
    } else {
        let extra32 = extra as u32;
        assert(LEAGUE_ROUND_HEIGHT * extra32 <= u32::MAX - LEAGUE_BASE_HEIGHT) by (nonlinear_arith)
            requires
                extra32 <= limit,
                limit == (u32::MAX - LEAGUE_BASE_HEIGHT) / LEAGUE_ROUND_HEIGHT as int,
        ;
        LEAGUE_BASE_HEIGHT + LEAGUE_ROUND_HEIGHT * extra32
    }
}

/// The score shown for one side of the test page.
pub open spec fn test_score(s: Option<u32>) -> u32 {
    match s {
        Some(v) => v,
        None => DEFAULT_TEST_SCORE,
    }
}

/// The league test page with the given scores, sized for as many rounds as
/// the higher score.
pub fn league_test_request(base: &str, params: &TetraTestParam) -> (r: RenderRequest)
    ensures
        r.url@ == base@ + "/league_recent_test?left_score="@ + decimal_of(
            test_score(params.left_score) as nat,
        ) + "&right_score="@ + decimal_of(test_score(params.right_score) as nat),
        r.width == LEAGUE_WIDTH,
        r.height == league_height_of(
            if test_score(params.left_score) >= test_score(params.right_score) {
                test_score(params.left_score) as int
            } else {
                test_score(params.right_score) as int
            },
        ),
{
    let left = match params.left_score {
        Some(v) => v,
        None => DEFAULT_TEST_SCORE,
    };
    let right = match params.right_score {
        Some(v) => v,
        None => DEFAULT_TEST_SCORE,
    };
    let rounds = if left >= right { left } else { right };
    let mut url = String::from_str(base);
    url.append("/league_recent_test?left_score=");
    url.append(decimal(left as u64).as_str());
    url.append("&right_score=");
    url.append(decimal(right as u64).as_str());
    RenderRequest { url, width: LEAGUE_WIDTH, height: league_height(rounds as u64) }
}

/// The replay page for a record passed as data, given the data already
/// percent-encoded; refused when the record has more rounds than a replay
/// page shows.
pub fn replay_request_for(base: &str, rounds: usize, encoded: &str) -> (r: Result<
    RenderRequest,
    Error,
>)
    ensures
        rounds > MAX_REPLAY_ROUNDS <==> r is Err,
        r matches Err(e) ==> e.0@ == "Replay has more than 14 rounds"@,
        r matches Ok(req) ==> req.url@ == base@ + "/league_replay_from_data?data="@ + encoded@
            && req.width == LEAGUE_WIDTH && req.height == league_height_of(rounds as int),
{
    if rounds > MAX_REPLAY_ROUNDS {
        return Err(Error(String::from_str("Replay has more than 14 rounds")));
    }
    let mut url = String::from_str(base);
    url.append("/league_replay_from_data?data=");
    url.append(encoded);
    Ok(RenderRequest { url, width: LEAGUE_WIDTH, height: league_height(rounds as u64) })
}

/// The replay page for a record of `rounds` rounds whose serialised form is
/// `data`: the data is percent-encoded into the address.
pub fn replay_request(base: &str, rounds: usize, data: &str) -> (r: Result<RenderRequest, Error>)
    ensures
        rounds > MAX_REPLAY_ROUNDS <==> r is Err,
        r matches Err(e) ==> e.0@ == "Replay has more than 14 rounds"@,
        r matches Ok(req) ==> req.url@ == base@ + "/league_replay_from_data?data="@
            + percent_encoded(encode_utf8(data@)) && req.width == LEAGUE_WIDTH && req.height
            == league_height_of(rounds as int),
{
    if rounds > MAX_REPLAY_ROUNDS {
        return Err(Error(String::from_str("Replay has more than 14 rounds")));
    }
    let encoded = url_encode(data);
    replay_request_for(base, rounds, encoded.as_str())
}

/// Position in the record list of game number `game_num`, counted from 1;
/// number 0 means the first game.
pub open spec fn game_index(game_num: u32) -> int {
    if game_num == 0 { 0 } else { game_num - 1 }
}

/// The replay page of one game of `user`'s recent league record.
///
/// Fails when the user has no league record, or has fewer games than
/// `game_num`.
pub fn record_request(base: &str, user: &str, game_num: u32, games: &Option<Vec<LeagueGame>>) -> (r:
    Result<RenderRequest, Error>)
    ensures
        match games {
            None => r matches Err(e) && e.0@ == "User does not have tetra league records"@,
            Some(g) => if game_index(game_num) >= g@.len() {
                r matches Err(e) && e.0@ == "Tetra league game not found"@
            } else {
                r matches Ok(req) && req.url@ == base@ + "/league_replay?user_id="@ + user@
                    + "&replay_id="@ + g@[game_index(game_num)].replay_id@ && req.width
                    == LEAGUE_WIDTH && req.height == league_height_of(
                    g@[game_index(game_num)].rounds as int,
                )
            },
        },
{
    match games {
        None => Err(Error(String::from_str("User does not have tetra league records"))),
        Some(g) => {
            let index: usize = if game_num == 0 { 0 } else { (game_num - 1) as usize };
            if index >= g.len() {
                return Err(Error(String::from_str("Tetra league game not found")));
            }
            let game = &g[index];
            let mut url = String::from_str(base);
            url.append("/league_replay?user_id=");
            url.append(user);
            url.append("&replay_id=");
            url.append(game.replay_id.as_str());
            Ok(
                RenderRequest {
                    url,
                    width: LEAGUE_WIDTH,
                    height: league_height(game.rounds as u64),
                },
            )
        },
    }
}

/// The profile card page of a player, given the player's name already in
/// lower case.
pub fn teto_request_for(base: &str, lowered_user: &str) -> (r: RenderRequest)
    ensures
        r.url@ == base@ + "/teto_test/"@ + lowered_user@,
        r.width == TETO_WIDTH,
        r.height == TETO_HEIGHT,
{
    let mut url = String::from_str(base);
    url.append("/teto_test/");
    url.append(lowered_user);
    RenderRequest { url, width: TETO_WIDTH, height: TETO_HEIGHT }
}

/// The profile card page of `user`; the name is lower-cased in the address.
pub fn teto_request(base: &str, user: &str) -> (r: RenderRequest)
    ensures
        r.url@ == base@ + "/teto_test/"@ + lower_of(user@),
        r.width == TETO_WIDTH,
        r.height == TETO_HEIGHT,
{
    let lowered = lowercase(user);
    teto_request_for(base, lowered.as_str())
}

} // verus!
