use taka_the_discord_bot_api::render::{
    league_height, league_test_request, record_request, replay_request, replay_request_for,
    teto_request, teto_request_for, LeagueGame, RenderRequest, TetraTestParam,
};
use taka_the_discord_bot_api::text::decimal;

#[test]
fn decimal_numerals() {
    assert_eq!(decimal(0), "0");
    assert_eq!(decimal(7), "7");
    assert_eq!(decimal(10), "10");
    assert_eq!(decimal(1234567890), "1234567890");
    assert_eq!(decimal(u64::MAX), "18446744073709551615");
}

#[test]
fn league_height_grows_by_round() {
    assert_eq!(league_height(0), 350);
    assert_eq!(league_height(1), 350);
    assert_eq!(league_height(2), 410);
    assert_eq!(league_height(14), 350 + 60 * 13);
    assert_eq!(league_height(u64::MAX), u32::MAX);
}

#[test]
fn league_test_defaults_to_five_all() {
    let r = league_test_request("http://h", &TetraTestParam { left_score: None, right_score: None });
    assert_eq!(
        r,
        RenderRequest {
            url: "http://h/league_recent_test?left_score=5&right_score=5".to_string(),
            width: 1185,
            height: 350 + 60 * 4,
        }
    );
}

#[test]
fn league_test_sized_by_higher_score() {
    let r = league_test_request("b", &TetraTestParam { left_score: Some(7), right_score: Some(2) });
    assert_eq!(r.url, "b/league_recent_test?left_score=7&right_score=2");
    assert_eq!(r.height, 350 + 60 * 6);
}

#[test]
fn replay_with_too_many_rounds_is_refused() {
    let e = replay_request("b", 15, "{}").unwrap_err();
    assert_eq!(e.0, "Replay has more than 14 rounds");
    assert_eq!(e.message(), "Replay has more than 14 rounds");
}

#[test]
fn replay_data_is_percent_encoded() {
    let r = replay_request("b", 14, "{\"a\":1} é~").unwrap();
    assert_eq!(r.url, "b/league_replay_from_data?data=%7B%22a%22%3A1%7D%20%C3%A9~");
    assert_eq!(r.height, 350 + 60 * 13);
    let same = replay_request_for("b", 14, "%7B%22a%22%3A1%7D%20%C3%A9~").unwrap();
    assert_eq!(r, same);
}

#[test]
fn record_request_picks_the_game() {
    let games = Some(vec![
        LeagueGame { replay_id: "r1".to_string(), rounds: 3 },
        LeagueGame { replay_id: "r2".to_string(), rounds: 5 },
    ]);
    let r = record_request("b", "osk", 2, &games).unwrap();
    assert_eq!(r.url, "b/league_replay?user_id=osk&replay_id=r2");
    assert_eq!(r.height, 350 + 60 * 4);
    let first = record_request("b", "osk", 0, &games).unwrap();
    assert_eq!(first.url, "b/league_replay?user_id=osk&replay_id=r1");
    assert_eq!(record_request("b", "osk", 1, &games).unwrap(), first);
}

#[test]
fn record_request_errors() {
    let games = Some(vec![LeagueGame { replay_id: "r1".to_string(), rounds: 3 }]);
    assert_eq!(record_request("b", "osk", 2, &games).unwrap_err().0, "Tetra league game not found");
    assert_eq!(
        record_request("b", "osk", 1, &None).unwrap_err().0,
        "User does not have tetra league records"
    );
    assert_eq!(record_request("b", "osk", 1, &Some(vec![])).unwrap_err().0, "Tetra league game not found");
}

#[test]
fn teto_request_lowercases_the_name() {
    let r = teto_request("http://h", "OsK");
    assert_eq!(r, RenderRequest { url: "http://h/teto_test/osk".to_string(), width: 900, height: 500 });
    assert_eq!(teto_request_for("http://h", "osk"), r);
}
