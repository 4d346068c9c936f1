use bevy_game::game_end_state::leaderboard::{row_style, RowStyle};
use bevy_game::game_end_state::leaderboard::{
    player_rank, sort_scores_descending, table_visibility, top_scores, your_name_text,
    your_rank_text, score_key, LeaderboardEntry, LeaderboardRankText, ScoreEntry,
};
use bevy_game::score::{night_tooltip_text, player_row, win_message_text, BattleScore};

fn entry(name: &str, score: f32) -> ScoreEntry {
    ScoreEntry {
        player: name.to_string(),
        key: score_key(score.to_bits()),
        text: format!("{:.0}", score),
    }
}

fn sorted_multiset(v: &[ScoreEntry]) -> Vec<(String, i64)> {
    let mut m: Vec<(String, i64)> = v.iter().map(|e| (e.player.clone(), e.key)).collect();
    m.sort();
    m
}

#[test]
fn sort_ranks_best_first_and_keeps_every_entry() {
    let input = vec![
        entry("a", 3.0),
        entry("b", 10.0),
        entry("c", -2.0),
        entry("d", 10.0),
        entry("e", 0.0),
    ];
    let sorted = sort_scores_descending(input.clone());
    for w in sorted.windows(2) {
        assert!(w[0].key >= w[1].key);
    }
    assert_eq!(sorted_multiset(&sorted), sorted_multiset(&input));
    assert_eq!(sorted[4], entry("c", -2.0));
}

#[test]
fn top_scores_keeps_the_ten_best() {
    let input: Vec<ScoreEntry> =
        (0..15).map(|i| entry(&format!("p{}", i), ((i * 7) % 15) as f32)).collect();
    let top = top_scores(input);
    assert_eq!(top.len(), 10);
    let scores: Vec<&str> = top.iter().map(|e| e.text.as_str()).collect();
    assert_eq!(scores, vec!["14", "13", "12", "11", "10", "9", "8", "7", "6", "5"]);
}

#[test]
fn top_scores_with_few_entries_shows_all() {
    let top = top_scores(vec![entry("x", 1.0), entry("y", 5.0)]);
    assert_eq!(top, vec![entry("y", 5.0), entry("x", 1.0)]);
    assert!(top_scores(Vec::new()).is_empty());
}

#[test]
fn table_cells() {
    let top = vec![entry("Ann", 42.0), entry("Bob", -7.0)];
    assert_eq!(LeaderboardEntry { index: 0, is_name: true }.text(&top), "Ann");
    assert_eq!(LeaderboardEntry { index: 0, is_name: false }.text(&top), "42");
    assert_eq!(LeaderboardEntry { index: 1, is_name: false }.text(&top), "-7");
    assert_eq!(LeaderboardEntry { index: 2, is_name: true }.text(&top), "");
    assert_eq!(LeaderboardRankText { index: 0 }.text(top.len()), "1");
    assert_eq!(LeaderboardRankText { index: 1 }.text(top.len()), "2");
    assert_eq!(LeaderboardRankText { index: 9 }.text(top.len()), "");
}

#[test]
fn score_key_orders_like_the_floats() {
    let values: Vec<f32> =
        vec![-1.0e9, -250.5, -10.4, -10.2, -0.5, 0.0, 0.25, 10.2, 10.4, 99.0, 1.0e9];
    for a in &values {
        for b in &values {
            let by_key = score_key(a.to_bits()).cmp(&score_key(b.to_bits()));
            assert_eq!(Some(by_key), a.partial_cmp(b), "{} vs {}", a, b);
        }
    }
    assert_eq!(score_key(0.0f32.to_bits()), 0);
    assert_eq!(score_key((-0.0f32).to_bits()), -1);
}

#[test]
fn close_scores_keep_their_order() {
    let top = top_scores(vec![entry("low", 10.2), entry("high", 10.4)]);
    assert_eq!(top[0].player, "high");
    assert_eq!(top[1].player, "low");
    assert_eq!(top[0].text, "10");
    assert_eq!(top[1].text, "10");
    let score = BattleScore { score: 10, player_name: Some("low".to_string()), score_amount: None };
    let row = player_row(vec![entry("low", 10.2), entry("high", 10.4)], &score).unwrap();
    assert_eq!(row.rank, "2.");
}

#[test]
fn table_visibility_switches_with_scores() {
    let empty = table_visibility(0);
    assert!(empty.loading_text && !empty.rows);
    let full = table_visibility(3);
    assert!(!full.loading_text && full.rows);
}

#[test]
fn player_rank_is_first_match_counted_from_one() {
    let sorted = vec![entry("x", 9.0), entry("me", 5.0), entry("me", 1.0)];
    assert_eq!(player_rank(&sorted, &"me".to_string()), Some(2));
    assert_eq!(player_rank(&sorted, &"x".to_string()), Some(1));
    assert_eq!(player_rank(&sorted, &"nobody".to_string()), None);
}

#[test]
fn own_row_texts() {
    assert_eq!(your_rank_text(Some(7)), "7.");
    assert_eq!(your_rank_text(None), "-");
    assert_eq!(your_name_text(&String::new()), "You");
    assert_eq!(your_name_text(&"Zed".to_string()), "Zed");
}

#[test]
fn player_row_ranks_in_full_board() {
    let score = BattleScore { score: 120, player_name: Some("me".to_string()), score_amount: None };
    let row =
        player_row(vec![entry("a", 1.0), entry("me", 50.0), entry("b", 80.0)], &score).unwrap();
    assert_eq!(row.rank, "2.");
    assert_eq!(row.name, "me");
    assert_eq!(row.score, "120");
    assert!(player_row(Vec::new(), &score).is_none());
    let anon = BattleScore { score: 0, player_name: None, score_amount: None };
    let row = player_row(vec![entry("a", 1.0)], &anon).unwrap();
    assert_eq!(row.rank, "-");
    assert_eq!(row.name, "You");
    assert_eq!(row.score, "0");
}

#[test]
fn copy_from_leaderboard_updates_name_and_count() {
    let mut s = BattleScore { score: 3, player_name: Some("old".to_string()), score_amount: None };
    s.copy_from_leaderboard(None, 4);
    assert_eq!(s.player_name.as_deref(), Some("old"));
    assert_eq!(s.score_amount, Some(4));
    s.copy_from_leaderboard(Some("new".to_string()), 9);
    assert_eq!(s.player_name.as_deref(), Some("new"));
    assert_eq!(s.score_amount, Some(9));
    assert_eq!(s.score, 3);
}

#[test]
fn night_tooltip_counts_three_nights_per_score() {
    let s = BattleScore { score: 0, player_name: None, score_amount: Some(4) };
    assert_eq!(night_tooltip_text(&s), "We endured 12 long nights together.");
    let s = BattleScore { score: 0, player_name: None, score_amount: None };
    assert_eq!(night_tooltip_text(&s), "We endured 0 long nights together.");
}

#[test]
fn win_message_names_the_player() {
    let s = BattleScore { score: 0, player_name: Some("Kim".to_string()), score_amount: None };
    assert_eq!(win_message_text(&s), "Congratulations, Kim! You win!");
    let s = BattleScore { score: 0, player_name: None, score_amount: None };
    assert_eq!(win_message_text(&s), "Congratulations, Player! You win!");
}

#[test]
fn row_styles_medals_then_stripes() {
    assert_eq!(row_style(0), RowStyle::Gold);
    assert_eq!(row_style(1), RowStyle::Silver);
    assert_eq!(row_style(2), RowStyle::Bronze);
    assert_eq!(row_style(3), RowStyle::Plain);
    assert_eq!(row_style(4), RowStyle::Stripe);
    assert_eq!(row_style(9), RowStyle::Plain);
}
