//! The running score of a campaign and the texts built from it.

use vstd::prelude::*;
use crate::decimal::{decimal, push_decimal};
use crate::game_end_state::leaderboard::{ScoreEntry, player_rank, sort_scores_descending, your_name_text, your_rank_text};

verus! {

/// The score of the current campaign, the player's name on the leaderboard,
/// and how many scores the leaderboard held when last seen.
#[derive(Debug, Clone, PartialEq, Eq)]
pub struct BattleScore {
    pub score: u32,
    pub player_name: Option<String>,
    pub score_amount: Option<u32>,
}

impl BattleScore {
    /// Takes in what the leaderboard says: the player's name, when a player
    /// is registered, and the number of scores it holds (wrapped to 32 bits).
    pub fn copy_from_leaderboard(&mut self, player: Option<String>, leaderboard_len: usize)
        ensures
            final(self).score == old(self).score,
            final(self).player_name == (match player {
                Some(name) => Some(name),
                None => old(self).player_name,
            }),
            final(self).score_amount == Some(leaderboard_len as u32),
    {
        if let Some(name) = player {
            self.player_name = Some(name);
        }
        self.score_amount = Some(leaderboard_len as u32);
    }

    /// The player's name, or the empty name while there is none.
    pub fn name_or_empty(&self) -> (s: String)
        ensures
            s@ == (match self.player_name {
                Some(n) => n@,
                None => Seq::<char>::empty(),
            }),
    {
        match &self.player_name {
            Some(n) => n.clone(),
            None => String::new(),
        }
    }
}

/// The text of the night tooltip.
pub open spec fn night_tooltip(nights: nat) -> Seq<char> {
    "We endured "@ + decimal(nights) + " long nights together."@
}

/// The tooltip over the night counter: three nights for every score the
/// leaderboard holds (none while that count is unknown).
pub fn night_tooltip_text(score: &BattleScore) -> (s: String)
    requires
        score.score_amount matches Some(n) ==> n * 3 <= u32::MAX,
    ensures
        s@ == night_tooltip(match score.score_amount {
            Some(n) => (n * 3) as nat,
            None => 0,
        }),
{
    let amount = match score.score_amount {
        Some(n) => n,
        None => 0,
    };
    let nights = amount * 3;
    let mut s = String::from_str("We endured ");
    push_decimal(&mut s, nights as u64);
    s.append(" long nights together.");
    s
}

/// The message on the victory screen.
pub open spec fn win_message(name: Seq<char>) -> Seq<char> {
    "Congratulations, "@ + name + "! You win!"@
}

/// Congratulates the player by name, or as "Player" while there is none.
pub fn win_message_text(score: &BattleScore) -> (s: String)
    ensures
        s@ == win_message(match score.player_name {
            Some(n) => n@,
            None => "Player"@,
        }),
{
    let mut s = String::from_str("Congratulations, ");
    match &score.player_name {
        Some(n) => s.append(n.as_str()),
        None => s.append("Player"),
    }
    s.append("! You win!");
    s
}

/// The three texts of the player's own row on the leaderboard.
#[derive(Debug, Clone, PartialEq, Eq)]
pub struct PlayerRow {
    pub rank: String,
    pub name: String,
    pub score: String,
}

/// The player's row, or nothing while the leaderboard is empty. The rank is
/// that of the first score under the player's name once all scores are ranked
/// from best to worst.
pub fn player_row(scores: Vec<ScoreEntry>, score: &BattleScore) -> (row: Option<PlayerRow>)
    ensures
        scores@.len() == 0 <==> row is None,
        row matches Some(r) ==> {
            let name = match score.player_name {
                Some(n) => n@,
                None => Seq::<char>::empty(),
            };
            &&& r.score@ == decimal(score.score as nat)
            &&& (name.len() == 0 ==> r.name@ == "You"@)
            &&& (name.len() > 0 ==> r.name@ == name)
            &&& (exists|sorted: Seq<ScoreEntry>|
                #![trigger sorted.to_multiset()]
                {
                    &&& sorted.to_multiset() == scores@.to_multiset()
                    &&& crate::game_end_state::leaderboard::scores_descending(sorted)
                    &&& ((exists|k: int|
                        #![trigger sorted[k]]
                        0 <= k < sorted.len() && sorted[k].player@ == name
                            && (forall|i: int| 0 <= i < k ==> sorted[i].player@ != name)
                            && r.rank@ == decimal((k + 1) as nat).push('.'))
                        || ((forall|i: int| 0 <= i < sorted.len() ==> sorted[i].player@ != name)
                            && r.rank@ == seq!['-']))
                })
        },
{
    proof {
        reveal_strlit("You");
    }
    if scores.len() == 0 {
        return None;
    }
    let sorted = sort_scores_descending(scores);
    let name = score.name_or_empty();
    let rank = player_rank(&sorted, &name);
    let rank_text = your_rank_text(rank);
    let name_text = your_name_text(&name);
    let mut score_text = String::new();
    push_decimal(&mut score_text, score.score as u64);
    proof {
        assert(score_text@ =~= decimal(score.score as nat));
        let ss = sorted@;
        match rank {
            Some(r) => {
                let k = r - 1;
                assert(ss[k].player@ == name@);
            },
            None => {},
        }
    }
    Some(PlayerRow { rank: rank_text, name: name_text, score: score_text })
}

} // verus!
