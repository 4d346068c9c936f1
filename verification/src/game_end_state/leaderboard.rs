//! The end-of-run leaderboard: scores ranked from best to worst, the ten shown
//! in the table, and the player's own row.

use vstd::prelude::*;
use vstd::multiset::Multiset;
use crate::app_plan::{AppPlan, GameState, Registration, ScheduleLabel, SystemEntry, SystemId, UiSet, plain, plain_system};
use crate::game_end_state::root::BattleEndUiSets;
use crate::decimal::{decimal, push_decimal};

verus! {

broadcast use {
    vstd::seq_lib::group_to_multiset_ensures,
    vstd::multiset::group_multiset_axioms,
};

/// How many rows the leaderboard table shows.
pub const TABLE_ROWS: usize = 10;

/// One score on the leaderboard: who made it, the key by which it is ranked
/// (see [`score_key`]) and the text the table shows for it.
#[derive(Debug, Clone, PartialEq, Eq)]
pub struct ScoreEntry {
    pub player: String,
    pub key: i64,
    pub text: String,
}

/// The ranking key of a score given by the bits of a 32-bit float: the bits
/// themselves for a positive sign, and below every such key, in reverse, for a
/// negative sign.
pub open spec fn score_key_spec(bits: u32) -> int {
    if bits < 0x8000_0000 {
        bits as int
    } else {
        -(bits - 0x8000_0000) - 1
    }
}

/// Turns the bits of a 32-bit float score into an integer key that orders
/// scores exactly as the floats compare, for every score that is not a NaN
/// (a negative zero ranks just below a positive one). Two different scores
/// never share a key.
pub fn score_key(bits: u32) -> (key: i64)
    ensures
        key == score_key_spec(bits),
{
    if bits < 0x8000_0000 {
        bits as i64
    } else {
        -((bits - 0x8000_0000) as i64) - 1
    }
}

/// Different float bits never share a ranking key, so ranking by key loses
/// no difference between scores.
pub proof fn score_keys_differ(a: u32, b: u32)
    requires
        a != b,
    ensures
        score_key_spec(a) != score_key_spec(b),
{
}

/// Among scores of the same sign, the key follows the bits: for positive
/// floats a larger bit pattern is a larger number, for negative ones a larger
/// bit pattern is a more negative number.
pub proof fn score_key_follows_bits(a: u32, b: u32)
    requires
        a < b,
    ensures
        b < 0x8000_0000 ==> score_key_spec(a) < score_key_spec(b),
        0x8000_0000 <= a ==> score_key_spec(a) > score_key_spec(b),
        a < 0x8000_0000 <= b ==> score_key_spec(a) > score_key_spec(b),
{
}

/// Scores run from best to worst: no entry ranks above one before it.
pub open spec fn scores_descending(s: Seq<ScoreEntry>) -> bool {
    forall|i: int, j: int| 0 <= i < j < s.len() ==> s[i].key >= s[j].key
}

/// `top` holds best scores of `all`: it takes its entries from `all`, and
/// every entry of `all` it leaves out ranks no higher than any entry it keeps.
pub open spec fn best_of(top: Seq<ScoreEntry>, all: Seq<ScoreEntry>) -> bool {
    &&& top.to_multiset().subset_of(all.to_multiset())
    &&& forall|x: ScoreEntry, i: int|
        #![trigger all.to_multiset().count(x), top[i]]
        all.to_multiset().count(x) > top.to_multiset().count(x) && 0 <= i < top.len()
            ==> top[i].key >= x.key
}

/// The smaller of a length and the number of table rows.
pub open spec fn table_len(n: nat) -> nat {
    if n < TABLE_ROWS { n } else { TABLE_ROWS as nat }
}

/// Ranks the scores from best to worst by key. Among equal keys the order is
/// left open, as with an unstable sort.
pub fn sort_scores_descending(scores: Vec<ScoreEntry>) -> (sorted: Vec<ScoreEntry>)
    ensures
        sorted@.to_multiset() == scores@.to_multiset(),
        scores_descending(sorted@),
{
    let ghost input = scores@;
    let mut rest = scores;
    let mut sorted: Vec<ScoreEntry> = Vec::new();
    proof {
        assert(sorted@.to_multiset() =~= Multiset::empty());
        assert(rest@.to_multiset().add(sorted@.to_multiset()) =~= input.to_multiset());
    }
    while rest.len() > 0
        invariant
            rest@.to_multiset().add(sorted@.to_multiset()) == input.to_multiset(),
            scores_descending(sorted@),
        decreases rest.len(),
    {
        let ghost rest_before = rest@;
        let e = rest.pop().unwrap();
        proof {
            assert(rest_before =~= rest@.push(e));
        }
        let mut k: usize = 0;
        while k < sorted.len() && sorted[k].key >= e.key
            invariant
                k <= sorted.len(),
                forall|i: int| 0 <= i < k ==> sorted@[i].key >= e.key,
            decreases sorted.len() - k,
        {
            k = k + 1;
        }
        let ghost sorted_before = sorted@;
        sorted.insert(k, e);
        proof {
            assert forall|i: int, j: int| 0 <= i < j < sorted@.len() implies sorted@[i].key
                >= sorted@[j].key by {
                if j < k {
                } else if j == k {
                } else if i < k {
                    assert(sorted@[j] == sorted_before[j - 1]);
                    assert(sorted_before[k as int].key < e.key);
                } else if i == k {
                    assert(sorted@[j] == sorted_before[j - 1]);
                    assert(sorted_before[k as int].key < e.key);
                } else {
                    assert(sorted@[i] == sorted_before[i - 1]);
                    assert(sorted@[j] == sorted_before[j - 1]);
                }
            }
            assert(rest@.to_multiset().add(sorted@.to_multiset()) =~= input.to_multiset());
        }
    }
    proof {
        assert(rest@.to_multiset() =~= Multiset::empty());
        assert(sorted@.to_multiset() =~= input.to_multiset());
    }
    sorted
}

/// The scores shown in the table: the ten best, from best to worst (all of
/// them when there are fewer than ten).
pub fn top_scores(scores: Vec<ScoreEntry>) -> (top: Vec<ScoreEntry>)
    ensures
        top@.len() == table_len(scores@.len()),
        scores_descending(top@),
        best_of(top@, scores@),
{
    let ghost all = scores@;
    let mut sorted = sort_scores_descending(scores);
    let ghost full = sorted@;
    proof {
        assert(full.to_multiset().len() == full.len());
        assert(all.to_multiset().len() == all.len());
    }
    sorted.truncate(TABLE_ROWS);
    proof {
        let top = sorted@;
        let tail = full.subrange(top.len() as int, full.len() as int);
        assert(full =~= top + tail);
        vstd::seq_lib::lemma_multiset_commutative(top, tail);
        assert(top.to_multiset().subset_of(all.to_multiset()));
        assert forall|x: ScoreEntry, i: int|
            all.to_multiset().count(x) > top.to_multiset().count(x) && 0 <= i < top.len()
            implies top[i].key >= x.key by {
            assert(tail.to_multiset().count(x) > 0);
            assert(tail.contains(x));
            let j = choose|j: int| 0 <= j < tail.len() && tail[j] == x;
            assert(full[top.len() + j] == x);
        }
    }
    sorted
}

/// A cell of the table: the name or the score column of row `index`.
#[derive(Debug, Clone, Copy, PartialEq, Eq, Structural)]
pub struct LeaderboardEntry {
    pub index: usize,
    pub is_name: bool,
}

/// The rank cell of row `index`.
#[derive(Debug, Clone, Copy, PartialEq, Eq, Structural)]
pub struct LeaderboardRankText {
    pub index: usize,
}

/// What a table cell shows: nothing past the end of the scores, else the
/// player's name or the score's text.
pub open spec fn entry_cell(top: Seq<ScoreEntry>, index: int, is_name: bool) -> Seq<char> {
    if index >= top.len() {
        Seq::empty()
    } else if is_name {
        top[index].player@
    } else {
        top[index].text@
    }
}

/// Every row that has a score is filled: its name cell holds that entry's
/// player and its score cell that entry's text; only cells past the last
/// score are blank.
pub proof fn filled_rows_show_their_entry(top: Seq<ScoreEntry>, index: int)
    requires
        0 <= index,
    ensures
        index < top.len() ==> entry_cell(top, index, true) == top[index].player@,
        index < top.len() ==> entry_cell(top, index, false) == top[index].text@,
        index >= top.len() ==> entry_cell(top, index, true).len() == 0
            && entry_cell(top, index, false).len() == 0,
{
}

impl LeaderboardEntry {
    /// The text of this cell for the given table of scores.
    pub fn text(&self, top: &Vec<ScoreEntry>) -> (s: String)
        ensures
            s@ == entry_cell(top@, self.index as int, self.is_name),
    {
        if self.index >= top.len() {
            String::new()
        } else if self.is_name {
            top[self.index].player.clone()
        } else {
            top[self.index].text.clone()
        }
    }
}

impl LeaderboardRankText {
    /// The rank shown in this row: its position counted from one, or nothing
    /// when the table has fewer rows of scores.
    pub fn text(&self, shown: usize) -> (s: String)
        ensures
            self.index >= shown ==> s@ == Seq::<char>::empty(),
            self.index < shown ==> s@ == decimal(self.index as nat + 1),
    {
        let mut s = String::new();
        if self.index < shown {
            push_decimal(&mut s, self.index as u64 + 1);
            proof {
                assert(s@ =~= decimal(self.index as nat + 1));
            }
        }
        s
    }
}

/// Which of the two table bodies is visible.
#[derive(Debug, Clone, Copy, PartialEq, Eq, Structural)]
pub struct TableVisibility {
    pub loading_text: bool,
    pub rows: bool,
}

/// The "fetching" text shows until there are scores; then the rows show.
pub fn table_visibility(shown: usize) -> (v: TableVisibility)
    ensures
        v.rows == (shown > 0),
        v.loading_text == !v.rows,
{
    let has_scores = shown > 0;
    TableVisibility { loading_text: !has_scores, rows: has_scores }
}

/// The player's rank among ranked scores: the position, counted from one, of
/// the first entry under the player's name.
pub fn player_rank(sorted: &Vec<ScoreEntry>, player_name: &String) -> (rank: Option<usize>)
    ensures
        match rank {
            Some(r) => {
                &&& 1 <= r <= sorted@.len()
                &&& sorted@[r - 1].player@ == player_name@
                &&& forall|i: int| 0 <= i < r - 1 ==> sorted@[i].player@ != player_name@
            },
            None => forall|i: int| 0 <= i < sorted@.len() ==> sorted@[i].player@ != player_name@,
        },
{
    let mut i: usize = 0;
    while i < sorted.len()
        invariant
            i <= sorted@.len(),
            forall|j: int| 0 <= j < i ==> sorted@[j].player@ != player_name@,
        decreases sorted.len() - i,
    {
        if sorted[i].player == *player_name {
            return Some(i + 1);
        }
        i = i + 1;
    }
    None
}

/// The rank shown in the player's own row: "7." for rank 7, "-" when the
/// player has no score on the board.
pub fn your_rank_text(rank: Option<usize>) -> (s: String)
    ensures
        match rank {
            Some(r) => s@ == decimal(r as nat).push('.'),
            None => s@ == seq!['-'],
        },
{
    proof {
        reveal_strlit(".");
        reveal_strlit("-");
    }
    match rank {
        Some(r) => {
            let mut s = String::new();
            push_decimal(&mut s, r as u64);
            s.append(".");
            proof {
                assert(s@ =~= decimal(r as nat).push('.'));
            }
            s
        },
        None => String::from_str("-"),
    }
}

/// The name shown in the player's own row: "You" while the player has no name.
pub fn your_name_text(player_name: &String) -> (s: String)
    ensures
        player_name@.len() == 0 ==> s@ == seq!['Y', 'o', 'u'],
        player_name@.len() > 0 ==> s@ == player_name@,
{
    proof {
        reveal_strlit("You");
    }
    if player_name.as_str().is_empty() {
        String::from_str("You")
    } else {
        player_name.clone()
    }
}

/// How a table row is tinted.
#[derive(Debug, Clone, Copy, PartialEq, Eq, Hash, Structural)]
pub enum RowStyle {
    /// First place: a gold row and rank.
    Gold,
    /// Second place: a silver row and rank.
    Silver,
    /// Third place: a bronze row and rank.
    Bronze,
    /// Later rows at even positions: a faint stripe, dimmed rank.
    Stripe,
    /// Later rows at odd positions: no tint, dimmed rank.
    Plain,
}

/// The first three places get medal colours; the rest alternate between a
/// faint stripe and no tint, counting positions from zero.
pub fn row_style(index: usize) -> (s: RowStyle)
    ensures
        s == (if index == 0 {
            RowStyle::Gold
        } else if index == 1 {
            RowStyle::Silver
        } else if index == 2 {
            RowStyle::Bronze
        } else if index % 2 == 0 {
            RowStyle::Stripe
        } else {
            RowStyle::Plain
        }),
{
    if index == 0 {
        RowStyle::Gold
    } else if index == 1 {
        RowStyle::Silver
    } else if index == 2 {
        RowStyle::Bronze
    } else if index % 2 == 0 {
        RowStyle::Stripe
    } else {
        RowStyle::Plain
    }
}

/// Marks the leaderboard card.
#[derive(Debug, Clone, Copy, PartialEq, Eq, Default, Structural)]
pub struct LeaderboardContainer;

/// Marks the "fetching scores" text.
#[derive(Debug, Clone, Copy, PartialEq, Eq, Default, Structural)]
pub struct LeaderboardLoadingText;

/// Marks the container of the table rows.
#[derive(Debug, Clone, Copy, PartialEq, Eq, Default, Structural)]
pub struct LeaderboardRowsContainer;

/// Marks the player's own section.
#[derive(Debug, Clone, Copy, PartialEq, Eq, Default, Structural)]
pub struct YourScoreSection;

/// Marks the player's rank.
#[derive(Debug, Clone, Copy, PartialEq, Eq, Default, Structural)]
pub struct YourRankText;

/// Marks the player's name.
#[derive(Debug, Clone, Copy, PartialEq, Eq, Default, Structural)]
pub struct YourNameText;

/// Marks the player's score.
#[derive(Debug, Clone, Copy, PartialEq, Eq, Default, Structural)]
pub struct YourScoreText;

/// What the leaderboard registers in a build that talks to the online
/// leaderboard (nothing otherwise): the player's registration on entering
/// preparation, the refreshes every frame, and on entering the leaderboard the
/// score submission and the table, built in the children stage.
pub open spec fn leaderboard_registrations(backend: bool) -> Seq<Registration> {
    if backend {
        seq![
            plain(ScheduleLabel::OnEnter(GameState::Preparing), SystemId::InitializeLeaderboardPlayer),
            plain(ScheduleLabel::Update, SystemId::RefreshTopTenEntries),
            plain(ScheduleLabel::Update, SystemId::RefreshPlayerScoreDisplay),
            plain(ScheduleLabel::Update, SystemId::OnRefreshLeaderboardOnScoreSent),
            plain(ScheduleLabel::Update, SystemId::RefreshCopyPlayerNameToScore),
            plain(ScheduleLabel::OnEnter(GameState::Leaderboard), SystemId::SubmitPlayerScore),
            Registration::System(SystemEntry {
                schedule: ScheduleLabel::OnEnter(GameState::Leaderboard),
                system: SystemId::SpawnLeaderboardUi,
                in_set: Some(UiSet::BattleEnd(BattleEndUiSets::SpawnChildren)),
                after_set: None,
                after_system: None,
                run_in_state: None,
            }),
        ]
    } else {
        Seq::empty()
    }
}

/// Registers the leaderboard.
pub fn plugin(app: &mut AppPlan)
    ensures
        final(app).backend == old(app).backend,
        final(app).registrations@ == old(app).registrations@ + leaderboard_registrations(
            old(app).backend,
        ),
{
    let ghost start = app.registrations@;
    if !app.backend {
        proof {
            assert(app.registrations@ =~= start + leaderboard_registrations(app.backend));
        }
        return;
    }
    app.register(plain_system(ScheduleLabel::OnEnter(GameState::Preparing), SystemId::InitializeLeaderboardPlayer));
    app.register(plain_system(ScheduleLabel::Update, SystemId::RefreshTopTenEntries));
    app.register(plain_system(ScheduleLabel::Update, SystemId::RefreshPlayerScoreDisplay));
    app.register(plain_system(ScheduleLabel::Update, SystemId::OnRefreshLeaderboardOnScoreSent));
    app.register(plain_system(ScheduleLabel::Update, SystemId::RefreshCopyPlayerNameToScore));
    app.register(plain_system(ScheduleLabel::OnEnter(GameState::Leaderboard), SystemId::SubmitPlayerScore));
    app.register(
        Registration::System(
            SystemEntry {
                schedule: ScheduleLabel::OnEnter(GameState::Leaderboard),
                system: SystemId::SpawnLeaderboardUi,
                in_set: Some(UiSet::BattleEnd(BattleEndUiSets::SpawnChildren)),
                after_set: None,
                after_system: None,
                run_in_state: None,
            },
        ),
    );
    proof {
        assert(app.registrations@ =~= start + leaderboard_registrations(app.backend));
    }
}

} // verus!
