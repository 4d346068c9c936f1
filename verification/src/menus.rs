//! The menus: the main menu's play button, the credits grid, the loading
//! screen, the window's first frames and the test scenes.

use vstd::prelude::*;
use crate::decimal::{decimal, digit_char, push_decimal};

verus! {

/// The title of the play button on the main menu.
pub open spec fn play_label(round: u32) -> Seq<char> {
    if round > 1 {
        "Night "@ + decimal(round as nat) + " Rewind"@
    } else {
        "Night "@ + decimal(round as nat)
    }
}

/// "Night N", and "Night N Rewind" once past the first night.
pub fn play_label_text(current_round: u32) -> (s: String)
    ensures
        s@ == play_label(current_round),
{
    let mut s = String::from_str("Night ");
    push_decimal(&mut s, current_round as u64);
    if current_round > 1 {
        s.append(" Rewind");
    }
    s
}

/// Whether a text ends with " Rewind".
pub open spec fn ends_with_rewind(s: Seq<char>) -> bool {
    s.len() >= 7 && s.subrange(s.len() - 7, s.len() as int) == seq![' ', 'R', 'e', 'w', 'i', 'n', 'd']
}

/// The play label starts with "Night " and the round, and it carries
/// " Rewind" exactly when the round is past the first.
pub proof fn rewind_exactly_after_first_night(round: u32)
    ensures
        play_label(round).subrange(0, 6) == seq!['N', 'i', 'g', 'h', 't', ' '],
        ends_with_rewind(play_label(round)) <==> round > 1,
{
    reveal_strlit("Night ");
    reveal_strlit(" Rewind");
    let head = "Night "@ + decimal(round as nat);
    assert(head.subrange(0, 6) =~= seq!['N', 'i', 'g', 'h', 't', ' ']);
    if round > 1 {
        let l = head + " Rewind"@;
        assert(l.subrange(0, 6) =~= head.subrange(0, 6));
        assert(l.subrange(l.len() - 7, l.len() as int) =~= seq![' ', 'R', 'e', 'w', 'i', 'n', 'd']);
    } else {
        assert(decimal(round as nat) == seq![digit_char(round as nat)]);
        assert(head.len() == 7);
        assert(head.subrange(0, 7)[0] == 'N');
    }
}

/// How a cell of the credits grid is aligned.
#[derive(Debug, Clone, Copy, PartialEq, Eq, Hash, Structural)]
pub enum JustifySelf {
    Start,
    End,
}

/// The credits grid has two columns: names, aligned to the right edge of the
/// first column, and what they did, aligned to the left of the second. Cells
/// are laid out row by row.
pub fn credits_cell_alignment(cell_index: usize) -> (j: JustifySelf)
    ensures
        j == (if cell_index % 2 == 0 { JustifySelf::End } else { JustifySelf::Start }),
{
    if cell_index % 2 == 0 {
        JustifySelf::End
    } else {
        JustifySelf::Start
    }
}

/// The text of the loading screen.
pub open spec fn loading_label(finished: nat, total: nat) -> Seq<char> {
    "Loading Assets: "@ + decimal(finished) + " / "@ + decimal(total)
}

/// "Loading Assets: finished / total".
pub fn update_loading_assets_label(finished: usize, total: usize) -> (s: String)
    ensures
        s@ == loading_label(finished as nat, total as nat),
{
    let mut s = String::from_str("Loading Assets: ");
    push_decimal(&mut s, finished as u64);
    s.append(" / ");
    push_decimal(&mut s, total as u64);
    s
}

/// What the loading screen does when it opens.
#[derive(Debug, Clone, Copy, PartialEq, Eq, Hash, Structural)]
pub enum LoadingStart {
    /// Everything is loaded already: go straight on to the level.
    SkipToLevel,
    /// Show the loading screen until everything is loaded.
    ShowScreen,
}

/// The loading screen is skipped when there is nothing left to load.
pub fn spawn_or_skip_asset_loading_screen(all_done: bool) -> (s: LoadingStart)
    ensures
        s == (if all_done { LoadingStart::SkipToLevel } else { LoadingStart::ShowScreen }),
{
    if all_done {
        LoadingStart::SkipToLevel
    } else {
        LoadingStart::ShowScreen
    }
}

/// The frame on which the window becomes visible.
pub const REVEAL_FRAME: u32 = 5;

/// Counts the frames since the game started; the window is shown on the fifth.
#[derive(Debug, Clone, Copy, PartialEq, Eq, Default, Structural)]
pub struct FrameCounter {
    pub frames: u32,
}

impl FrameCounter {
    /// Counts one more frame, and says whether this is the frame to show the
    /// window on.
    pub fn make_window_visible(&mut self) -> (reveal: bool)
        requires
            old(self).frames < u32::MAX,
        ensures
            final(self).frames == old(self).frames + 1,
            reveal == (final(self).frames == REVEAL_FRAME),
    {
        self.frames = self.frames + 1;
        self.frames == REVEAL_FRAME
    }
}

/// The scenes that can be tried out on their own.
#[derive(Debug, Clone, Copy, PartialEq, Eq, Hash, Structural)]
pub enum TestScene {
    BigEye,
    BigHand,
    Ra,
    GoldenHeart,
}

/// The test scene a name asks for, if any.
pub fn test_scene_from_name(name: &String) -> (t: Option<TestScene>)
    ensures
        t == (if name@ == "big_eye"@ {
            Some(TestScene::BigEye)
        } else if name@ == "big_hand"@ {
            Some(TestScene::BigHand)
        } else if name@ == "ra"@ {
            Some(TestScene::Ra)
        } else if name@ == "golden_heart"@ {
            Some(TestScene::GoldenHeart)
        } else {
            None::<TestScene>
        }),
{
    if *name == String::from_str("big_eye") {
        Some(TestScene::BigEye)
    } else if *name == String::from_str("big_hand") {
        Some(TestScene::BigHand)
    } else if *name == String::from_str("ra") {
        Some(TestScene::Ra)
    } else if *name == String::from_str("golden_heart") {
        Some(TestScene::GoldenHeart)
    } else {
        None
    }
}

} // verus!
