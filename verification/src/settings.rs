//! The settings menu: the volume slider, vsync and the frame-rate limiter,
//! and the way back out of the menu.

use vstd::prelude::*;
use crate::decimal::{decimal, push_decimal};
use crate::palette::{ColorPalette, Rgba8, UiColorName, role_color};

verus! {

/// How many ticks the volume slider has.
pub const MAX_TICK_COUNT: usize = 20;

/// The volume slider's position, in ticks from 0 to `MAX_TICK_COUNT`.
#[derive(Debug, Clone, Copy, PartialEq, Eq, Structural)]
pub struct VolumeSliderSettings(pub usize);

impl VolumeSliderSettings {
    /// The slider never goes past its last tick.
    pub open spec fn wf(&self) -> bool {
        self.0 <= MAX_TICK_COUNT
    }

    /// One tick up, stopping at the top.
    pub fn increment(&mut self)
        requires
            old(self).0 < usize::MAX,
        ensures
            final(self).0 == (if old(self).0 + 1 < MAX_TICK_COUNT { old(self).0 + 1 } else { MAX_TICK_COUNT as int }),
    {
        let next = self.0 + 1;
        self.0 = if MAX_TICK_COUNT < next { MAX_TICK_COUNT } else { next };
    }

    /// One tick down, stopping at zero.
    pub fn decrement(&mut self)
        ensures
            final(self).0 == (if old(self).0 > 0 { old(self).0 - 1 } else { 0 }),
    {
        self.0 = self.0.saturating_sub(1);
    }

    /// The slider as a fraction of its range: `ticks / MAX_TICK_COUNT`.
    pub fn fraction(&self) -> (f: (usize, usize))
        ensures
            f == (self.0, MAX_TICK_COUNT),
    {
        (self.0, MAX_TICK_COUNT)
    }
}

/// The slider's label: one block per tick, spaces for the rest, then a bar.
pub open spec fn volume_label(ticks: nat) -> Seq<char> {
    Seq::new(ticks, |i: int| '\u{2588}') + Seq::new((MAX_TICK_COUNT - ticks) as nat, |i: int| ' ')
        + seq!['|']
}

/// The label drawn for the slider.
pub fn update_volume_label(slider: &VolumeSliderSettings) -> (s: String)
    requires
        slider.wf(),
    ensures
        s@ == volume_label(slider.0 as nat),
{
    proof {
        reveal_strlit("\u{2588}");
        reveal_strlit(" ");
        reveal_strlit("|");
    }
    let mut s = String::new();
    let mut i: usize = 0;
    while i < slider.0
        invariant
            i <= slider.0,
            s@ == Seq::new(i as nat, |k: int| '\u{2588}'),
        decreases slider.0 - i,
    {
        s.append("\u{2588}");
        i = i + 1;
        proof {
            reveal_strlit("\u{2588}");
            assert(s@ =~= Seq::new(i as nat, |k: int| '\u{2588}'));
        }
    }
    let ghost filled = s@;
    let mut j: usize = 0;
    while j < MAX_TICK_COUNT - slider.0
        invariant
            slider.0 <= MAX_TICK_COUNT,
            j <= MAX_TICK_COUNT - slider.0,
            s@ == filled + Seq::new(j as nat, |k: int| ' '),
        decreases MAX_TICK_COUNT - slider.0 - j,
    {
        s.append(" ");
        j = j + 1;
        proof {
            reveal_strlit(" ");
            assert(s@ =~= filled + Seq::new(j as nat, |k: int| ' '));
        }
    }
    s.append("|");
    proof {
        assert(s@ =~= volume_label(slider.0 as nat));
    }
    s
}

/// Raising and lowering keep the slider in range, and lowering after raising
/// returns to where it was, unless the slider already stood at the top.
pub proof fn volume_steps_stay_in_range(ticks: nat)
    requires
        ticks <= MAX_TICK_COUNT,
    ensures
        ({
            let up = if ticks + 1 < MAX_TICK_COUNT { ticks + 1 } else { MAX_TICK_COUNT as nat };
            let down = if ticks > 0 { (ticks - 1) as nat } else { 0 };
            &&& up <= MAX_TICK_COUNT
            &&& down <= MAX_TICK_COUNT
            &&& (ticks < MAX_TICK_COUNT ==> (if up > 0 { (up - 1) as nat } else { 0 }) == ticks)
        }),
{
}

/// Whether vsync is on (it is by default).
#[derive(Debug, Clone, Copy, PartialEq, Eq, Structural)]
pub struct VsyncSetting(pub bool);

impl Default for VsyncSetting {
    fn default() -> (v: VsyncSetting)
        ensures
            v.0,
    {
        VsyncSetting(true)
    }
}

/// How the window presents frames.
#[derive(Debug, Clone, Copy, PartialEq, Eq, Hash, Structural)]
pub enum PresentMode {
    AutoVsync,
    AutoNoVsync,
}

impl VsyncSetting {
    /// The present mode the window takes for this setting.
    pub fn update_vsync(&self) -> (m: PresentMode)
        ensures
            m == (if self.0 { PresentMode::AutoVsync } else { PresentMode::AutoNoVsync }),
    {
        if self.0 {
            PresentMode::AutoVsync
        } else {
            PresentMode::AutoNoVsync
        }
    }
}

/// The text of an on/off setting.
pub fn on_off_label(on: bool) -> (s: String)
    ensures
        on ==> s@ == "On"@,
        !on ==> s@ == "Off"@,
{
    if on {
        String::from_str("On")
    } else {
        String::from_str("Off")
    }
}

/// The slowest frame rate the limiter can be set to.
pub const MIN_FPS: u32 = 30;

/// The fastest frame rate the limiter can be set to.
pub const MAX_FPS: u32 = 360;

/// The step of the limiter's target.
pub const FPS_STEP: u32 = 5;

/// The frame-rate limiter: whether it runs, and at which target.
#[derive(Debug, Clone, Copy, PartialEq, Eq, Structural)]
pub struct FpsLimiterSettings {
    pub enabled: bool,
    pub target_fps: u32,
}

impl Default for FpsLimiterSettings {
    fn default() -> (s: FpsLimiterSettings)
        ensures
            !s.enabled,
            s.target_fps == 60,
    {
        FpsLimiterSettings { enabled: false, target_fps: 60 }
    }
}

/// The limit the engine applies: the target while enabled, none otherwise.
pub open spec fn frame_limit(s: FpsLimiterSettings) -> Option<u32> {
    if s.enabled { Some(s.target_fps) } else { None }
}

impl FpsLimiterSettings {
    /// Switches the limiter on; the engine then limits to the target.
    pub fn enable(&mut self) -> (limit: Option<u32>)
        ensures
            *final(self) == (FpsLimiterSettings { enabled: true, ..*old(self) }),
            limit == frame_limit(*final(self)),
    {
        self.enabled = true;
        Some(self.target_fps)
    }

    /// Switches the limiter off; the engine then runs unlimited.
    pub fn disable(&mut self) -> (limit: Option<u32>)
        ensures
            *final(self) == (FpsLimiterSettings { enabled: false, ..*old(self) }),
            limit == frame_limit(*final(self)),
    {
        self.enabled = false;
        None
    }

    /// Lowers the target by one step, not below the minimum.
    pub fn lower_target(&mut self)
        ensures
            final(self).enabled == old(self).enabled,
            final(self).target_fps == (if old(self).target_fps >= MIN_FPS + FPS_STEP {
                old(self).target_fps - FPS_STEP
            } else {
                MIN_FPS as int
            }),
    {
        let lowered = self.target_fps.saturating_sub(FPS_STEP);
        self.target_fps = if lowered < MIN_FPS { MIN_FPS } else { lowered };
    }

    /// Raises the target by one step, not above the maximum.
    pub fn raise_target(&mut self)
        requires
            old(self).target_fps + FPS_STEP <= u32::MAX,
        ensures
            final(self).enabled == old(self).enabled,
            final(self).target_fps == (if old(self).target_fps + FPS_STEP <= MAX_FPS {
                old(self).target_fps + FPS_STEP
            } else {
                MAX_FPS as int
            }),
    {
        let raised = self.target_fps + FPS_STEP;
        self.target_fps = if raised > MAX_FPS { MAX_FPS } else { raised };
    }

    /// The limit to apply after the settings changed.
    pub fn update_fps_limiter(&self) -> (limit: Option<u32>)
        ensures
            limit == frame_limit(*self),
    {
        if self.enabled {
            Some(self.target_fps)
        } else {
            None
        }
    }

    /// The label of the target.
    pub fn target_label(&self) -> (s: String)
        ensures
            s@ == decimal(self.target_fps as nat),
    {
        let mut s = String::new();
        push_decimal(&mut s, self.target_fps as u64);
        proof {
            assert(s@ =~= decimal(self.target_fps as nat));
        }
        s
    }
}

/// A target inside the limiter's range stays inside it whatever the player
/// presses, and the steps undo each other away from the ends of the range.
pub proof fn fps_target_stays_in_range(t: u32)
    requires
        MIN_FPS <= t <= MAX_FPS,
    ensures
        ({
            let down = if t >= MIN_FPS + FPS_STEP { t - FPS_STEP } else { MIN_FPS as int };
            let up = if t + FPS_STEP <= MAX_FPS { t + FPS_STEP } else { MAX_FPS as int };
            &&& MIN_FPS <= down <= MAX_FPS
            &&& MIN_FPS <= up <= MAX_FPS
            &&& (t + FPS_STEP <= MAX_FPS && (t - MIN_FPS) % (FPS_STEP as int) == 0 ==> (if up
                >= MIN_FPS + FPS_STEP { up - FPS_STEP } else { MIN_FPS as int }) == t)
        }),
{
}

/// The menus that can be open.
#[derive(Debug, Clone, Copy, PartialEq, Eq, Hash, Structural)]
pub enum Menu {
    Closed,
    Main,
    Credits,
    Settings,
    Pause,
}

/// Leaving the settings menu returns to the main menu on the title screen and
/// to the pause menu during play.
pub fn settings_go_back(on_title_screen: bool) -> (m: Menu)
    ensures
        m == (if on_title_screen { Menu::Main } else { Menu::Pause }),
{
    if on_title_screen {
        Menu::Main
    } else {
        Menu::Pause
    }
}

/// The settings screen's own background: the palette's screen background on
/// the title screen, none while the game is paused, so that the paused game
/// stays visible behind the menu.
pub fn settings_background(paused: bool, palette: &ColorPalette) -> (c: Option<Rgba8>)
    ensures
        c == (if paused { None } else { Some(role_color(*palette, UiColorName::ScreenBackground)) }),
{
    if paused {
        None
    } else {
        Some(palette.get(UiColorName::ScreenBackground))
    }
}

} // verus!
