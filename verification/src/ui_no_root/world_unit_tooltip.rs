//! The panel over a hovered unit: at most one per unit, opened when the
//! pointer enters the unit and closed when it leaves.

use vstd::prelude::*;
use crate::buffs::{BuffEffect, buff_in_range, buffs_line, format_buffs};

verus! {

/// An open panel and the unit it describes.
#[derive(Debug, Clone, Copy, PartialEq, Eq, Structural)]
pub struct PanelForUnit {
    pub panel: u64,
    pub unit: u64,
}

/// Whether some open panel describes `unit`.
pub open spec fn has_panel(panels: Seq<PanelForUnit>, unit: u64) -> bool {
    exists|i: int| 0 <= i < panels.len() && #[trigger] panels[i].unit == unit
}

/// No unit has two panels.
pub open spec fn one_panel_per_unit(panels: Seq<PanelForUnit>) -> bool {
    forall|i: int, j: int| 0 <= i < j < panels.len() ==> #[trigger] panels[i].unit != #[trigger] panels[j].unit
}

/// The unit to open a panel for when the pointer enters the mesh of
/// `hovered_unit` (none when the mesh belongs to no unit): nothing while the
/// left button is held, when the unit already has a panel, or when it has no
/// health.
pub open spec fn hover_start_spec(mouse_pressed: bool, hovered_unit: Option<u64>, panels: Seq<PanelForUnit>, has_health: bool) -> Option<u64> {
    if mouse_pressed {
        None
    } else {
        match hovered_unit {
            None => None,
            Some(u) => if has_panel(panels, u) || !has_health { None } else { Some(u) },
        }
    }
}

/// Decides whether a panel opens.
pub fn on_hover_start(mouse_pressed: bool, hovered_unit: Option<u64>, panels: &Vec<PanelForUnit>, has_health: bool) -> (open: Option<u64>)
    ensures
        open == hover_start_spec(mouse_pressed, hovered_unit, panels@, has_health),
{
    if mouse_pressed {
        return None;
    }
    let unit = match hovered_unit {
        None => return None,
        Some(u) => u,
    };
    let mut i: usize = 0;
    while i < panels.len()
        invariant
            i <= panels@.len(),
            !mouse_pressed,
            hovered_unit == Some(unit),
            forall|j: int| 0 <= j < i ==> panels@[j].unit != unit,
        decreases panels.len() - i,
    {
        if panels[i].unit == unit {
            proof {
                assert(panels@[i as int].unit == unit);
                assert(has_panel(panels@, unit));
            }
            return None;
        }
        i = i + 1;
    }
    proof {
        if has_panel(panels@, unit) {
            let k = choose|k: int| 0 <= k < panels@.len() && #[trigger] panels@[k].unit == unit;
            assert(panels@[k].unit != unit);
        }
    }
    if !has_health {
        return None;
    }
    Some(unit)
}

/// The panels of `unit`, in order.
pub open spec fn panels_of(s: Seq<PanelForUnit>, unit: u64) -> Seq<u64>
    decreases s.len(),
{
    if s.len() == 0 {
        Seq::empty()
    } else {
        let rest = panels_of(s.drop_last(), unit);
        if s.last().unit == unit { rest.push(s.last().panel) } else { rest }
    }
}

/// The panels to close when the pointer leaves the mesh of `hovered_unit`:
/// every panel of that unit, in order.
pub fn on_hover_end(hovered_unit: Option<u64>, panels: &Vec<PanelForUnit>) -> (close: Vec<u64>)
    ensures
        close@ == (match hovered_unit {
            Some(u) => panels_of(panels@, u),
            None => Seq::<u64>::empty(),
        }),
{
    let mut close: Vec<u64> = Vec::new();
    let unit = match hovered_unit {
        None => return close,
        Some(u) => u,
    };
    let mut i: usize = 0;
    while i < panels.len()
        invariant
            i <= panels@.len(),
            close@ == panels_of(panels@.take(i as int), unit),
        decreases panels.len() - i,
    {
        proof {
            let t = panels@.take(i as int + 1);
            assert(t.drop_last() =~= panels@.take(i as int));
            assert(t.last() == panels@[i as int]);
        }
        if panels[i].unit == unit {
            close.push(panels[i].panel);
        }
        i = i + 1;
    }
    proof {
        assert(panels@.take(panels@.len() as int) =~= panels@);
    }
    close
}

/// Opening panels only through `on_hover_start` never gives a unit a second
/// panel: adding the panel it opens keeps one panel per unit.
pub proof fn hover_keeps_one_panel_per_unit(
    mouse_pressed: bool,
    hovered_unit: Option<u64>,
    panels: Seq<PanelForUnit>,
    has_health: bool,
    new_panel: u64,
)
    requires
        one_panel_per_unit(panels),
    ensures
        hover_start_spec(mouse_pressed, hovered_unit, panels, has_health) matches Some(u)
            ==> one_panel_per_unit(panels.push(PanelForUnit { panel: new_panel, unit: u })),
{
    if let Some(u) = hover_start_spec(mouse_pressed, hovered_unit, panels, has_health) {
        let np = panels.push(PanelForUnit { panel: new_panel, unit: u });
        assert forall|i: int, j: int| 0 <= i < j < np.len() implies #[trigger] np[i].unit
            != #[trigger] np[j].unit by {
            if j == panels.len() {
                assert(np[i] == panels[i]);
                if panels[i].unit == u {
                    assert(has_panel(panels, u));
                }
            }
        }
    }
}

/// The open panels left once those of `unit` are closed, in order.
pub open spec fn without_unit(s: Seq<PanelForUnit>, unit: u64) -> Seq<PanelForUnit>
    decreases s.len(),
{
    if s.len() == 0 {
        Seq::empty()
    } else {
        let rest = without_unit(s.drop_last(), unit);
        if s.last().unit == unit { rest } else { rest.push(s.last()) }
    }
}

/// No two open panels share an entity.
pub open spec fn distinct_panels(s: Seq<PanelForUnit>) -> bool {
    forall|i: int, j: int| 0 <= i < j < s.len() ==> #[trigger] s[i].panel != #[trigger] s[j].panel
}

proof fn no_panel_of_unit(s: Seq<PanelForUnit>, unit: u64)
    requires
        !has_panel(s, unit),
    ensures
        panels_of(s, unit) == Seq::<u64>::empty(),
        without_unit(s, unit) == s,
    decreases s.len(),
{
    if s.len() > 0 {
        let d = s.drop_last();
        assert(!has_panel(d, unit)) by {
            if has_panel(d, unit) {
                let k = choose|k: int| 0 <= k < d.len() && #[trigger] d[k].unit == unit;
                assert(s[k].unit == unit);
            }
        }
        no_panel_of_unit(d, unit);
        assert(s.last().unit != unit) by {
            assert(s[s.len() - 1].unit == s.last().unit);
        }
        assert(d.push(s.last()) =~= s);
    }
}

proof fn panels_of_push_other(s: Seq<PanelForUnit>, p: PanelForUnit, w: u64)
    requires
        p.unit != w,
    ensures
        panels_of(s.push(p), w) == panels_of(s, w),
{
    assert(s.push(p).drop_last() =~= s);
}

/// Which panels closing `unit` removes: with distinct panel entities, an open
/// panel's entity is among those closed exactly when it describes `unit`.
pub proof fn closing_removes_exactly_unit_panels(s: Seq<PanelForUnit>, unit: u64, i: int)
    requires
        distinct_panels(s),
        0 <= i < s.len(),
    ensures
        panels_of(s, unit).contains(s[i].panel) <==> s[i].unit == unit,
    decreases s.len(),
{
    let d = s.drop_last();
    let last = s.len() - 1;
    assert(s.last() == s[last]);
    if i < last {
        assert(d[i] == s[i]);
        assert(distinct_panels(d)) by {
            assert forall|a: int, b: int| 0 <= a < b < d.len() implies #[trigger] d[a].panel != #[trigger] d[b].panel by {
                assert(d[a] == s[a] && d[b] == s[b]);
            }
        }
        closing_removes_exactly_unit_panels(d, unit, i);
        if s.last().unit == unit {
            let r = panels_of(d, unit);
            assert(panels_of(s, unit) == r.push(s.last().panel));
            assert(s[i].panel != s[last].panel);
            if r.push(s.last().panel).contains(s[i].panel) {
                let k = choose|k: int| 0 <= k < r.len() + 1 && #[trigger] r.push(s.last().panel)[k] == s[i].panel;
                if k < r.len() {
                    assert(r[k] == s[i].panel);
                    assert(r.contains(s[i].panel));
                }
            }
            if r.contains(s[i].panel) {
                let k = choose|k: int| 0 <= k < r.len() && #[trigger] r[k] == s[i].panel;
                assert(r.push(s.last().panel)[k] == s[i].panel);
            }
        }
    } else {
        if s.last().unit == unit {
            let r = panels_of(d, unit);
            assert(panels_of(s, unit)[r.len() as int] == s[i].panel);
        } else {
            assert(panels_of(s, unit) == panels_of(d, unit));
            panels_of_never_holds_other(d, unit, s[i].panel);
        }
    }
}

proof fn panels_of_never_holds_other(d: Seq<PanelForUnit>, unit: u64, panel: u64)
    requires
        forall|k: int| 0 <= k < d.len() ==> #[trigger] d[k].panel != panel,
    ensures
        !panels_of(d, unit).contains(panel),
    decreases d.len(),
{
    if d.len() > 0 {
        let e = d.drop_last();
        assert forall|k: int| 0 <= k < e.len() implies #[trigger] e[k].panel != panel by {
            assert(e[k] == d[k]);
        }
        panels_of_never_holds_other(e, unit, panel);
        if d.last().unit == unit {
            assert(d[d.len() - 1].panel != panel);
            let r = panels_of(e, unit);
            if r.push(d.last().panel).contains(panel) {
                let k = choose|k: int| 0 <= k < r.len() + 1 && #[trigger] r.push(d.last().panel)[k] == panel;
                if k < r.len() {
                    assert(r[k] == panel);
                    assert(r.contains(panel));
                }
            }
        }
    }
}

/// Hovering a unit and then leaving it is a round trip: the panel opened on
/// hover is the only panel closed on leaving, after which the unit has no
/// panel and every other unit keeps exactly the panels it had.
pub proof fn hover_round_trip(
    mouse_pressed: bool,
    hovered_unit: Option<u64>,
    panels: Seq<PanelForUnit>,
    has_health: bool,
    new_panel: u64,
    other: u64,
)
    ensures
        hover_start_spec(mouse_pressed, hovered_unit, panels, has_health) matches Some(u) ==> {
            let after = panels.push(PanelForUnit { panel: new_panel, unit: u });
            &&& panels_of(after, u) == seq![new_panel]
            &&& without_unit(after, u) == panels
            &&& (other != u ==> panels_of(after, other) == panels_of(panels, other))
        },
{
    if let Some(u) = hover_start_spec(mouse_pressed, hovered_unit, panels, has_health) {
        let np = PanelForUnit { panel: new_panel, unit: u };
        let after = panels.push(np);
        no_panel_of_unit(panels, u);
        assert(after.drop_last() =~= panels);
        assert(after.last() == np);
        assert(panels_of(after, u) =~= seq![new_panel]);
        if other != u {
            panels_of_push_other(panels, np, other);
        }
    }
}

/// The buffs line of a panel: the unit's effects, or nothing when it has none.
pub fn update_buffs_text(buffs: Option<&Vec<BuffEffect>>) -> (s: String)
    requires
        buffs matches Some(b) ==> forall|i: int| 0 <= i < b@.len() ==> buff_in_range(#[trigger] b@[i]),
    ensures
        s@ == (match buffs {
            Some(b) => buffs_line(b@),
            None => Seq::<char>::empty(),
        }),
{
    match buffs {
        Some(b) => format_buffs(b),
        None => String::new(),
    }
}

} // verus!
