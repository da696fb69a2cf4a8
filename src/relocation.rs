//! Moving a window to the neighbouring monitor.
//!
//! The monitors, ordered by the left edge of their work areas (ties keep the
//! order in which they were reported), form a ring; the window goes to the
//! monitor before its own, and from the leftmost to the rightmost. Every action
//! of the move-to-another-monitor band takes this step. The window's place and
//! size on the new monitor keep their ratios to the work area: each edge offset
//! and each extent is scaled by the ratio of the two work areas, with exact
//! integer arithmetic and the result rounded down. A maximized or minimized
//! window is restored first, so that its normal rectangle is measured, and put
//! back in its state after the move.

use vstd::prelude::*;
use vstd::arithmetic::div_mod::{
    lemma_div_basics, lemma_div_is_ordered_by_denominator, lemma_div_multiples_vanish,
    lemma_div_multiples_vanish_quotient, lemma_div_pos_is_pos,
};
use crate::actions::WindowCommand;
use crate::enums::WindowState;
use crate::geometry::{fits_i32, MonitorInfo, Rect};

verus! {

/// `s`, which is ordered by left edge, with `m` inserted after every monitor
/// whose left edge is not right of its own.
pub open spec fn insert_by_left(s: Seq<MonitorInfo>, m: MonitorInfo) -> Seq<MonitorInfo>
    decreases s.len(),
{
    if s.len() == 0 {
        seq![m]
    } else if s.last().x_offset > m.x_offset {
        insert_by_left(s.drop_last(), m).push(s.last())
    } else {
        s.push(m)
    }
}

/// The monitors of `s` ordered by the left edge of their work areas; monitors
/// with the same left edge keep their order in `s`.
pub open spec fn sort_by_left(s: Seq<MonitorInfo>) -> Seq<MonitorInfo>
    decreases s.len(),
{
    if s.len() == 0 {
        s
    } else {
        insert_by_left(sort_by_left(s.drop_last()), s.last())
    }
}

/// `i` is the first index of `s` that holds a monitor with handle `h`.
pub open spec fn is_first_with_handle(s: Seq<MonitorInfo>, h: isize, i: int) -> bool {
    &&& 0 <= i < s.len()
    &&& s[i].platform_specific_handle == h
    &&& forall|k: int| 0 <= k < i ==> s[k].platform_specific_handle != h
}

/// The index before `i` in a ring of `n` places.
pub open spec fn ring_previous(i: int, n: int) -> int {
    if i == 0 {
        n - 1
    } else {
        i - 1
    }
}

/// The monitor that a window on the monitor with handle `h` moves to: the one
/// before it in the left-to-right ring of `monitors`, or `None` where no
/// monitor has that handle.
pub open spec fn relocation_target(monitors: Seq<MonitorInfo>, h: isize) -> Option<MonitorInfo> {
    let s = sort_by_left(monitors);
    if exists|i: int| is_first_with_handle(s, h, i) {
        let i = choose|i: int| is_first_with_handle(s, h, i);
        Some(s[ring_previous(i, s.len() as int)])
    } else {
        None
    }
}

/// `s` is ordered by the left edge of the work areas.
pub open spec fn ordered_by_left(s: Seq<MonitorInfo>) -> bool {
    forall|i: int, j: int| 0 <= i < j < s.len() ==> s[i].x_offset <= s[j].x_offset
}

proof fn lemma_insert_by_left_keeps_monitors(s: Seq<MonitorInfo>, m: MonitorInfo)
    ensures
        insert_by_left(s, m).to_multiset() =~= s.to_multiset().insert(m),
        insert_by_left(s, m).len() == s.len() + 1,
        ordered_by_left(s) ==> ordered_by_left(insert_by_left(s, m)),
    decreases s.len(),
{
    broadcast use vstd::seq_lib::group_to_multiset_ensures, vstd::multiset::group_multiset_axioms;

    if s.len() == 0 {
    } else if s.last().x_offset > m.x_offset {
        let t = s.drop_last();
        lemma_insert_by_left_keeps_monitors(t, m);
        assert(s =~= t.push(s.last()));
        let r = insert_by_left(s, m);
        let u = insert_by_left(t, m);
        if ordered_by_left(s) {
            assert forall|i: int, j: int| 0 <= i < j < r.len() implies r[i].x_offset
                <= r[j].x_offset by {
                if j == r.len() - 1 {
                    assert(u.contains(r[i]));
                    assert(u.to_multiset().count(r[i]) > 0);
                    if r[i] != m {
                        assert(t.to_multiset().count(r[i]) > 0);
                        assert(t.contains(r[i]));
                        let k = choose|k: int| 0 <= k < t.len() && t[k] == r[i];
                        assert(s[k] == t[k]);
                    }
                } else {
                    assert(r[i] == u[i] && r[j] == u[j]);
                }
            }
        }
    } else {
        assert(s.to_multiset().insert(m) =~= s.push(m).to_multiset());
    }
}

/// The ring holds exactly the monitors reported, each as often as reported, and
/// is ordered by left edge.
pub proof fn lemma_sort_by_left_keeps_monitors(s: Seq<MonitorInfo>)
    ensures
        sort_by_left(s).to_multiset() =~= s.to_multiset(),
        sort_by_left(s).len() == s.len(),
        ordered_by_left(sort_by_left(s)),
        forall|m: MonitorInfo| sort_by_left(s).contains(m) <==> s.contains(m),
    decreases s.len(),
{
    broadcast use vstd::seq_lib::group_to_multiset_ensures, vstd::multiset::group_multiset_axioms;

    if s.len() != 0 {
        let t = s.drop_last();
        lemma_sort_by_left_keeps_monitors(t);
        lemma_insert_by_left_keeps_monitors(sort_by_left(t), s.last());
        assert(s =~= t.push(s.last()));
    }
    assert forall|m: MonitorInfo| sort_by_left(s).contains(m) <==> s.contains(m) by {
        assert(sort_by_left(s).contains(m) <==> sort_by_left(s).to_multiset().count(m) > 0);
        assert(s.contains(m) <==> s.to_multiset().count(m) > 0);
    }
}

proof fn lemma_insert_at(s: Seq<MonitorInfo>, m: MonitorInfo, j: int)
    requires
        0 <= j <= s.len(),
        forall|k: int| j <= k < s.len() ==> s[k].x_offset > m.x_offset,
        j == 0 || s[j - 1].x_offset <= m.x_offset,
    ensures
        insert_by_left(s, m) == s.subrange(0, j).push(m) + s.subrange(j, s.len() as int),
    decreases s.len(),
{
    if s.len() == 0 {
        assert(s.subrange(0, j).push(m) + s.subrange(j, s.len() as int) =~= seq![m]);
    } else if j == s.len() {
        assert(s.subrange(0, j) =~= s);
        assert(s.subrange(j, s.len() as int) =~= Seq::<MonitorInfo>::empty());
        assert(s.push(m) + Seq::<MonitorInfo>::empty() =~= s.push(m));
    } else {
        let t = s.drop_last();
        lemma_insert_at(t, m, j);
        assert(s.subrange(0, j) =~= t.subrange(0, j));
        assert((t.subrange(0, j).push(m) + t.subrange(j, t.len() as int)).push(s.last()) =~= s.subrange(
            0,
            j,
        ).push(m) + s.subrange(j, s.len() as int));
    }
}

/// Inserts `m` into `sorted` as `insert_by_left` does.
fn insert_monitor_by_left(sorted: &mut Vec<MonitorInfo>, m: MonitorInfo)
    ensures
        final(sorted)@ == insert_by_left(old(sorted)@, m),
{
    let mut j = sorted.len();
    while j > 0 && sorted[j - 1].x_offset > m.x_offset
        invariant
            j <= sorted.len(),
            forall|k: int| j <= k < sorted.len() ==> sorted@[k].x_offset > m.x_offset,
        decreases j,
    {
        j = j - 1;
    }
    proof {
        lemma_insert_at(sorted@, m, j as int);
        assert(sorted@.insert(j as int, m) =~= sorted@.subrange(0, j as int).push(m) + sorted@.subrange(
            j as int,
            sorted@.len() as int,
        ));
    }
    sorted.insert(j, m);
}

/// The monitors ordered by the left edge of their work areas, ties in the
/// order given.
pub fn sort_monitors_by_left(monitors: &Vec<MonitorInfo>) -> (r: Vec<MonitorInfo>)
    ensures
        r@ == sort_by_left(monitors@),
{
    let mut sorted: Vec<MonitorInfo> = Vec::new();
    for i in 0..monitors.len()
        invariant
            sorted@ == sort_by_left(monitors@.subrange(0, i as int)),
    {
        proof {
            let next = monitors@.subrange(0, i + 1);
            assert(next.drop_last() =~= monitors@.subrange(0, i as int));
            assert(next.last() == monitors@[i as int]);
        }
        insert_monitor_by_left(&mut sorted, monitors[i]);
    }
    proof {
        assert(monitors@.subrange(0, monitors@.len() as int) =~= monitors@);
    }
    sorted
}

/// The first index of `s` that holds a monitor with handle `h`.
fn position_of_handle(s: &Vec<MonitorInfo>, h: isize) -> (r: Option<usize>)
    ensures
        r matches Some(i) ==> is_first_with_handle(s@, h, i as int),
        r is None ==> forall|k: int| 0 <= k < s@.len() ==> s@[k].platform_specific_handle != h,
{
    for i in 0..s.len()
        invariant
            forall|k: int| 0 <= k < i ==> s@[k].platform_specific_handle != h,
    {
        if s[i].platform_specific_handle == h {
            return Some(i);
        }
    }
    None
}


/// The magnitude of `d`.
pub open spec fn magnitude(d: int) -> int {
    if d < 0 {
        -d
    } else {
        d
    }
}

/// The length `d`, measured on an extent `from`, carried over to an extent `to`
/// with its ratio kept: `|d| / from * to`, rounded down.
pub open spec fn scale(d: int, to: int, from: int) -> int {
    magnitude(d) * to / from
}

/// Where a window with rectangle `w` on monitor `source` goes on monitor
/// `target`, as `(left, top, width, height)`: its offsets from the work area's
/// origin and its extents keep their ratios to the work area.
pub open spec fn relocated_position(w: Rect, source: MonitorInfo, target: MonitorInfo) -> (
    int,
    int,
    int,
    int,
) {
    (
        scale(w.left - source.x_offset, target.width as int, source.width as int)
            + target.x_offset,
        scale(w.top - source.y_offset, target.height as int, source.height as int)
            + target.y_offset,
        scale(w.spec_width(), target.width as int, source.width as int),
        scale(w.spec_height(), target.height as int, source.height as int),
    )
}

/// The relocated rectangle's edges are `i32` coordinates.
pub open spec fn relocated_fits(w: Rect, source: MonitorInfo, target: MonitorInfo) -> bool {
    let p = relocated_position(w, source, target);
    fits_i32(p.0) && fits_i32(p.1) && fits_i32(p.0 + p.2) && fits_i32(p.1 + p.3)
}

/// The relocated rectangle (meaningful where `relocated_fits` holds).
pub open spec fn relocated_rect(w: Rect, source: MonitorInfo, target: MonitorInfo) -> Rect {
    let p = relocated_position(w, source, target);
    Rect {
        left: p.0 as i32,
        top: p.1 as i32,
        right: (p.0 + p.2) as i32,
        bottom: (p.1 + p.3) as i32,
    }
}

/// `scale` on wide integers.
fn scale_wide(d: i64, to: i32, from: i32) -> (r: i64)
    requires
        -0x1_0000_0000 < d < 0x1_0000_0000,
        to > 0,
        from > 0,
    ensures
        r == scale(d as int, to as int, from as int),
        0 <= r <= 0xFFFF_FFFF * 0x7FFF_FFFF,
{
    let m: i64 = if d < 0 {
        -d
    } else {
        d
    };
    let to_wide = to as i64;
    assert(m * to_wide <= 0xFFFF_FFFF * 0x7FFF_FFFF) by (nonlinear_arith)
        requires
            0 <= m <= 0xFFFF_FFFF,
            0 < to_wide <= 0x7FFF_FFFF,
    ;
    assert(0 <= m * to_wide) by (nonlinear_arith)
        requires
            0 <= m,
            0 < to_wide,
    ;
    let p = m * to_wide;
    proof {
        lemma_div_is_ordered_by_denominator(p as int, 1, from as int);
        lemma_div_basics(p as int);
        lemma_div_pos_is_pos(p as int, from as int);
    }
    p / (from as i64)
}

/// The rectangle that a window with rectangle `window` on monitor `source` gets
/// on monitor `target`, or `None` where its edges leave `i32` coordinates.
pub fn relocate_rect(window: &Rect, source: &MonitorInfo, target: &MonitorInfo) -> (r: Option<Rect>)
    requires
        source.wf(),
        target.wf(),
    ensures
        r is Some <==> relocated_fits(*window, *source, *target),
        r matches Some(rect) ==> rect == relocated_rect(*window, *source, *target),
{
    let lo = i32::MIN as i64;
    let hi = i32::MAX as i64;
    let left = scale_wide(window.left as i64 - source.x_offset as i64, target.width, source.width)
        + target.x_offset as i64;
    let top = scale_wide(window.top as i64 - source.y_offset as i64, target.height, source.height)
        + target.y_offset as i64;
    let width = scale_wide(window.right as i64 - window.left as i64, target.width, source.width);
    let height = scale_wide(
        window.bottom as i64 - window.top as i64,
        target.height,
        source.height,
    );
    if left < lo || left > hi || top < lo || top > hi {
        return None;
    }
    let right = left + width;
    let bottom = top + height;
    if right < lo || right > hi || bottom < lo || bottom > hi {
        return None;
    }
    Some(Rect { left: left as i32, top: top as i32, right: right as i32, bottom: bottom as i32 })
}

/// Why a window cannot be moved to another monitor.
#[derive(Clone, Copy, Debug, PartialEq, Eq, Structural)]
pub enum RelocationError {
    /// The window's monitor is not among the monitors reported (a stale handle).
    MonitorNotFound,
    /// The window's new rectangle does not fit in `i32` coordinates.
    OutOfRange,
}

/// What moving a window to another monitor comes to.
#[derive(Clone, Copy, Debug, PartialEq, Eq, Structural)]
pub enum Relocation {
    /// There is no other monitor: the window is left alone.
    Stay,
    /// The window, in state `state`, moves from monitor `source` to monitor `target`.
    Relocate { source: MonitorInfo, target: MonitorInfo, state: WindowState },
}

impl Relocation {
    /// Both work areas can be scaled between.
    pub open spec fn wf(self) -> bool {
        self matches Relocation::Relocate { source, target, .. } ==> source.wf() && target.wf()
    }

    /// The commands issued before the window is measured: a maximized or
    /// minimized window is restored.
    pub open spec fn spec_prepare(self) -> Seq<WindowCommand> {
        if self matches Relocation::Relocate { state, .. } && (state == WindowState::Maximized
            || state == WindowState::Minimized) {
            seq![WindowCommand::Restore]
        } else {
            seq![]
        }
    }

    /// The commands issued once the window measures `window`: the move, a
    /// second identical move where the two monitors' scalings differ (a single
    /// move across a scaling change may leave the size unsettled), then the
    /// window's earlier state is put back.
    pub open spec fn spec_finish(self, window: Rect) -> Result<Seq<WindowCommand>, RelocationError> {
        match self {
            Relocation::Stay => Ok(seq![]),
            Relocation::Relocate { source, target, state } => {
                if relocated_fits(window, source, target) {
                    let moved = WindowCommand::Move(relocated_rect(window, source, target));
                    let moves = if source.dpi == target.dpi {
                        seq![moved]
                    } else {
                        seq![moved, moved]
                    };
                    let restate = if state == WindowState::Maximized {
                        seq![WindowCommand::Maximize]
                    } else if state == WindowState::Minimized {
                        seq![WindowCommand::Minimize]
                    } else {
                        seq![]
                    };
                    Ok(moves + restate)
                } else {
                    Err(RelocationError::OutOfRange)
                }
            },
        }
    }

    /// The commands to issue before the window's rectangle is measured.
    pub fn prepare(&self) -> (r: Vec<WindowCommand>)
        ensures
            r@ == self.spec_prepare(),
    {
        let mut cmds: Vec<WindowCommand> = Vec::new();
        if let Relocation::Relocate { state, .. } = self {
            if *state == WindowState::Maximized || *state == WindowState::Minimized {
                cmds.push(WindowCommand::Restore);
            }
        }
        proof {
            assert(cmds@ =~= self.spec_prepare());
        }
        cmds
    }

    /// The commands to issue once the window, prepared, measures `window`.
    pub fn finish(&self, window: &Rect) -> (r: Result<Vec<WindowCommand>, RelocationError>)
        requires
            self.wf(),
        ensures
            match r {
                Ok(cmds) => self.spec_finish(*window) == Ok::<_, RelocationError>(cmds@),
                Err(e) => self.spec_finish(*window) == Err::<Seq<WindowCommand>, _>(e),
            },
    {
        match self {
            Relocation::Stay => Ok(Vec::new()),
            Relocation::Relocate { source, target, state } => {
                match relocate_rect(window, source, target) {
                    None => Err(RelocationError::OutOfRange),
                    Some(rect) => {
                        let mut cmds: Vec<WindowCommand> = Vec::new();
                        cmds.push(WindowCommand::Move(rect));
                        if source.dpi != target.dpi {
                            cmds.push(WindowCommand::Move(rect));
                        }
                        match state {
                            WindowState::Maximized => cmds.push(WindowCommand::Maximize),
                            WindowState::Minimized => cmds.push(WindowCommand::Minimize),
                            _ => {},
                        }
                        proof {
                            let spec_cmds = self.spec_finish(*window)->Ok_0;
                            assert(cmds@ =~= spec_cmds);
                        }
                        Ok(cmds)
                    },
                }
            },
        }
    }
}

/// What moving a window on `current`, in state `state`, comes to when the
/// desktop reports `monitors`.
pub open spec fn plan_relocation(
    monitors: Seq<MonitorInfo>,
    current: MonitorInfo,
    state: WindowState,
) -> Result<Relocation, RelocationError> {
    if monitors.len() == 1 {
        Ok(Relocation::Stay)
    } else {
        match relocation_target(monitors, current.platform_specific_handle) {
            Some(target) => Ok(Relocation::Relocate { source: current, target, state }),
            None => Err(RelocationError::MonitorNotFound),
        }
    }
}

/// The move of the focused window to the monitor before its own, in the ring of
/// `monitors` ordered by left edge. `current_monitor` is the window's monitor
/// and `window_state` its state.
pub fn implement_move_action_to_another_screen(
    monitors: &Vec<MonitorInfo>,
    current_monitor: &MonitorInfo,
    window_state: WindowState,
) -> (r: Result<Relocation, RelocationError>)
    requires
        current_monitor.wf(),
        forall|i: int| 0 <= i < monitors@.len() ==> (#[trigger] monitors@[i]).wf(),
    ensures
        r == plan_relocation(monitors@, *current_monitor, window_state),
        r matches Ok(plan) ==> plan.wf(),
{
    if monitors.len() == 1 {
        return Ok(Relocation::Stay);
    }
    let sorted = sort_monitors_by_left(monitors);
    proof {
        lemma_sort_by_left_keeps_monitors(monitors@);
    }
    match position_of_handle(&sorted, current_monitor.platform_specific_handle) {
        None => Err(RelocationError::MonitorNotFound),
        Some(i) => {
            let target_index = if i == 0 {
                sorted.len() - 1
            } else {
                i - 1
            };
            let target = sorted[target_index];
            proof {
                let h = current_monitor.platform_specific_handle;
                assert forall|j: int| is_first_with_handle(sorted@, h, j) implies j == i as int by {
                    if j < i {
                        assert(sorted@[j].platform_specific_handle != h);
                    }
                    if j > i {
                        assert(sorted@[i as int].platform_specific_handle != h);
                    }
                }
                assert(sorted@[target_index as int] == target);
                assert(monitors@.contains(target));
                let k = choose|k: int| 0 <= k < monitors@.len() && monitors@[k] == target;
                assert(monitors@[k].wf());
            }
            Ok(Relocation::Relocate { source: *current_monitor, target, state: window_state })
        },
    }
}


/// Ring wraparound: a window on the monitor at place `i` of the left-to-right
/// order moves to the monitor at place `i - 1`, and from the leftmost monitor
/// (place 0) to the rightmost one.
pub proof fn lemma_ring_wraparound(
    monitors: Seq<MonitorInfo>,
    current: MonitorInfo,
    state: WindowState,
    i: int,
)
    requires
        monitors.len() >= 2,
        is_first_with_handle(sort_by_left(monitors), current.platform_specific_handle, i),
    ensures
        plan_relocation(monitors, current, state) == Ok::<_, RelocationError>(
            Relocation::Relocate {
                source: current,
                target: sort_by_left(monitors)[if i == 0 {
                    monitors.len() - 1
                } else {
                    i - 1
                }],
                state,
            },
        ),
{
    let s = sort_by_left(monitors);
    let h = current.platform_specific_handle;
    lemma_sort_by_left_keeps_monitors(monitors);
    assert forall|j: int| is_first_with_handle(s, h, j) implies j == i by {
        if j < i {
            assert(s[j].platform_specific_handle != h);
        }
        if j > i {
            assert(s[i].platform_specific_handle != h);
        }
    }
}

/// With a single monitor, moving to another monitor is a no-op: no command of
/// any kind is issued, whatever the window measures.
pub proof fn lemma_single_monitor_no_op(
    monitors: Seq<MonitorInfo>,
    current: MonitorInfo,
    state: WindowState,
    window: Rect,
)
    requires
        monitors.len() == 1,
    ensures
        plan_relocation(monitors, current, state) == Ok::<_, RelocationError>(Relocation::Stay),
        Relocation::Stay.spec_prepare().len() == 0,
        Relocation::Stay.spec_finish(window) == Ok::<_, RelocationError>(Seq::<WindowCommand>::empty()),
{
}

/// State preservation: a maximized (or minimized) window is restored before it
/// is measured, and the last command after the move maximizes (or minimizes)
/// it again. A window in another state gets neither.
pub proof fn lemma_state_preserved(
    monitors: Seq<MonitorInfo>,
    current: MonitorInfo,
    state: WindowState,
    window: Rect,
)
    requires
        plan_relocation(monitors, current, state) matches Ok(plan) && plan is Relocate,
    ensures
        ({
            let plan = plan_relocation(monitors, current, state)->Ok_0;
            plan.spec_finish(window) matches Ok(cmds) ==> {
                &&& cmds.len() > 0
                &&& state == WindowState::Maximized ==> plan.spec_prepare() == seq![
                    WindowCommand::Restore,
                ] && cmds.last() == WindowCommand::Maximize
                &&& state == WindowState::Minimized ==> plan.spec_prepare() == seq![
                    WindowCommand::Restore,
                ] && cmds.last() == WindowCommand::Minimize
                &&& state != WindowState::Maximized && state != WindowState::Minimized ==> {
                    &&& plan.spec_prepare().len() == 0
                    &&& cmds.last() is Move
                }
            }
        }),
{
}

/// Ratio preservation: a window that fills the right half of the work area of
/// `a` (left edge at half the width, full height) fills the right half of the
/// work area of `b` after the move, for any two monitors. Where `b`'s width is
/// odd, its half is rounded down.
pub proof fn lemma_relocation_keeps_ratios(window: Rect, a: MonitorInfo, b: MonitorInfo)
    requires
        a.wf(),
        b.wf(),
        2 * window.spec_width() == a.width,
        window.spec_height() == a.height,
        2 * (window.left - a.x_offset) == a.width,
        window.top == a.y_offset,
    ensures
        relocated_position(window, a, b) == (
            b.x_offset + b.width / 2,
            b.y_offset as int,
            b.width / 2,
            b.height as int,
        ),
{
    let k = window.spec_width();
    assert(a.width == k * 2);
    lemma_div_multiples_vanish_quotient(k, b.width as int, 2);
    lemma_div_multiples_vanish(b.height as int, a.height as int);
    lemma_div_basics(a.height as int);
    assert(magnitude(window.top - a.y_offset) == 0);
    assert(0 * (b.height as int) == 0) by (nonlinear_arith);
}

} // verus!
