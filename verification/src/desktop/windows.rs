//! What the window service reads off a client: its state from
//! `_NET_WM_STATE`, its features, its text properties; what it asks the
//! window manager for by `_NET_WM_STATE` messages; and which client-list
//! entries it reports as managed windows.

use vstd::prelude::*;
use crate::arith::wrap_i32;
use crate::desktop::area::{window_output, window_output_spec, DesktopRect, OutputGeometry};
use crate::wm::identity::{decode_text, utf8_lossy};

verus! {

/// The `_NET_WM_STATE` atoms the port reads and sets.
#[derive(Debug, Clone, Copy, PartialEq, Eq, Structural, Hash)]
pub struct WindowStateAtoms {
    pub hidden: u32,
    pub maximized_vert: u32,
    pub maximized_horz: u32,
    pub fullscreen: u32,
    pub sticky: u32,
    pub modal: u32,
    pub shaded: u32,
    pub skip_taskbar: u32,
    pub skip_pager: u32,
    pub above: u32,
    pub below: u32,
    pub demands_attention: u32,
}

/// A window's state as the desktop reports it.
#[derive(Debug, Clone, Copy, PartialEq, Eq, Structural, Hash)]
pub enum WindowState {
    Normal,
    Minimized,
    Maximized,
    Fullscreen,
}

/// The optional window features.
#[derive(Debug, Clone, Copy, PartialEq, Eq, Structural, Hash)]
pub enum WindowFeature {
    Sticky,
    Modal,
    Shaded,
    SkipTaskbar,
    SkipPager,
    Above,
    Below,
    DemandsAttention,
}

/// Which features a window has.
#[derive(Debug, Clone, Copy, PartialEq, Eq, Structural, Hash)]
pub struct FeatureSnapshot {
    pub sticky: bool,
    pub modal: bool,
    pub shaded: bool,
    pub skip_taskbar: bool,
    pub skip_pager: bool,
    pub above: bool,
    pub below: bool,
    pub demands_attention: bool,
}

/// How a `_NET_WM_STATE` request changes a state.
#[derive(Debug, Clone, Copy, PartialEq, Eq, Structural, Hash)]
pub enum FeatureAction {
    Remove,
    Add,
    Toggle,
}

/// The window operations that go through `_NET_WM_STATE`.
#[derive(Debug, Clone, Copy, PartialEq, Eq, Structural, Hash)]
pub enum StateOp {
    Minimize,
    Maximize,
    Restore,
}

fn has_atom(states: &[u32], atom: u32) -> (r: bool)
    ensures
        r == states@.contains(atom),
{
    let mut i: usize = 0;
    while i < states.len()
        invariant
            0 <= i <= states@.len(),
            forall|j: int| 0 <= j < i ==> states@[j] != atom,
        decreases states@.len() - i,
    {
        if states[i] == atom {
            assert(states@[i as int] == atom);
            return true;
        }
        i += 1;
    }
    false
}

/// Fullscreen first, then hidden, then maximized both ways.
pub open spec fn state_spec(states: Seq<u32>, a: WindowStateAtoms) -> WindowState {
    if states.contains(a.fullscreen) {
        WindowState::Fullscreen
    } else if states.contains(a.hidden) {
        WindowState::Minimized
    } else if states.contains(a.maximized_vert) && states.contains(a.maximized_horz) {
        WindowState::Maximized
    } else {
        WindowState::Normal
    }
}

/// The state a `_NET_WM_STATE` list shows.
pub fn window_state(states: &[u32], atoms: WindowStateAtoms) -> (r: WindowState)
    ensures
        r == state_spec(states@, atoms),
{
    if has_atom(states, atoms.fullscreen) {
        WindowState::Fullscreen
    } else if has_atom(states, atoms.hidden) {
        WindowState::Minimized
    } else if has_atom(states, atoms.maximized_vert) && has_atom(states, atoms.maximized_horz) {
        WindowState::Maximized
    } else {
        WindowState::Normal
    }
}

/// The features a `_NET_WM_STATE` list shows.
pub fn feature_snapshot(states: &[u32], a: WindowStateAtoms) -> (r: FeatureSnapshot)
    ensures
        r == (FeatureSnapshot {
            sticky: states@.contains(a.sticky),
            modal: states@.contains(a.modal),
            shaded: states@.contains(a.shaded),
            skip_taskbar: states@.contains(a.skip_taskbar),
            skip_pager: states@.contains(a.skip_pager),
            above: states@.contains(a.above),
            below: states@.contains(a.below),
            demands_attention: states@.contains(a.demands_attention),
        }),
{
    FeatureSnapshot {
        sticky: has_atom(states, a.sticky),
        modal: has_atom(states, a.modal),
        shaded: has_atom(states, a.shaded),
        skip_taskbar: has_atom(states, a.skip_taskbar),
        skip_pager: has_atom(states, a.skip_pager),
        above: has_atom(states, a.above),
        below: has_atom(states, a.below),
        demands_attention: has_atom(states, a.demands_attention),
    }
}

pub open spec fn feature_atom_spec(feature: WindowFeature, a: WindowStateAtoms) -> u32 {
    match feature {
        WindowFeature::Sticky => a.sticky,
        WindowFeature::Modal => a.modal,
        WindowFeature::Shaded => a.shaded,
        WindowFeature::SkipTaskbar => a.skip_taskbar,
        WindowFeature::SkipPager => a.skip_pager,
        WindowFeature::Above => a.above,
        WindowFeature::Below => a.below,
        WindowFeature::DemandsAttention => a.demands_attention,
    }
}

/// The state atom that carries a feature.
pub fn feature_atom(feature: WindowFeature, a: WindowStateAtoms) -> (r: u32)
    ensures
        r == feature_atom_spec(feature, a),
{
    match feature {
        WindowFeature::Sticky => a.sticky,
        WindowFeature::Modal => a.modal,
        WindowFeature::Shaded => a.shaded,
        WindowFeature::SkipTaskbar => a.skip_taskbar,
        WindowFeature::SkipPager => a.skip_pager,
        WindowFeature::Above => a.above,
        WindowFeature::Below => a.below,
        WindowFeature::DemandsAttention => a.demands_attention,
    }
}

pub open spec fn action_code(action: FeatureAction) -> u32 {
    match action {
        FeatureAction::Remove => 0,
        FeatureAction::Add => 1,
        FeatureAction::Toggle => 2,
    }
}

/// The data words of a `_NET_WM_STATE` request for one atom, from an
/// application (source 1).
pub fn state_request(action: FeatureAction, atom: u32) -> (r: [u32; 5])
    ensures
        r@ == seq![action_code(action), atom, 0u32, 1u32, 0u32],
{
    let code: u32 = match action {
        FeatureAction::Remove => 0,
        FeatureAction::Add => 1,
        FeatureAction::Toggle => 2,
    };
    let r = [code, atom, 0, 1, 0];
    assert(r@ =~= seq![action_code(action), atom, 0u32, 1u32, 0u32]);
    r
}

pub open spec fn request_words(action: FeatureAction, atom: u32) -> Seq<u32> {
    seq![action_code(action), atom, 0u32, 1u32, 0u32]
}

/// The requests an operation sends, in order: minimize adds hidden;
/// maximize adds both maximized states; restore removes hidden and both
/// maximized states.
pub open spec fn op_requests_spec(op: StateOp, a: WindowStateAtoms) -> Seq<Seq<u32>> {
    match op {
        StateOp::Minimize => seq![request_words(FeatureAction::Add, a.hidden)],
        StateOp::Maximize => seq![
            request_words(FeatureAction::Add, a.maximized_vert),
            request_words(FeatureAction::Add, a.maximized_horz),
        ],
        StateOp::Restore => seq![
            request_words(FeatureAction::Remove, a.hidden),
            request_words(FeatureAction::Remove, a.maximized_vert),
            request_words(FeatureAction::Remove, a.maximized_horz),
        ],
    }
}

pub open spec fn request_views(v: Seq<[u32; 5]>) -> Seq<Seq<u32>> {
    Seq::new(v.len(), |i: int| v[i]@)
}

pub fn op_requests(op: StateOp, a: WindowStateAtoms) -> (r: Vec<[u32; 5]>)
    ensures
        request_views(r@) == op_requests_spec(op, a),
{
    let mut out: Vec<[u32; 5]> = Vec::new();
    match op {
        StateOp::Minimize => {
            out.push(state_request(FeatureAction::Add, a.hidden));
        },
        StateOp::Maximize => {
            out.push(state_request(FeatureAction::Add, a.maximized_vert));
            out.push(state_request(FeatureAction::Add, a.maximized_horz));
        },
        StateOp::Restore => {
            out.push(state_request(FeatureAction::Remove, a.hidden));
            out.push(state_request(FeatureAction::Remove, a.maximized_vert));
            out.push(state_request(FeatureAction::Remove, a.maximized_horz));
        },
    }
    assert(request_views(out@) =~= op_requests_spec(op, a));
    out
}

/// The client-list entries reported as managed windows: not the
/// supporting check window, not docks, and still alive.
pub open spec fn managed_spec(list: Seq<u32>, support: Option<u32>, dock: Seq<bool>, alive: Seq<bool>) -> Seq<u32>
    decreases list.len(),
{
    if list.len() == 0 {
        Seq::empty()
    } else {
        let n = list.len() - 1;
        let prev = managed_spec(list.drop_last(), support, dock.take(n), alive.take(n));
        if Some(list[n]) != support && !dock[n] && alive[n] {
            prev.push(list[n])
        } else {
            prev
        }
    }
}

/// Filter `_NET_CLIENT_LIST`; `is_dock[i]` and `alive[i]` describe entry `i`.
pub fn managed_windows(client_list: &[u32], support: Option<u32>, is_dock: &[bool], alive: &[bool]) -> (r: Vec<u32>)
    requires
        is_dock@.len() == client_list@.len(),
        alive@.len() == client_list@.len(),
    ensures
        r@ == managed_spec(client_list@, support, is_dock@, alive@),
{
    let mut out: Vec<u32> = Vec::new();
    let mut i: usize = 0;
    while i < client_list.len()
        invariant
            0 <= i <= client_list@.len(),
            is_dock@.len() == client_list@.len(),
            alive@.len() == client_list@.len(),
            out@ == managed_spec(client_list@.take(i as int), support, is_dock@.take(i as int), alive@.take(i as int)),
        decreases client_list@.len() - i,
    {
        let w = client_list[i];
        proof {
            let k = i as int;
            assert(client_list@.take(k + 1).drop_last() =~= client_list@.take(k));
            assert(is_dock@.take(k + 1).take(k) =~= is_dock@.take(k));
            assert(alive@.take(k + 1).take(k) =~= alive@.take(k));
        }
        let is_support = match support {
            Some(s) => s == w,
            None => false,
        };
        if !is_support && !is_dock[i] && alive[i] {
            out.push(w);
        }
        i += 1;
    }
    assert(client_list@.take(client_list@.len() as int) =~= client_list@);
    assert(is_dock@.take(client_list@.len() as int) =~= is_dock@);
    assert(alive@.take(client_list@.len() as int) =~= alive@);
    out
}

/// A character sequence without its trailing NULs.
pub open spec fn trim_end_nul(s: Seq<char>) -> Seq<char>
    decreases s.len(),
{
    if s.len() > 0 && s.last() == '\0' {
        trim_end_nul(s.drop_last())
    } else {
        s
    }
}

/// A decoded text without its trailing NULs.
pub fn trim_end_nul_text(text: &str) -> (r: String)
    ensures
        r@ == trim_end_nul(text@),
{
    let mut end = text.unicode_len();
    assert(text@.take(end as int) =~= text@);
    while end > 0 && text.get_char(end - 1) == '\0'
        invariant
            end <= text@.len(),
            trim_end_nul(text@.take(end as int)) == trim_end_nul(text@),
        decreases end,
    {
        assert(text@.take(end as int).drop_last() =~= text@.take(end as int - 1));
        end -= 1;
    }
    proof {
        let t = text@.take(end as int);
        if end > 0 {
            assert(t.last() == text@[end as int - 1]);
        }
        assert(trim_end_nul(t) == t);
        assert(text@.subrange(0, end as int) =~= t);
    }
    String::from_str(text.substring_char(0, end))
}

/// A text property: the bytes decoded lossily, trailing NULs removed.
pub fn property_text(bytes: &[u8]) -> (r: String)
    ensures
        r@ == trim_end_nul(utf8_lossy(bytes@)),
{
    let text = decode_text(bytes);
    trim_end_nul_text(text.as_str())
}

/// Position of the first NUL at or after `from`, or the length.
pub open spec fn nul_char_from(s: Seq<char>, from: int) -> int
    decreases s.len() - from,
{
    if from >= s.len() {
        s.len() as int
    } else if s[from] == '\0' {
        from
    } else {
        nul_char_from(s, from + 1)
    }
}

fn find_nul_char(s: &str, from: usize) -> (r: usize)
    requires
        from <= s@.len(),
    ensures
        r == nul_char_from(s@, from as int),
        from <= r <= s@.len(),
{
    let n = s.unicode_len();
    let mut i = from;
    while i < n && s.get_char(i) != '\0'
        invariant
            n == s@.len(),
            from <= i <= n,
            nul_char_from(s@, i as int) == nul_char_from(s@, from as int),
        decreases n - i,
    {
        i += 1;
    }
    i
}

/// The second NUL-separated field of a text (`WM_CLASS`: the class), empty
/// when there is none.
pub open spec fn second_field_spec(s: Seq<char>) -> Seq<char> {
    let a = nul_char_from(s, 0);
    if a >= s.len() {
        Seq::empty()
    } else {
        s.subrange(a + 1, nul_char_from(s, a + 1))
    }
}

pub fn second_field(s: &str) -> (r: String)
    ensures
        r@ == second_field_spec(s@),
{
    let a = find_nul_char(s, 0);
    if a >= s.unicode_len() {
        return String::new();
    }
    let b = find_nul_char(s, a + 1);
    String::from_str(s.substring_char(a + 1, b))
}

/// A window as the desktop reports it.
#[derive(Debug, Clone, PartialEq, Eq)]
pub struct WindowInfo {
    pub id: u64,
    pub generation: u64,
    pub title: String,
    pub app_id: String,
    pub outer_geometry: DesktopRect,
    pub restore_geometry: DesktopRect,
    pub state: WindowState,
    pub sticky: bool,
    pub focused: bool,
    pub workspace: i32,
    pub workspace_revision: u64,
    pub output: String,
    pub state_generation: u64,
}

/// The plain values read for one window.
#[derive(Debug, Clone, PartialEq, Eq)]
pub struct WindowReadings {
    pub window: u32,
    /// The generation the reference is reported with.
    pub generation: u64,
    /// The generation recorded for the window's state.
    pub state_generation: u64,
    pub title: String,
    /// The decoded `WM_CLASS` text.
    pub class_text: String,
    pub x: i16,
    pub y: i16,
    pub width: u16,
    pub height: u16,
    pub states: Vec<u32>,
    pub desktop: u32,
    pub active: Option<u32>,
    pub workspace_revision: u64,
}

/// The report built from the readings: the frame geometry serves as both
/// outer and restore geometry, the output is the one holding its centre,
/// the application id is the `WM_CLASS` class.
pub open spec fn window_info_ok(r: WindowInfo, w: WindowReadings, a: WindowStateAtoms, outs: Seq<OutputGeometry>) -> bool {
    let g = DesktopRect { x: w.x as i32, y: w.y as i32, width: w.width as i32, height: w.height as i32 };
    &&& r.id == w.window as u64
    &&& r.generation == w.generation
    &&& r.title@ == w.title@
    &&& r.app_id@ == second_field_spec(w.class_text@)
    &&& r.outer_geometry == g
    &&& r.restore_geometry == g
    &&& r.state == state_spec(w.states@, a)
    &&& r.sticky == w.states@.contains(a.sticky)
    &&& r.focused == (w.active == Some(w.window))
    &&& r.workspace == wrap_i32(w.desktop)
    &&& r.workspace_revision == w.workspace_revision
    &&& r.output@ == window_output_spec(outs, w.x, w.y, w.width, w.height)
    &&& r.state_generation == w.state_generation
}

pub fn window_info(w: &WindowReadings, atoms: WindowStateAtoms, outputs: &[OutputGeometry]) -> (r: WindowInfo)
    ensures
        window_info_ok(r, *w, atoms, outputs@),
{
    let g = DesktopRect { x: w.x as i32, y: w.y as i32, width: w.width as i32, height: w.height as i32 };
    WindowInfo {
        id: w.window as u64,
        generation: w.generation,
        title: w.title.clone(),
        app_id: second_field(w.class_text.as_str()),
        outer_geometry: g,
        restore_geometry: g,
        state: window_state(w.states.as_slice(), atoms),
        sticky: has_atom(w.states.as_slice(), atoms.sticky),
        focused: match w.active {
            Some(a) => a == w.window,
            None => false,
        },
        workspace: crate::arith::wrap_u32_to_i32(w.desktop),
        workspace_revision: w.workspace_revision,
        output: window_output(outputs, w.x, w.y, w.width, w.height),
        state_generation: w.state_generation,
    }
}

} // verus!
