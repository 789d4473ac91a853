//! The display service: outputs, their modes and geometry as RandR reports
//! them, with the root window standing in where RandR gives no CRTC; and
//! the bookkeeping of a mode change that is waiting to be kept or
//! reverted.

use vstd::prelude::*;
use crate::desktop::area::DesktopRect;
use crate::desktop::error::DesktopError;
use crate::wm::identity::{decode_text, utf8_lossy};

verus! {

/// A RandR mode as the screen resources list it.
#[derive(Debug, Clone, Copy, PartialEq, Eq, Structural, Hash)]
pub struct ModeInfo {
    pub id: u32,
    pub width: u16,
    pub height: u16,
    pub dot_clock: u32,
    pub htotal: u16,
    pub vtotal: u16,
}

/// A mode as the desktop reports it.
#[derive(Debug, Clone, Copy, PartialEq, Eq, Structural, Hash)]
pub struct ModeEntry {
    pub id: u64,
    pub width: i32,
    pub height: i32,
    pub refresh_millihz: i32,
    pub preferred: bool,
}

/// The CRTC an output is shown on: where, how large, in which mode.
#[derive(Debug, Clone, Copy, PartialEq, Eq, Structural, Hash)]
pub struct CrtcReading {
    pub x: i16,
    pub y: i16,
    pub width: u16,
    pub height: u16,
    pub mode: u32,
}

/// What RandR says of one output: its name, whether it is connected, the
/// modes it offers (preferred first) and its CRTC, when it has one.
#[derive(Debug, Clone, PartialEq, Eq)]
pub struct OutputReading {
    pub name: Vec<u8>,
    pub connected: bool,
    pub modes: Vec<u32>,
    pub crtc: Option<CrtcReading>,
}

/// An output as the desktop reports it.
#[derive(Debug, Clone, PartialEq, Eq)]
pub struct OutputInfo {
    pub id: String,
    pub connector: String,
    pub edid_identity: String,
    pub connected: bool,
    pub primary: bool,
    pub geometry: DesktopRect,
    pub current_mode: u64,
    pub modes: Vec<ModeEntry>,
    pub shell_scale_percent: u32,
}

/// The display as the desktop reports it.
#[derive(Debug, Clone, PartialEq, Eq)]
pub struct DisplayInfo {
    pub generation: u64,
    pub outputs: Vec<OutputInfo>,
}

/// Refresh rate in millihertz: the dot clock over the total raster,
/// 0 when the raster is empty.
pub open spec fn refresh_spec(m: ModeInfo) -> i32 {
    if m.htotal == 0 || m.vtotal == 0 {
        0
    } else {
        ((m.dot_clock * 1000) / (m.htotal as int) / (m.vtotal as int)) as i32
    }
}

pub fn refresh_millihz(m: ModeInfo) -> (r: i32)
    ensures
        r == refresh_spec(m),
{
    if m.htotal == 0 || m.vtotal == 0 {
        0
    } else {
        let q: u64 = (m.dot_clock as u64 * 1000) / (m.htotal as u64) / (m.vtotal as u64);
        q as i32
    }
}

/// The first mode of the resources with this id.
pub open spec fn find_mode(res: Seq<ModeInfo>, id: u32) -> Option<ModeInfo>
    decreases res.len(),
{
    if res.len() == 0 {
        None
    } else if res[0].id == id {
        Some(res[0])
    } else {
        find_mode(res.drop_first(), id)
    }
}

pub open spec fn entry_of(m: ModeInfo, preferred_id: Option<u32>) -> ModeEntry {
    ModeEntry {
        id: m.id as u64,
        width: m.width as i32,
        height: m.height as i32,
        refresh_millihz: refresh_spec(m),
        preferred: preferred_id == Some(m.id),
    }
}

/// The modes an output offers that the resources describe, in the
/// output's order; the first mode the output lists is the preferred one.
pub open spec fn modes_spec(ids: Seq<u32>, res: Seq<ModeInfo>, first: Option<u32>) -> Seq<ModeEntry>
    decreases ids.len(),
{
    if ids.len() == 0 {
        Seq::empty()
    } else {
        let prev = modes_spec(ids.drop_last(), res, first);
        match find_mode(res, ids.last()) {
            Some(m) => prev.push(entry_of(m, first)),
            None => prev,
        }
    }
}

fn lookup_mode(res: &[ModeInfo], id: u32) -> (r: Option<ModeInfo>)
    ensures
        r == find_mode(res@, id),
{
    let mut i: usize = 0;
    assert(res@.subrange(0, res@.len() as int) =~= res@);
    while i < res.len()
        invariant
            0 <= i <= res@.len(),
            find_mode(res@.subrange(i as int, res@.len() as int), id) == find_mode(res@, id),
        decreases res@.len() - i,
    {
        let ghost rest = res@.subrange(i as int, res@.len() as int);
        assert(rest.drop_first() =~= res@.subrange(i as int + 1, res@.len() as int));
        assert(rest[0] == res@[i as int]);
        if res[i].id == id {
            return Some(res[i]);
        }
        i += 1;
    }
    None
}

pub open spec fn first_of(ids: Seq<u32>) -> Option<u32> {
    if ids.len() > 0 {
        Some(ids[0])
    } else {
        None
    }
}

/// The modes an output offers.
pub fn output_modes(ids: &[u32], res: &[ModeInfo]) -> (r: Vec<ModeEntry>)
    ensures
        r@ == modes_spec(ids@, res@, first_of(ids@)),
{
    let first: Option<u32> = if ids.len() > 0 {
        Some(ids[0])
    } else {
        None
    };
    let mut out: Vec<ModeEntry> = Vec::new();
    let mut i: usize = 0;
    while i < ids.len()
        invariant
            0 <= i <= ids@.len(),
            first == first_of(ids@),
            out@ == modes_spec(ids@.take(i as int), res@, first),
        decreases ids@.len() - i,
    {
        assert(ids@.take(i as int + 1).drop_last() =~= ids@.take(i as int));
        match lookup_mode(res, ids[i]) {
            Some(m) => {
                let preferred = match first {
                    Some(f) => f == m.id,
                    None => false,
                };
                out.push(ModeEntry {
                    id: m.id as u64,
                    width: m.width as i32,
                    height: m.height as i32,
                    refresh_millihz: refresh_millihz(m),
                    preferred,
                });
            },
            None => {},
        }
        i += 1;
    }
    assert(ids@.take(ids@.len() as int) =~= ids@);
    out
}

/// The first offered mode whose resolution is the root window's.
pub open spec fn root_sized_mode(modes: Seq<ModeEntry>, w: int, h: int) -> Option<ModeEntry>
    decreases modes.len(),
{
    if modes.len() == 0 {
        None
    } else if modes[0].width == w && modes[0].height == h {
        Some(modes[0])
    } else {
        root_sized_mode(modes.drop_first(), w, h)
    }
}

pub open spec fn root_rect(root_w: u16, root_h: u16) -> DesktopRect {
    DesktopRect { x: 0, y: 0, width: root_w as i32, height: root_h as i32 }
}

/// Where an output shows and in which mode: its CRTC when it has one;
/// otherwise the root window when a mode of the root's size is offered
/// (and the root is not empty), else nothing. A geometry that comes out
/// empty is replaced by the root window when the root is not empty.
pub open spec fn placement_spec(crtc: Option<CrtcReading>, modes: Seq<ModeEntry>, root_w: u16, root_h: u16) -> (DesktopRect, u64) {
    let root_valid = root_w > 0 && root_h > 0;
    let (g, mode) = match crtc {
        Some(c) => (DesktopRect { x: c.x as i32, y: c.y as i32, width: c.width as i32, height: c.height as i32 }, c.mode as u64),
        None => match root_sized_mode(modes, root_w as int, root_h as int) {
            Some(m) => if root_valid {
                (root_rect(root_w, root_h), m.id)
            } else {
                (DesktopRect { x: 0, y: 0, width: 0, height: 0 }, 0u64)
            },
            None => (DesktopRect { x: 0, y: 0, width: 0, height: 0 }, 0u64),
        },
    };
    if !g.valid() && root_valid {
        (root_rect(root_w, root_h), mode)
    } else {
        (g, mode)
    }
}

fn find_root_sized(modes: &Vec<ModeEntry>, w: i32, h: i32) -> (r: Option<ModeEntry>)
    ensures
        r == root_sized_mode(modes@, w as int, h as int),
{
    let mut i: usize = 0;
    assert(modes@.subrange(0, modes@.len() as int) =~= modes@);
    while i < modes.len()
        invariant
            0 <= i <= modes@.len(),
            root_sized_mode(modes@.subrange(i as int, modes@.len() as int), w as int, h as int)
                == root_sized_mode(modes@, w as int, h as int),
        decreases modes@.len() - i,
    {
        let ghost rest = modes@.subrange(i as int, modes@.len() as int);
        assert(rest.drop_first() =~= modes@.subrange(i as int + 1, modes@.len() as int));
        assert(rest[0] == modes@[i as int]);
        if modes[i].width == w && modes[i].height == h {
            return Some(modes[i]);
        }
        i += 1;
    }
    None
}

pub fn output_placement(crtc: Option<CrtcReading>, modes: &Vec<ModeEntry>, root_w: u16, root_h: u16) -> (r: (DesktopRect, u64))
    ensures
        r == placement_spec(crtc, modes@, root_w, root_h),
{
    let root_valid = root_w > 0 && root_h > 0;
    let root = DesktopRect { x: 0, y: 0, width: root_w as i32, height: root_h as i32 };
    let empty = DesktopRect { x: 0, y: 0, width: 0, height: 0 };
    let (g, mode) = match crtc {
        Some(c) => (DesktopRect { x: c.x as i32, y: c.y as i32, width: c.width as i32, height: c.height as i32 }, c.mode as u64),
        None => match find_root_sized(modes, root_w as i32, root_h as i32) {
            Some(m) => if root_valid {
                (root, m.id)
            } else {
                (empty, 0u64)
            },
            None => (empty, 0u64),
        },
    };
    if !g.is_valid() && root_valid {
        (root, mode)
    } else {
        (g, mode)
    }
}

/// An output's report: named by its decoded name (as id and connector),
/// connected, not primary, placed as [`placement_spec`] says, at 100 %.
pub open spec fn output_info_ok(r: OutputInfo, rd: OutputReading, res: Seq<ModeInfo>, root_w: u16, root_h: u16) -> bool {
    let modes = modes_spec(rd.modes@, res, first_of(rd.modes@));
    let (g, mode) = placement_spec(rd.crtc, modes, root_w, root_h);
    &&& r.id@ == utf8_lossy(rd.name@)
    &&& r.connector@ == utf8_lossy(rd.name@)
    &&& r.edid_identity@ == Seq::<char>::empty()
    &&& r.connected
    &&& !r.primary
    &&& r.geometry == g
    &&& r.current_mode == mode
    &&& r.modes@ == modes
    &&& r.shell_scale_percent == 100
}

pub fn output_info(rd: &OutputReading, res: &[ModeInfo], root_w: u16, root_h: u16) -> (r: OutputInfo)
    ensures
        output_info_ok(r, *rd, res@, root_w, root_h),
{
    let modes = output_modes(rd.modes.as_slice(), res);
    let (geometry, current_mode) = output_placement(rd.crtc, &modes, root_w, root_h);
    OutputInfo {
        id: decode_text(rd.name.as_slice()),
        connector: decode_text(rd.name.as_slice()),
        edid_identity: String::new(),
        connected: true,
        primary: false,
        geometry,
        current_mode,
        modes,
        shell_scale_percent: 100,
    }
}

/// The connected outputs, in order.
pub open spec fn connected_spec(rs: Seq<OutputReading>) -> Seq<OutputReading>
    decreases rs.len(),
{
    if rs.len() == 0 {
        Seq::empty()
    } else {
        let prev = connected_spec(rs.drop_last());
        if rs.last().connected {
            prev.push(rs.last())
        } else {
            prev
        }
    }
}

/// The default output stands in when RandR reports none connected: the
/// whole root window, primary.
pub open spec fn default_output_ok(r: OutputInfo, root_w: u16, root_h: u16) -> bool {
    &&& r.id@ == "default"@
    &&& r.connector@ == "default"@
    &&& r.edid_identity@ == Seq::<char>::empty()
    &&& r.connected
    &&& r.primary
    &&& r.geometry == root_rect(root_w, root_h)
    &&& r.current_mode == 0
    &&& r.modes@ == Seq::<ModeEntry>::empty()
    &&& r.shell_scale_percent == 100
}

/// The display report: one output per connected output, each as
/// [`output_info_ok`] says; with none connected, the default output when
/// the root window is not empty, else none. The generation is the
/// resources' configuration timestamp.
pub open spec fn display_ok(r: DisplayInfo, stamp: u32, rs: Seq<OutputReading>, res: Seq<ModeInfo>, root_w: u16, root_h: u16) -> bool {
    let conn = connected_spec(rs);
    &&& r.generation == stamp as u64
    &&& if conn.len() > 0 {
        &&& r.outputs@.len() == conn.len()
        &&& forall|i: int| 0 <= i < conn.len() ==> output_info_ok(#[trigger] r.outputs@[i], conn[i], res, root_w, root_h)
    } else if root_w > 0 && root_h > 0 {
        &&& r.outputs@.len() == 1
        &&& default_output_ok(r.outputs@[0], root_w, root_h)
    } else {
        r.outputs@.len() == 0
    }
}

pub fn display_snapshot(stamp: u32, readings: &[OutputReading], res: &[ModeInfo], root_w: u16, root_h: u16) -> (r: DisplayInfo)
    ensures
        display_ok(r, stamp, readings@, res@, root_w, root_h),
{
    let mut outputs: Vec<OutputInfo> = Vec::new();
    let mut i: usize = 0;
    while i < readings.len()
        invariant
            0 <= i <= readings@.len(),
            outputs@.len() == connected_spec(readings@.take(i as int)).len(),
            forall|j: int| 0 <= j < outputs@.len() ==> output_info_ok(#[trigger] outputs@[j], connected_spec(readings@.take(i as int))[j], res@, root_w, root_h),
        decreases readings@.len() - i,
    {
        assert(readings@.take(i as int + 1).drop_last() =~= readings@.take(i as int));
        assert(readings@.take(i as int + 1).last() == readings@[i as int]);
        if readings[i].connected {
            let info = output_info(&readings[i], res, root_w, root_h);
            outputs.push(info);
        }
        i += 1;
    }
    assert(readings@.take(readings@.len() as int) =~= readings@);
    if outputs.len() == 0 && root_w > 0 && root_h > 0 {
        proof {
            reveal_strlit("default");
        }
        outputs.push(OutputInfo {
            id: String::from_str("default"),
            connector: String::from_str("default"),
            edid_identity: String::new(),
            connected: true,
            primary: true,
            geometry: DesktopRect { x: 0, y: 0, width: root_w as i32, height: root_h as i32 },
            current_mode: 0,
            modes: Vec::new(),
            shell_scale_percent: 100,
        });
    }
    DisplayInfo { generation: stamp as u64, outputs }
}

} // verus!
