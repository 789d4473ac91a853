//! The workspace service: the topology read from the root window's EWMH
//! properties, and the checks before a switch or a move.

use vstd::prelude::*;
use crate::desktop::error::DesktopError;
use crate::wm::identity::{decode_text, utf8_lossy};

verus! {

/// The workspace topology as the desktop reports it.
#[derive(Debug, Clone, PartialEq, Eq)]
pub struct WorkspaceInfo {
    pub revision: u64,
    pub count: usize,
    pub active_index: usize,
    pub last_index: Option<usize>,
    pub names: Vec<String>,
}

/// The non-empty NUL-separated pieces of `_NET_DESKTOP_NAMES`, in order:
/// scanning from `i`, the current piece starting at `start`.
pub open spec fn pieces_scan(bytes: Seq<u8>, start: int, i: int) -> Seq<Seq<u8>>
    decreases bytes.len() - i,
{
    if i >= bytes.len() {
        if start < bytes.len() {
            seq![bytes.subrange(start, bytes.len() as int)]
        } else {
            Seq::empty()
        }
    } else if bytes[i] == 0 {
        let rest = pieces_scan(bytes, i + 1, i + 1);
        if start < i {
            seq![bytes.subrange(start, i)] + rest
        } else {
            rest
        }
    } else {
        pieces_scan(bytes, start, i + 1)
    }
}

pub open spec fn name_views(v: Seq<String>) -> Seq<Seq<char>> {
    Seq::new(v.len(), |i: int| v[i]@)
}

pub open spec fn decoded(p: Seq<Seq<u8>>) -> Seq<Seq<char>> {
    Seq::new(p.len(), |i: int| utf8_lossy(p[i]))
}

fn copy_piece(bytes: &[u8], start: usize, end: usize) -> (r: Vec<u8>)
    requires
        start <= end <= bytes@.len(),
    ensures
        r@ == bytes@.subrange(start as int, end as int),
{
    let mut out: Vec<u8> = Vec::new();
    let mut i = start;
    while i < end
        invariant
            start <= i <= end <= bytes@.len(),
            out@ == bytes@.subrange(start as int, i as int),
        decreases end - i,
    {
        out.push(bytes[i]);
        assert(bytes@.subrange(start as int, i as int + 1) =~= bytes@.subrange(start as int, i as int).push(bytes@[i as int]));
        i += 1;
    }
    out
}

/// The workspace names: each non-empty NUL-separated piece, decoded.
pub fn desktop_names(bytes: &[u8]) -> (r: Vec<String>)
    ensures
        name_views(r@) == decoded(pieces_scan(bytes@, 0, 0)),
{
    let n = bytes.len();
    let mut out: Vec<String> = Vec::new();
    let mut start: usize = 0;
    let mut i: usize = 0;
    while i < n
        invariant
            n == bytes@.len(),
            start <= i <= n,
            name_views(out@) + decoded(pieces_scan(bytes@, start as int, i as int)) == decoded(pieces_scan(bytes@, 0, 0)),
        decreases n - i,
    {
        if bytes[i] == 0 {
            let ghost before = out@;
            let ghost rest = pieces_scan(bytes@, i as int + 1, i as int + 1);
            if start < i {
                let piece = copy_piece(bytes, start, i);
                out.push(decode_text(piece.as_slice()));
                assert(decoded(seq![bytes@.subrange(start as int, i as int)] + rest) =~= seq![utf8_lossy(bytes@.subrange(start as int, i as int))] + decoded(rest));
                assert(name_views(out@) =~= name_views(before) + seq![utf8_lossy(bytes@.subrange(start as int, i as int))]);
            }
            assert(name_views(out@) + decoded(rest) =~= name_views(before) + decoded(pieces_scan(bytes@, start as int, i as int)));
            start = i + 1;
        }
        i += 1;
    }
    let ghost before = out@;
    if start < n {
        let piece = copy_piece(bytes, start, n);
        out.push(decode_text(piece.as_slice()));
        assert(name_views(out@) =~= name_views(before) + decoded(pieces_scan(bytes@, start as int, n as int)));
    } else {
        assert(name_views(out@) =~= name_views(before) + decoded(pieces_scan(bytes@, start as int, n as int)));
    }
    out
}

/// The topology read from `_NET_NUMBER_OF_DESKTOPS` (default 1, at least
/// 1), `_NET_CURRENT_DESKTOP` (default 0, clamped into range) and the
/// names; revision 0, no previous workspace.
pub open spec fn workspace_info_ok(r: WorkspaceInfo, count: Option<u32>, current: Option<u32>, names: Seq<u8>) -> bool {
    let c: int = match count {
        Some(v) => if v == 0 { 1 } else { v as int },
        None => 1,
    };
    let a: int = match current {
        Some(v) => v as int,
        None => 0,
    };
    &&& r.revision == 0
    &&& r.count == c
    &&& r.active_index == (if a < c - 1 { a } else { c - 1 })
    &&& r.last_index is None
    &&& name_views(r.names@) == decoded(pieces_scan(names, 0, 0))
}

pub fn workspace_snapshot(count: Option<u32>, current: Option<u32>, names: &[u8]) -> (r: WorkspaceInfo)
    ensures
        workspace_info_ok(r, count, current, names@),
{
    let c: usize = match count {
        Some(v) => if v == 0 {
            1
        } else {
            v as usize
        },
        None => 1,
    };
    let a: usize = match current {
        Some(v) => v as usize,
        None => 0,
    };
    WorkspaceInfo {
        revision: 0,
        count: c,
        active_index: if a < c - 1 {
            a
        } else {
            c - 1
        },
        last_index: None,
        names: desktop_names(names),
    }
}

/// Switching to workspace `index`: refused when the revision moved on or
/// the index is out of range; otherwise the `_NET_CURRENT_DESKTOP`
/// message words (index, current time).
pub fn activate_workspace_request(index: usize, expected_revision: u64, current: &WorkspaceInfo) -> (r: Result<[u32; 5], DesktopError>)
    ensures
        r == (if expected_revision != current.revision {
            Err(DesktopError::WorkspaceRevisionChanged)
        } else if index >= current.count {
            Err(DesktopError::WorkspaceOutOfRange)
        } else {
            Ok([index as u32, 0u32, 0u32, 0u32, 0u32])
        }),
{
    if expected_revision != current.revision {
        return Err(DesktopError::WorkspaceRevisionChanged);
    }
    if index >= current.count {
        return Err(DesktopError::WorkspaceOutOfRange);
    }
    Ok([index as u32, 0, 0, 0, 0])
}

/// Moving a window to workspace `target`: refused when out of range;
/// otherwise the `_NET_WM_DESKTOP` message words.
pub fn move_to_workspace_request(target: usize, current: &WorkspaceInfo) -> (r: Result<[u32; 5], DesktopError>)
    ensures
        r == (if target >= current.count {
            Err(DesktopError::WorkspaceOutOfRange)
        } else {
            Ok([target as u32, 0u32, 0u32, 0u32, 0u32])
        }),
{
    if target >= current.count {
        return Err(DesktopError::WorkspaceOutOfRange);
    }
    Ok([target as u32, 0, 0, 0, 0])
}

} // verus!
