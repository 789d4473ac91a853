//! Client properties as read from the server: the title, the transient
//! owner and the size hints, interpreted from their raw values.

use vstd::prelude::*;
use crate::size_hints::{ClientSizeHints, free_hints, parse_hints};
use crate::wm::identity::{decode_text, utf8_lossy};

verus! {

/// A byte string with leading and trailing NUL bytes removed.
pub open spec fn trim_nul(b: Seq<u8>) -> Seq<u8> {
    let start = first_non_nul(b, 0);
    let end = last_non_nul_end(b, b.len() as int);
    if start < end {
        b.subrange(start, end)
    } else {
        Seq::empty()
    }
}

/// Index of the first non-NUL byte at or after `i` (the length if none).
pub open spec fn first_non_nul(b: Seq<u8>, i: int) -> int
    decreases b.len() - i,
{
    if i >= b.len() {
        b.len() as int
    } else if b[i] != 0 {
        i
    } else {
        first_non_nul(b, i + 1)
    }
}

/// One past the last non-NUL byte before `end` (0 if none).
pub open spec fn last_non_nul_end(b: Seq<u8>, end: int) -> int
    decreases end,
{
    if end <= 0 {
        0
    } else if b[end - 1] != 0 {
        end
    } else {
        last_non_nul_end(b, end - 1)
    }
}

proof fn lemma_trim_bounds(b: Seq<u8>, i: int, end: int)
    requires
        0 <= i <= b.len(),
        0 <= end <= b.len(),
    ensures
        i <= first_non_nul(b, i) <= b.len(),
        0 <= last_non_nul_end(b, end) <= end,
        first_non_nul(b, i) < b.len() ==> b[first_non_nul(b, i)] != 0,
    decreases b.len() - i + end,
{
    if i < b.len() && b[i] == 0 {
        lemma_trim_bounds(b, i + 1, end);
    }
    if end > 0 && b[end - 1] == 0 {
        lemma_trim_bounds(b, i, end - 1);
    }
}

proof fn lemma_last_after_first(b: Seq<u8>, i: int, end: int)
    requires
        0 <= i < end <= b.len(),
        b[i] != 0,
    ensures
        i < last_non_nul_end(b, end),
    decreases end,
{
    if b[end - 1] == 0 {
        lemma_last_after_first(b, i, end - 1);
    }
}

/// Copy of `bytes` without leading and trailing NUL bytes.
fn trim_nul_bytes(bytes: &[u8]) -> (r: Vec<u8>)
    ensures
        r@ == trim_nul(bytes@),
{
    let n = bytes.len();
    let mut start: usize = 0;
    while start < n && bytes[start] == 0
        invariant
            start <= n == bytes@.len(),
            first_non_nul(bytes@, start as int) == first_non_nul(bytes@, 0),
        decreases n - start,
    {
        start += 1;
    }
    let mut end: usize = n;
    while end > 0 && bytes[end - 1] == 0
        invariant
            end <= n == bytes@.len(),
            last_non_nul_end(bytes@, end as int) == last_non_nul_end(bytes@, n as int),
        decreases end,
    {
        end -= 1;
    }
    proof {
        lemma_trim_bounds(bytes@, 0, n as int);
        if start < n {
            lemma_last_after_first(bytes@, start as int, n as int);
        }
    }
    let mut out: Vec<u8> = Vec::new();
    if start < end {
        let mut i = start;
        while i < end
            invariant
                start <= i <= end <= n == bytes@.len(),
                out@ == bytes@.subrange(start as int, i as int),
            decreases end - i,
        {
            out.push(bytes[i]);
            proof {
                assert(bytes@.subrange(start as int, i as int + 1) =~= bytes@.subrange(
                    start as int,
                    i as int,
                ).push(bytes@[i as int]));
            }
            i += 1;
        }
    }
    out
}

/// The window title: `_NET_WM_NAME` when set, else `WM_NAME`, decoded as
/// UTF-8 (invalid sequences replaced) with surrounding NULs removed.
pub fn title_from_properties(net_wm_name: &[u8], wm_name: &[u8]) -> (r: String)
    ensures
        r@ == utf8_lossy(trim_nul(if net_wm_name@.len() > 0 { net_wm_name@ } else { wm_name@ })),
{
    let raw = if net_wm_name.len() > 0 { net_wm_name } else { wm_name };
    let trimmed = trim_nul_bytes(raw);
    decode_text(trimmed.as_slice())
}

/// A `WM_CLASS` value read as one string, surrounding NULs removed.
pub fn class_string(raw: &[u8]) -> (r: String)
    ensures
        r@ == utf8_lossy(trim_nul(raw@)),
{
    let trimmed = trim_nul_bytes(raw);
    decode_text(trimmed.as_slice())
}

/// The transient owner: the first word of `WM_TRANSIENT_FOR`, unless it
/// is absent or zero.
pub fn transient_owner(values: &[u32]) -> (r: Option<u32>)
    ensures
        r == (if values@.len() > 0 && values@[0] != 0 { Some(values@[0]) } else { None::<u32> }),
{
    if values.len() > 0 && values[0] != 0 {
        Some(values[0])
    } else {
        None
    }
}

/// Size hints from a `WM_NORMAL_HINTS` read: the parsed value, or the
/// hint-free value when the property could not be read.
pub fn hints_from_property(values: Option<&[u32]>) -> (r: ClientSizeHints)
    ensures
        r == (match values {
            Some(v) => parse_hints(v@),
            None => free_hints(),
        }),
{
    match values {
        Some(v) => ClientSizeHints::parse(v),
        None => ClientSizeHints::default(),
    }
}

} // verus!
