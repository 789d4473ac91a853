//! Window identity: the `WM_CLASS` instance/class pair and the icon
//! fallback diagnostic built from it.

use vstd::prelude::*;
use crate::decoration::manager::fallback_line;

verus! {

/// What `String::from_utf8_lossy` makes of a byte string: the decoded
/// text, each invalid sequence replaced by U+FFFD.
pub uninterp spec fn utf8_lossy(bytes: Seq<u8>) -> Seq<char>;

/// Decode bytes as UTF-8, replacing invalid sequences
/// (`String::from_utf8_lossy`). The result is named, not spelled out: it
/// depends on the bytes alone.
#[verifier::external_body]
pub(crate) fn decode_text(bytes: &[u8]) -> (r: String)
    ensures
        r@ == utf8_lossy(bytes@),
{
    String::from_utf8_lossy(bytes).into_owned()
}

/// Position of the first NUL at or after `from`, or the length.
pub open spec fn nul_from(raw: Seq<u8>, from: int) -> int
    decreases raw.len() - from,
{
    if from >= raw.len() {
        raw.len() as int
    } else if raw[from] == 0 {
        from
    } else {
        nul_from(raw, from + 1)
    }
}

fn find_nul(raw: &[u8], from: usize) -> (r: usize)
    requires
        from <= raw@.len(),
    ensures
        r == nul_from(raw@, from as int),
        from <= r <= raw@.len(),
{
    let mut i = from;
    while i < raw.len() && raw[i] != 0
        invariant
            from <= i <= raw@.len(),
            nul_from(raw@, i as int) == nul_from(raw@, from as int),
        decreases raw@.len() - i,
    {
        i += 1;
    }
    i
}

fn copy_range(raw: &[u8], start: usize, end: usize) -> (r: Vec<u8>)
    requires
        start <= end <= raw@.len(),
    ensures
        r@ == raw@.subrange(start as int, end as int),
{
    let mut out: Vec<u8> = Vec::new();
    let mut i = start;
    while i < end
        invariant
            start <= i <= end <= raw@.len(),
            out@ == raw@.subrange(start as int, i as int),
        decreases end - i,
    {
        out.push(raw[i]);
        proof {
            assert(raw@.subrange(start as int, i as int + 1) =~= raw@.subrange(start as int, i as int).push(
                raw@[i as int],
            ));
        }
        i += 1;
    }
    out
}

/// The instance token (before the first NUL) and the class token (up to
/// the next NUL) of a raw `WM_CLASS` value; a missing token is empty and
/// trailing bytes are ignored.
pub open spec fn class_tokens(raw: Seq<u8>) -> (Seq<u8>, Seq<u8>) {
    let a = nul_from(raw, 0);
    if a >= raw.len() {
        (raw, Seq::empty())
    } else {
        (raw.subrange(0, a), raw.subrange(a + 1, nul_from(raw, a + 1)))
    }
}

/// Split a raw `WM_CLASS` property (instance and class, NUL-separated)
/// into decoded `(instance, class)`.
pub fn parse_wm_class(raw: &[u8]) -> (r: (String, String))
    ensures
        r.0@ == utf8_lossy(class_tokens(raw@).0),
        r.1@ == utf8_lossy(class_tokens(raw@).1),
{
    let a = find_nul(raw, 0);
    if a >= raw.len() {
        assert(raw@.subrange(0, raw@.len() as int) =~= raw@);
        let whole = copy_range(raw, 0, raw.len());
        let none: Vec<u8> = Vec::new();
        return (decode_text(whole.as_slice()), decode_text(none.as_slice()));
    }
    let b = find_nul(raw, a + 1);
    let instance = copy_range(raw, 0, a);
    let class = copy_range(raw, a + 1, b);
    (decode_text(instance.as_slice()), decode_text(class.as_slice()))
}

/// The icon fallback diagnostic for a window named by its `WM_CLASS`
/// pair: the pair is joined with a NUL, so the class field is never
/// empty.
pub fn icon_fallback_reason_with(wm_instance: &str, wm_class: &str, reason: &str) -> (r: String)
    ensures
        r@ == fallback_line(wm_instance@ + "\0"@ + wm_class@, reason@),
{
    proof {
        reveal_strlit("\0");
    }
    let mut class = String::from_str(wm_instance);
    class.append("\0");
    class.append(wm_class);
    let mut out = String::from_str("icon-fallback wm_class=");
    assert(class@.len() > 0);
    out.append(class.as_str());
    out.append(" reason=");
    out.append(reason);
    out
}

} // verus!
