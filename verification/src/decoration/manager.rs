//! Decoration diagnostics shared by the frame owner.

use vstd::prelude::*;

verus! {

/// The diagnostic line recorded when the icon slot falls back past the
/// application catalog: `icon-fallback wm_class=<class> reason=<reason>`,
/// with `unknown` in place of an empty class.
pub open spec fn fallback_line(wm_class: Seq<char>, reason: Seq<char>) -> Seq<char> {
    "icon-fallback wm_class="@ + (if wm_class.len() == 0 { "unknown"@ } else { wm_class })
        + " reason="@ + reason
}

/// Debug reason when the icon slot falls back past the catalog.
pub fn icon_fallback_reason(wm_class: &str, reason: &str) -> (r: String)
    ensures
        r@ == fallback_line(wm_class@, reason@),
{
    let mut out = String::from_str("icon-fallback wm_class=");
    if wm_class.unicode_len() == 0 {
        out.append("unknown");
    } else {
        out.append(wm_class);
    }
    out.append(" reason=");
    out.append(reason);
    out
}

} // verus!
