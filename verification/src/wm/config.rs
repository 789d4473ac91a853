//! Window manager settings: defaults, and overrides given as decimal
//! text, each clamped into its range.

use vstd::prelude::*;

verus! {

/// Window manager settings.
#[derive(Debug, Clone, Copy, PartialEq, Eq, Structural, Hash)]
pub struct WmConfig {
    pub titlebar_height: u16,
    pub frame_border: u16,
    pub panel_reserve: u16,
    pub snap_zone: i32,
    pub workspaces: usize,
}

/// The defaults: the frame layout's 31-pixel title bar, a 1-pixel border,
/// no panel reserve, a 24-pixel snap zone, four workspaces.
pub open spec fn default_config() -> WmConfig {
    WmConfig { titlebar_height: 31, frame_border: 1, panel_reserve: 0, snap_zone: 24, workspaces: 4 }
}

impl Default for WmConfig {
    fn default() -> (r: Self)
        ensures
            r == default_config(),
    {
        WmConfig { titlebar_height: 31, frame_border: 1, panel_reserve: 0, snap_zone: 24, workspaces: 4 }
    }
}

pub open spec fn is_digit(c: char) -> bool {
    '0' <= c && c <= '9'
}

/// The value of a string of decimal digits.
pub open spec fn decimal_value(d: Seq<char>) -> int
    decreases d.len(),
{
    if d.len() == 0 {
        0
    } else {
        decimal_value(d.drop_last()) * 10 + (d.last() as int - '0' as int)
    }
}

/// The digits of a `u16` literal: the text after an optional `+`.
pub open spec fn digits_of(s: Seq<char>) -> Seq<char> {
    if s.len() > 0 && s[0] == '+' {
        s.drop_first()
    } else {
        s
    }
}

/// What `str::parse::<u16>` accepts: an optional `+`, then at least one
/// decimal digit and nothing else, of value at most 65535.
pub open spec fn parse_u16_spec(s: Seq<char>) -> Option<u16> {
    let d = digits_of(s);
    if d.len() > 0 && (forall|i: int| 0 <= i < d.len() ==> is_digit(#[trigger] d[i])) && decimal_value(d)
        <= u16::MAX {
        Some(decimal_value(d) as u16)
    } else {
        None
    }
}

proof fn lemma_decimal_nonneg(d: Seq<char>)
    requires
        forall|i: int| 0 <= i < d.len() ==> is_digit(#[trigger] d[i]),
    ensures
        decimal_value(d) >= 0,
    decreases d.len(),
{
    if d.len() > 0 {
        assert forall|i: int| 0 <= i < d.drop_last().len() implies is_digit(#[trigger] d.drop_last()[i]) by {
            assert(d.drop_last()[i] == d[i]);
        }
        lemma_decimal_nonneg(d.drop_last());
        assert(is_digit(d[d.len() - 1]));
    }
}

/// Parse a `u16` as `str::parse` does.
pub fn parse_u16(s: &str) -> (r: Option<u16>)
    ensures
        r == parse_u16_spec(s@),
{
    let n = s.unicode_len();
    let start: usize = if n > 0 && s.get_char(0) == '+' {
        1
    } else {
        0
    };
    let ghost d = digits_of(s@);
    assert(d =~= s@.subrange(start as int, n as int));
    if start >= n {
        return None;
    }
    // The value so far, capped at 65536.
    let mut acc: u32 = 0;
    let mut i = start;
    while i < n
        invariant
            start <= i <= n,
            n == s@.len(),
            d =~= s@.subrange(start as int, n as int),
            d == digits_of(s@),
            forall|k: int| 0 <= k < i - start ==> is_digit(#[trigger] d[k]),
            acc as int == if decimal_value(d.take(i - start)) < 65536 {
                decimal_value(d.take(i - start))
            } else {
                65536
            },
        decreases n - i,
    {
        let c = s.get_char(i);
        if !('0' <= c && c <= '9') {
            proof {
                let k = i - start;
                assert(d[k] == s@[i as int]);
                assert(!is_digit(d[k]));
                assert(!(forall|j: int| 0 <= j < d.len() ==> is_digit(#[trigger] d[j])));
            }
            return None;
        }
        let digit = (c as u32) - ('0' as u32);
        let ghost k = i - start;
        proof {
            assert(d.take(k + 1).drop_last() =~= d.take(k));
            assert(d.take(k + 1).last() == c);
            assert forall|j: int| 0 <= j < d.take(k).len() implies is_digit(#[trigger] d.take(k)[j]) by {
                assert(d.take(k)[j] == d[j]);
            }
            lemma_decimal_nonneg(d.take(k));
        }
        acc = if acc * 10 + digit >= 65536 {
            65536
        } else {
            acc * 10 + digit
        };
        i += 1;
    }
    assert(d.take(n - start) =~= d);
    if acc > 65535 {
        None
    } else {
        Some(acc as u16)
    }
}

/// An override: the parsed value clamped into `[min, max]`, or the
/// default when the text is absent or not a `u16`.
pub open spec fn override_spec(text: Option<Seq<char>>, default: u16, min: u16, max: u16) -> u16 {
    match text {
        Some(t) => match parse_u16_spec(t) {
            Some(v) => if v < min {
                min
            } else if v > max {
                max
            } else {
                v
            },
            None => default,
        },
        None => default,
    }
}

pub open spec fn text_view(t: Option<&str>) -> Option<Seq<char>> {
    match t {
        Some(s) => Some(s@),
        None => None,
    }
}

pub fn setting_u16(text: Option<&str>, default: u16, min: u16, max: u16) -> (r: u16)
    requires
        min <= max,
    ensures
        r == override_spec(text_view(text), default, min, max),
{
    match text {
        Some(t) => match parse_u16(t) {
            Some(v) => if v < min {
                min
            } else if v > max {
                max
            } else {
                v
            },
            None => default,
        },
        None => default,
    }
}

impl WmConfig {
    /// The defaults with overrides for the title bar height (20..=72),
    /// the panel reserve (0..=256), the snap zone (4..=128) and the
    /// workspace count (1..=18).
    pub fn from_settings(
        titlebar_height: Option<&str>,
        panel_reserve: Option<&str>,
        snap_zone: Option<&str>,
        workspaces: Option<&str>,
    ) -> (r: Self)
        ensures
            r == (WmConfig {
                titlebar_height: override_spec(text_view(titlebar_height), 31, 20, 72),
                frame_border: 1,
                panel_reserve: override_spec(text_view(panel_reserve), 0, 0, 256),
                snap_zone: override_spec(text_view(snap_zone), 24, 4, 128) as i32,
                workspaces: override_spec(text_view(workspaces), 4, 1, 18) as usize,
            }),
    {
        let mut config = WmConfig::default();
        config.titlebar_height = setting_u16(titlebar_height, config.titlebar_height, 20, 72);
        config.panel_reserve = setting_u16(panel_reserve, config.panel_reserve, 0, 256);
        config.snap_zone = setting_u16(snap_zone, 24, 4, 128) as i32;
        config.workspaces = setting_u16(workspaces, 4, 1, 18) as usize;
        config
    }
}

} // verus!
