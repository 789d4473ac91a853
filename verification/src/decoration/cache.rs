//! Decoration caches owned by the window manager: icon rasters and title
//! measures, each a bounded least-recently-used cache, plus the byte count
//! of native image pixmaps.
//!
//! Each cache is a vector of entries in recency order, the least recently
//! used first. A hit moves its entry to the back; inserting a new key into
//! a full cache drops the front entry first.

use vstd::prelude::*;
use crate::chrome::RgbaRaster;

verus! {

/// Title measures kept at most.
pub const TITLE_MEASURE_CACHE_CAPACITY: usize = 1024;

/// Icon rasters kept at most.
pub const ICON_RASTER_CACHE_CAPACITY: usize = 128;

// ---- recency-ordered entries, as mathematical sequences ----

/// No key occurs twice.
pub open spec fn keys_distinct<K, V>(s: Seq<(K, V)>) -> bool {
    forall|i: int, j: int| 0 <= i < s.len() && 0 <= j < s.len() && s[i].0 == s[j].0 ==> i == j
}

/// Some entry has key `k`.
pub open spec fn has_key<K, V>(s: Seq<(K, V)>, k: K) -> bool {
    exists|i: int| 0 <= i < s.len() && s[i].0 == k
}

/// The position of key `k` (meaningful when [`has_key`] holds).
pub open spec fn key_pos<K, V>(s: Seq<(K, V)>, k: K) -> int {
    choose|i: int| 0 <= i < s.len() && s[i].0 == k
}

/// The value stored under `k`, if any.
pub open spec fn lru_get<K, V>(s: Seq<(K, V)>, k: K) -> Option<V> {
    if has_key(s, k) {
        Some(s[key_pos(s, k)].1)
    } else {
        None
    }
}

/// Recency order after a lookup of `k`: a hit moves to the back, a miss
/// changes nothing.
pub open spec fn lru_touch<K, V>(s: Seq<(K, V)>, k: K) -> Seq<(K, V)> {
    if has_key(s, k) {
        let i = key_pos(s, k);
        s.remove(i).push(s[i])
    } else {
        s
    }
}

/// Entries after storing `v` under `k` with room for `cap` entries: an
/// existing key is replaced and moved to the back; a new key first drops
/// the least recently used entry when the cache is full.
pub open spec fn lru_put<K, V>(s: Seq<(K, V)>, k: K, v: V, cap: int) -> Seq<(K, V)> {
    if has_key(s, k) {
        s.remove(key_pos(s, k)).push((k, v))
    } else if s.len() >= cap && s.len() > 0 {
        s.drop_first().push((k, v))
    } else {
        s.push((k, v))
    }
}

/// A well-formed cache: distinct keys, never above capacity.
pub open spec fn lru_wf<K, V>(s: Seq<(K, V)>, cap: int) -> bool {
    keys_distinct(s) && s.len() <= cap
}

/// In a sequence with distinct keys, the entry found at `i` is the one at
/// [`key_pos`].
proof fn lemma_pos_unique<K, V>(s: Seq<(K, V)>, i: int)
    requires
        keys_distinct(s),
        0 <= i < s.len(),
    ensures
        has_key(s, s[i].0),
        key_pos(s, s[i].0) == i,
{
    let k = s[i].0;
    assert(0 <= i < s.len() && s[i].0 == k);
    let j = key_pos(s, k);
    assert(0 <= j < s.len() && s[j].0 == k);
}

/// Law: a well-formed cache stays well formed through lookups and inserts
/// (with a positive capacity).
pub proof fn lemma_lru_preserves_wf<K, V>(s: Seq<(K, V)>, k: K, v: V, cap: int)
    requires
        lru_wf(s, cap),
        cap > 0,
    ensures
        lru_wf(lru_touch(s, k), cap),
        lru_wf(lru_put(s, k, v, cap), cap),
        lru_touch(s, k).len() == s.len(),
{
    if has_key(s, k) {
        let i = key_pos(s, k);
        let t = s.remove(i);
        assert forall|a: int, b: int|
            0 <= a < t.len() + 1 && 0 <= b < t.len() + 1 && t.push(s[i])[a].0 == t.push(s[i])[b].0
            implies a == b by {
            let ia = if a < i { a } else if a < t.len() { a + 1 } else { i };
            let ib = if b < i { b } else if b < t.len() { b + 1 } else { i };
            assert(s[ia].0 == s[ib].0);
        }
        assert forall|a: int, b: int|
            0 <= a < t.len() + 1 && 0 <= b < t.len() + 1 && t.push((k, v))[a].0 == t.push(
                (k, v),
            )[b].0 implies a == b by {
            let ia = if a < i { a } else if a < t.len() { a + 1 } else { i };
            let ib = if b < i { b } else if b < t.len() { b + 1 } else { i };
            assert(s[ia].0 == s[ib].0);
        }
    } else if s.len() >= cap && s.len() > 0 {
        let t = s.drop_first();
        assert forall|a: int, b: int|
            0 <= a < t.len() + 1 && 0 <= b < t.len() + 1 && t.push((k, v))[a].0 == t.push(
                (k, v),
            )[b].0 implies a == b by {
            if a < t.len() && b < t.len() {
                assert(s[a + 1].0 == s[b + 1].0);
            } else if a < t.len() {
                assert(s[a + 1].0 == k);
            } else if b < t.len() {
                assert(s[b + 1].0 == k);
            }
        }
    } else {
        assert forall|a: int, b: int|
            0 <= a < s.len() + 1 && 0 <= b < s.len() + 1 && s.push((k, v))[a].0 == s.push(
                (k, v),
            )[b].0 implies a == b by {
            if a < s.len() && b == s.len() {
                assert(s[a].0 == k);
            } else if b < s.len() && a == s.len() {
                assert(s[b].0 == k);
            }
        }
    }
}

/// Law: a value just stored is what the next lookup of its key returns,
/// and it is the most recently used entry.
pub proof fn lemma_lru_put_then_get<K, V>(s: Seq<(K, V)>, k: K, v: V, cap: int)
    requires
        lru_wf(s, cap),
        cap > 0,
    ensures
        lru_get(lru_put(s, k, v, cap), k) == Some(v),
        lru_put(s, k, v, cap).last() == (k, v),
{
    lemma_lru_preserves_wf(s, k, v, cap);
    let t = lru_put(s, k, v, cap);
    lemma_pos_unique(t, t.len() - 1);
}

/// Law: inserting a new key into a full cache evicts exactly the least
/// recently used entry; every other entry keeps its value and order.
pub proof fn lemma_lru_put_evicts_oldest<K, V>(s: Seq<(K, V)>, k: K, v: V, cap: int)
    requires
        lru_wf(s, cap),
        cap > 0,
        !has_key(s, k),
        s.len() == cap,
    ensures
        !has_key(lru_put(s, k, v, cap), s[0].0),
        lru_put(s, k, v, cap) == s.subrange(1, s.len() as int).push((k, v)),
{
    let t = lru_put(s, k, v, cap);
    if has_key(t, s[0].0) {
        let j = choose|j: int| 0 <= j < t.len() && t[j].0 == s[0].0;
        if j < t.len() - 1 {
            assert(s[j + 1].0 == s[0].0);
        }
    }
}

/// Law: a lookup never changes what is stored, only the recency order.
pub proof fn lemma_lru_touch_keeps_contents<K, V>(s: Seq<(K, V)>, k: K, q: K)
    requires
        keys_distinct(s),
    ensures
        lru_get(lru_touch(s, k), q) == lru_get(s, q),
{
    if has_key(s, k) {
        let i = key_pos(s, k);
        let t = lru_touch(s, k);
        lemma_lru_preserves_wf(s, k, s[i].1, s.len() as int + 1);
        if has_key(s, q) {
            let p = key_pos(s, q);
            let jp = if p < i { p } else if p == i { t.len() - 1 } else { p - 1 };
            assert(t[jp] == s[p]);
            lemma_pos_unique(t, jp);
        }
        if has_key(t, q) {
            let jq = key_pos(t, q);
            let ip = if jq < i { jq } else if jq < t.len() - 1 { jq + 1 } else { i };
            assert(s[ip].0 == q);
        }
    }
}

// ---- the cache ----

/// Icon raster entries keyed by icon name, in recency order.
pub open spec fn icon_view(v: Seq<(String, RgbaRaster)>) -> Seq<(Seq<char>, RgbaRaster)> {
    v.map_values(|e: (String, RgbaRaster)| (e.0@, e.1))
}

/// Title measure entries keyed by `(title, size bits)`, in recency order.
pub open spec fn title_view(v: Seq<(String, u32, i32)>) -> Seq<((Seq<char>, u32), i32)> {
    v.map_values(|e: (String, u32, i32)| ((e.0@, e.1), e.2))
}

/// Window-manager-owned decoration caches.
#[derive(Debug)]
pub struct DecorationCache {
    icon_rasters: Vec<(String, RgbaRaster)>,
    title_measures: Vec<(String, u32, i32)>,
    image_cache_bytes: usize,
}

/// Move entry `i` to the back (most recently used).
fn touch<T>(order: &mut Vec<T>, i: usize)
    requires
        i < old(order)@.len(),
    ensures
        final(order)@ == old(order)@.remove(i as int).push(old(order)@[i as int]),
{
    let entry = order.remove(i);
    order.push(entry);
}

/// Drop the least recently used entry when the cache holds `capacity` or
/// more entries.
fn evict_oldest<T>(entries: &mut Vec<T>, capacity: usize)
    ensures
        final(entries)@ == (if old(entries)@.len() >= capacity && old(entries)@.len() > 0 {
            old(entries)@.drop_first()
        } else {
            old(entries)@
        }),
{
    if entries.len() < capacity {
        return;
    }
    if entries.len() > 0 {
        entries.remove(0);
        assert(old(entries)@.remove(0) =~= old(entries)@.drop_first());
    }
}

/// Position of the icon entry named `key`.
fn find_icon(entries: &Vec<(String, RgbaRaster)>, key: &String) -> (r: Option<usize>)
    ensures
        r is Some <==> has_key(icon_view(entries@), key@),
        r matches Some(i) ==> i < entries@.len() && entries@[i as int].0@ == key@,
{
    let mut i: usize = 0;
    while i < entries.len()
        invariant
            i <= entries@.len(),
            forall|j: int| 0 <= j < i ==> entries@[j].0@ != key@,
        decreases entries@.len() - i,
    {
        if entries[i].0 == *key {
            proof {
                assert(icon_view(entries@)[i as int].0 == key@);
            }
            return Some(i);
        }
        i += 1;
    }
    proof {
        if has_key(icon_view(entries@), key@) {
            let j = choose|j: int| 0 <= j < entries@.len() && icon_view(entries@)[j].0 == key@;
            assert(entries@[j].0@ == key@);
        }
    }
    None
}

/// Position of the title entry for `(title, size_bits)`.
fn find_title(entries: &Vec<(String, u32, i32)>, title: &String, size_bits: u32) -> (r: Option<
    usize,
>)
    ensures
        r is Some <==> has_key(title_view(entries@), (title@, size_bits)),
        r matches Some(i) ==> i < entries@.len() && entries@[i as int].0@ == title@
            && entries@[i as int].1 == size_bits,
{
    let mut i: usize = 0;
    while i < entries.len()
        invariant
            i <= entries@.len(),
            forall|j: int|
                0 <= j < i ==> !(entries@[j].0@ == title@ && entries@[j].1 == size_bits),
        decreases entries@.len() - i,
    {
        if entries[i].1 == size_bits && entries[i].0 == *title {
            proof {
                assert(title_view(entries@)[i as int].0 == (title@, size_bits));
            }
            return Some(i);
        }
        i += 1;
    }
    proof {
        if has_key(title_view(entries@), (title@, size_bits)) {
            let j = choose|j: int|
                0 <= j < entries@.len() && title_view(entries@)[j].0 == (title@, size_bits);
            assert(entries@[j].0@ == title@ && entries@[j].1 == size_bits);
        }
    }
    None
}

/// A copy of a raster with the same size and pixels.
fn copy_raster(r: &RgbaRaster) -> (c: RgbaRaster)
    ensures
        c.width == r.width,
        c.height == r.height,
        c.pixels@ == r.pixels@,
{
    let mut pixels: Vec<u8> = Vec::new();
    let mut i: usize = 0;
    while i < r.pixels.len()
        invariant
            i <= r.pixels@.len(),
            pixels@ == r.pixels@.subrange(0, i as int),
        decreases r.pixels@.len() - i,
    {
        pixels.push(r.pixels[i]);
        proof {
            assert(r.pixels@.subrange(0, i as int + 1) =~= r.pixels@.subrange(0, i as int).push(
                r.pixels@[i as int],
            ));
        }
        i += 1;
    }
    assert(r.pixels@.subrange(0, r.pixels@.len() as int) =~= r.pixels@);
    RgbaRaster { width: r.width, height: r.height, pixels }
}

/// The raster value as width, height and pixel bytes.
pub open spec fn raster_model(r: RgbaRaster) -> (u32, u32, Seq<u8>) {
    (r.width, r.height, r.pixels@)
}

proof fn lemma_icon_view_remove_push(v: Seq<(String, RgbaRaster)>, i: int, e: (String, RgbaRaster))
    requires
        0 <= i < v.len(),
    ensures
        icon_view(v.remove(i).push(e)) == icon_view(v).remove(i).push((e.0@, e.1)),
{
    assert(icon_view(v.remove(i).push(e)) =~= icon_view(v).remove(i).push((e.0@, e.1)));
}

proof fn lemma_title_view_remove_push(v: Seq<(String, u32, i32)>, i: int, e: (String, u32, i32))
    requires
        0 <= i < v.len(),
    ensures
        title_view(v.remove(i).push(e)) == title_view(v).remove(i).push(((e.0@, e.1), e.2)),
{
    assert(title_view(v.remove(i).push(e)) =~= title_view(v).remove(i).push(((e.0@, e.1), e.2)));
}

impl DecorationCache {
    /// Icon entries (name, raster) in recency order, least recent first.
    pub closed spec fn icons(&self) -> Seq<(Seq<char>, RgbaRaster)> {
        icon_view(self.icon_rasters@)
    }

    /// Title measure entries ((title, size bits), width) in recency order.
    pub closed spec fn titles(&self) -> Seq<((Seq<char>, u32), i32)> {
        title_view(self.title_measures@)
    }

    /// Native pixmap bytes accounted so far.
    pub closed spec fn bytes(&self) -> nat {
        self.image_cache_bytes as nat
    }

    /// Both caches have distinct keys and stay within capacity.
    pub open spec fn wf(&self) -> bool {
        &&& lru_wf(self.icons(), ICON_RASTER_CACHE_CAPACITY as int)
        &&& lru_wf(self.titles(), TITLE_MEASURE_CACHE_CAPACITY as int)
    }

    pub fn new() -> (r: Self)
        ensures
            r.wf(),
            r.icons() == Seq::<(Seq<char>, RgbaRaster)>::empty(),
            r.titles() == Seq::<((Seq<char>, u32), i32)>::empty(),
            r.bytes() == 0,
    {
        let r = DecorationCache {
            icon_rasters: Vec::new(),
            title_measures: Vec::new(),
            image_cache_bytes: 0,
        };
        assert(r.icons() =~= Seq::<(Seq<char>, RgbaRaster)>::empty());
        assert(r.titles() =~= Seq::<((Seq<char>, u32), i32)>::empty());
        r
    }

    /// Look up an icon raster; a hit becomes the most recently used entry.
    pub fn icon_raster(&mut self, key: &str) -> (r: Option<RgbaRaster>)
        requires
            old(self).wf(),
        ensures
            final(self).wf(),
            final(self).icons() == lru_touch(old(self).icons(), key@),
            final(self).titles() == old(self).titles(),
            final(self).bytes() == old(self).bytes(),
            r is Some == has_key(old(self).icons(), key@),
            r matches Some(img) ==> raster_model(img) == raster_model(
                lru_get(old(self).icons(), key@).unwrap(),
            ),
    {
        let ghost before = self.icons();
        let key = String::from_str(key);
        match find_icon(&self.icon_rasters, &key) {
            Some(i) => {
                let raster = copy_raster(&self.icon_rasters[i].1);
                proof {
                    lemma_pos_unique(before, i as int);
                    lemma_icon_view_remove_push(
                        self.icon_rasters@,
                        i as int,
                        self.icon_rasters@[i as int],
                    );
                    lemma_lru_preserves_wf(before, key@, raster, ICON_RASTER_CACHE_CAPACITY as int);
                }
                touch(&mut self.icon_rasters, i);
                Some(raster)
            },
            None => None,
        }
    }

    /// Store an icon raster under `key`.
    pub fn insert_icon_raster(&mut self, key: String, raster: RgbaRaster)
        requires
            old(self).wf(),
        ensures
            final(self).wf(),
            final(self).icons() == lru_put(
                old(self).icons(),
                key@,
                raster,
                ICON_RASTER_CACHE_CAPACITY as int,
            ),
            final(self).titles() == old(self).titles(),
            final(self).bytes() == old(self).bytes(),
    {
        let ghost before = self.icons();
        let ghost k = key@;
        proof {
            lemma_lru_preserves_wf(before, k, raster, ICON_RASTER_CACHE_CAPACITY as int);
        }
        match find_icon(&self.icon_rasters, &key) {
            Some(i) => {
                proof {
                    lemma_pos_unique(before, i as int);
                    lemma_icon_view_remove_push(self.icon_rasters@, i as int, (key, raster));
                }
                self.icon_rasters.remove(i);
                self.icon_rasters.push((key, raster));
            },
            None => {
                let ghost v0 = self.icon_rasters@;
                evict_oldest(&mut self.icon_rasters, ICON_RASTER_CACHE_CAPACITY);
                proof {
                    if v0.len() >= ICON_RASTER_CACHE_CAPACITY && v0.len() > 0 {
                        assert(icon_view(v0.drop_first()) =~= icon_view(v0).drop_first());
                    }
                }
                let ghost v1 = self.icon_rasters@;
                self.icon_rasters.push((key, raster));
                proof {
                    assert(icon_view(v1.push((key, raster))) =~= icon_view(v1).push((k, raster)));
                }
            },
        }
    }

    /// Look up a title measure; a hit becomes the most recently used entry.
    pub fn title_measure(&mut self, title: &str, size_bits: u32) -> (r: Option<i32>)
        requires
            old(self).wf(),
        ensures
            final(self).wf(),
            final(self).titles() == lru_touch(old(self).titles(), (title@, size_bits)),
            final(self).icons() == old(self).icons(),
            final(self).bytes() == old(self).bytes(),
            r == lru_get(old(self).titles(), (title@, size_bits)),
    {
        let ghost before = self.titles();
        let title = String::from_str(title);
        match find_title(&self.title_measures, &title, size_bits) {
            Some(i) => {
                let width = self.title_measures[i].2;
                proof {
                    lemma_pos_unique(before, i as int);
                    lemma_title_view_remove_push(
                        self.title_measures@,
                        i as int,
                        self.title_measures@[i as int],
                    );
                    lemma_lru_preserves_wf(
                        before,
                        (title@, size_bits),
                        width,
                        TITLE_MEASURE_CACHE_CAPACITY as int,
                    );
                }
                touch(&mut self.title_measures, i);
                Some(width)
            },
            None => None,
        }
    }

    /// Store the measured width of `title` at `size_bits`.
    pub fn insert_title_measure(&mut self, title: String, size_bits: u32, width: i32)
        requires
            old(self).wf(),
        ensures
            final(self).wf(),
            final(self).titles() == lru_put(
                old(self).titles(),
                (title@, size_bits),
                width,
                TITLE_MEASURE_CACHE_CAPACITY as int,
            ),
            final(self).icons() == old(self).icons(),
            final(self).bytes() == old(self).bytes(),
    {
        let ghost before = self.titles();
        let ghost k = (title@, size_bits);
        proof {
            lemma_lru_preserves_wf(before, k, width, TITLE_MEASURE_CACHE_CAPACITY as int);
        }
        match find_title(&self.title_measures, &title, size_bits) {
            Some(i) => {
                proof {
                    lemma_pos_unique(before, i as int);
                    lemma_title_view_remove_push(
                        self.title_measures@,
                        i as int,
                        (title, size_bits, width),
                    );
                }
                self.title_measures.remove(i);
                self.title_measures.push((title, size_bits, width));
            },
            None => {
                let ghost v0 = self.title_measures@;
                evict_oldest(&mut self.title_measures, TITLE_MEASURE_CACHE_CAPACITY);
                proof {
                    if v0.len() >= TITLE_MEASURE_CACHE_CAPACITY && v0.len() > 0 {
                        assert(title_view(v0.drop_first()) =~= title_view(v0).drop_first());
                    }
                }
                let ghost v1 = self.title_measures@;
                self.title_measures.push((title, size_bits, width));
                proof {
                    assert(title_view(v1.push((title, size_bits, width))) =~= title_view(v1).push(
                        (k, width),
                    ));
                }
            },
        }
    }

    /// Native pixmap bytes for the image cache.
    pub fn image_cache_bytes(&self) -> (r: usize)
        ensures
            r == self.bytes(),
    {
        self.image_cache_bytes
    }

    /// Account `bytes` more pixmap bytes, saturating at `usize::MAX`.
    pub fn add_image_cache_bytes(&mut self, bytes: usize)
        ensures
            final(self).bytes() == (if old(self).bytes() + bytes > usize::MAX {
                usize::MAX as nat
            } else {
                (old(self).bytes() + bytes) as nat
            }),
            final(self).icons() == old(self).icons(),
            final(self).titles() == old(self).titles(),
    {
        self.image_cache_bytes = self.image_cache_bytes.saturating_add(bytes);
    }

    /// Forget all accounted pixmap bytes.
    pub fn clear_image_cache_bytes(&mut self)
        ensures
            final(self).bytes() == 0,
            final(self).icons() == old(self).icons(),
            final(self).titles() == old(self).titles(),
    {
        self.image_cache_bytes = 0;
    }

    /// Number of cached title measures.
    pub fn title_measure_count(&self) -> (r: usize)
        ensures
            r == self.titles().len(),
    {
        self.title_measures.len()
    }

    /// Number of cached icon rasters.
    pub fn icon_raster_count(&self) -> (r: usize)
        ensures
            r == self.icons().len(),
    {
        self.icon_rasters.len()
    }
}

impl Default for DecorationCache {
    fn default() -> (r: Self)
        ensures
            r.wf(),
            r.icons() == Seq::<(Seq<char>, RgbaRaster)>::empty(),
            r.titles() == Seq::<((Seq<char>, u32), i32)>::empty(),
            r.bytes() == 0,
    {
        DecorationCache::new()
    }
}

} // verus!
