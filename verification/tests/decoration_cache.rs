use flamewm_wm_x11::chrome::RgbaRaster;
use flamewm_wm_x11::decoration::cache::{
    DecorationCache, ICON_RASTER_CACHE_CAPACITY, TITLE_MEASURE_CACHE_CAPACITY,
};
use flamewm_wm_x11::decoration::manager::icon_fallback_reason;

fn test_raster() -> RgbaRaster {
    RgbaRaster {
        width: 1,
        height: 1,
        pixels: vec![0; 4],
    }
}

#[test]
fn icon_bytes_track_pixmap_estimate() {
    let mut cache = DecorationCache::new();
    // A 2x3 RGBA pixmap is 2 * 3 * 4 bytes.
    cache.add_image_cache_bytes(2 * 3 * 4);
    assert_eq!(cache.image_cache_bytes(), 24);
    cache.clear_image_cache_bytes();
    assert_eq!(cache.image_cache_bytes(), 0);
}

#[test]
fn title_measure_cache_evicts_least_recently_used_entry() {
    let mut cache = DecorationCache::new();
    for index in 0..TITLE_MEASURE_CACHE_CAPACITY {
        cache.insert_title_measure(index.to_string(), 12, index as i32);
    }
    assert_eq!(cache.title_measure("0", 12), Some(0));
    cache.insert_title_measure("new".to_owned(), 12, 7);
    assert_eq!(cache.title_measure("1", 12), None);
    assert_eq!(cache.title_measure("0", 12), Some(0));
    assert_eq!(cache.title_measure_count(), TITLE_MEASURE_CACHE_CAPACITY);
}

#[test]
fn icon_raster_cache_evicts_least_recently_used_entry() {
    let mut cache = DecorationCache::new();
    for index in 0..ICON_RASTER_CACHE_CAPACITY {
        cache.insert_icon_raster(index.to_string(), test_raster());
    }
    assert!(cache.icon_raster("0").is_some());
    cache.insert_icon_raster("new".to_owned(), test_raster());
    assert!(cache.icon_raster("1").is_none());
    assert!(cache.icon_raster("0").is_some());
    assert_eq!(cache.icon_raster_count(), ICON_RASTER_CACHE_CAPACITY);
}

// ---- further cases ----

#[test]
fn title_measure_pins_width_per_size() {
    let mut cache = DecorationCache::default();
    assert_eq!(cache.title_measure("hello", 12), None);
    cache.insert_title_measure("hello".to_owned(), 12, 31);
    cache.insert_title_measure("hello".to_owned(), 14, 36);
    assert_eq!(cache.title_measure("hello", 12), Some(31));
    assert_eq!(cache.title_measure("hello", 14), Some(36));
    // Re-inserting a key replaces its value without growing the cache.
    cache.insert_title_measure("hello".to_owned(), 12, 33);
    assert_eq!(cache.title_measure("hello", 12), Some(33));
    assert_eq!(cache.title_measure_count(), 2);
}

#[test]
fn icon_raster_lookup_returns_stored_pixels() {
    let mut cache = DecorationCache::new();
    let raster = RgbaRaster {
        width: 2,
        height: 1,
        pixels: vec![1, 2, 3, 4, 5, 6, 7, 8],
    };
    cache.insert_icon_raster("firefox".to_owned(), raster.clone());
    assert_eq!(cache.icon_raster("firefox"), Some(raster));
    assert_eq!(cache.icon_raster("Firefox"), None);
}

#[test]
fn reinserting_refreshes_recency() {
    let mut cache = DecorationCache::new();
    for index in 0..TITLE_MEASURE_CACHE_CAPACITY {
        cache.insert_title_measure(index.to_string(), 1, index as i32);
    }
    // Refreshing "0" by re-insert makes "1" the oldest entry.
    cache.insert_title_measure("0".to_owned(), 1, -5);
    cache.insert_title_measure("fresh".to_owned(), 1, 9);
    assert_eq!(cache.title_measure("0", 1), Some(-5));
    assert_eq!(cache.title_measure("1", 1), None);
    assert_eq!(cache.title_measure("fresh", 1), Some(9));
}

#[test]
fn pixmap_bytes_saturate() {
    let mut cache = DecorationCache::new();
    cache.add_image_cache_bytes(usize::MAX - 1);
    cache.add_image_cache_bytes(10);
    assert_eq!(cache.image_cache_bytes(), usize::MAX);
}

#[test]
fn fallback_reason_names_class_or_unknown() {
    assert_eq!(
        icon_fallback_reason("org.gnome.Terminal", "no-catalog-icon"),
        "icon-fallback wm_class=org.gnome.Terminal reason=no-catalog-icon"
    );
    assert_eq!(
        icon_fallback_reason("", "missing"),
        "icon-fallback wm_class=unknown reason=missing"
    );
}
