use flamewm_wm_x11::size_hints::{
    constrain_frame_size, snap_client_size, ClientSizeHints, ResizeCorner, WinGravity,
    HINT_P_ASPECT, HINT_P_BASE_SIZE, HINT_P_MAX_SIZE, HINT_P_MIN_SIZE, HINT_P_RESIZE_INC,
    HINT_P_WIN_GRAVITY,
};

fn flags(values: &mut Vec<u32>, flag: u32) {
    values[0] |= flag;
}

fn blank() -> Vec<u32> {
    vec![0; 18]
}

#[test]
fn free_hints_parse_empty() {
    let hints = ClientSizeHints::parse(&[]);
    assert_eq!(hints, ClientSizeHints::default());
    assert!(hints.resizable);
    assert_eq!(snap_client_size(333, 222, &hints), (333, 222));
}

#[test]
fn fixed_single_size_is_not_resizable() {
    let mut values = blank();
    flags(&mut values, HINT_P_MIN_SIZE | HINT_P_MAX_SIZE);
    values[5] = 400;
    values[6] = 300;
    values[7] = 400;
    values[8] = 300;
    let hints = ClientSizeHints::parse(&values);
    assert!(!hints.resizable);
    assert_eq!(hints.min, Some((400, 300)));
    assert_eq!(hints.max, Some((400, 300)));
    assert_eq!(snap_client_size(999, 999, &hints), (400, 300));
    assert_eq!(snap_client_size(10, 10, &hints), (400, 300));
}

#[test]
fn min_max_domain_clamps() {
    let mut values = blank();
    flags(&mut values, HINT_P_MIN_SIZE | HINT_P_MAX_SIZE);
    values[5] = 100;
    values[6] = 100;
    values[7] = 800;
    values[8] = 600;
    let hints = ClientSizeHints::parse(&values);
    assert!(hints.resizable);
    assert_eq!(snap_client_size(50, 50, &hints), (100, 100));
    assert_eq!(snap_client_size(2000, 2000, &hints), (800, 600));
    assert_eq!(snap_client_size(400, 300, &hints), (400, 300));
}

#[test]
fn base_plus_increment_snaps_with_integers() {
    let mut values = blank();
    flags(&mut values, HINT_P_BASE_SIZE | HINT_P_RESIZE_INC);
    values[9] = 8;
    values[10] = 8;
    values[15] = 100;
    values[16] = 100;
    let hints = ClientSizeHints::parse(&values);
    assert_eq!(hints.base, Some((100, 100)));
    assert_eq!(hints.inc, Some((8, 8)));
    // 150 - 100 = 50 -> 48 steps -> 148. Exact, no float drift.
    assert_eq!(snap_client_size(150, 150, &hints), (148, 148));
    assert_eq!(snap_client_size(100, 100, &hints), (100, 100));
    assert_eq!(snap_client_size(10, 10, &hints), (100, 100));
}

#[test]
fn aspect_uses_integer_cross_products() {
    let mut values = blank();
    flags(&mut values, HINT_P_ASPECT);
    values[11] = 1;
    values[12] = 1;
    values[13] = 2;
    values[14] = 1;
    let hints = ClientSizeHints::parse(&values);
    // Too wide (4:1 > 2:1): shrink width to 2*h.
    assert_eq!(snap_client_size(400, 100, &hints), (200, 100));
    // Too tall (1:4 < 1:1): shrink height to w.
    assert_eq!(snap_client_size(100, 400, &hints), (100, 100));
    // Inside range passes through.
    assert_eq!(snap_client_size(300, 200, &hints), (300, 200));
}

#[test]
fn all_four_corners_constrain_identically_for_size() {
    let mut values = blank();
    flags(&mut values, HINT_P_MIN_SIZE | HINT_P_MAX_SIZE);
    values[5] = 100;
    values[6] = 100;
    values[7] = 800;
    values[8] = 600;
    let hints = ClientSizeHints::parse(&values);
    let corners = [
        ResizeCorner::TopLeft,
        ResizeCorner::TopRight,
        ResizeCorner::BottomLeft,
        ResizeCorner::BottomRight,
    ];
    for corner in corners {
        // Below min-frame safety floor: clamped to min frame.
        assert_eq!(
            constrain_frame_size(10, 10, corner, &hints, 8, 30, (50, 50), (1920, 1080)),
            (108, 130),
            "corner {corner:?}"
        );
        // Above work area: clamped to work size.
        assert_eq!(
            constrain_frame_size(5000, 5000, corner, &hints, 8, 30, (50, 50), (1920, 1080)),
            (808, 630),
            "corner {corner:?}"
        );
    }
}

#[test]
fn non_resizable_detection_requires_exact_pair() {
    let mut values = blank();
    flags(&mut values, HINT_P_MIN_SIZE);
    values[5] = 400;
    values[6] = 300;
    assert!(ClientSizeHints::parse(&values).resizable);
    let mut values = blank();
    flags(&mut values, HINT_P_MIN_SIZE | HINT_P_MAX_SIZE);
    values[5] = 100;
    values[6] = 100;
    values[7] = 800;
    values[8] = 600;
    assert!(ClientSizeHints::parse(&values).resizable);
}

#[test]
fn degenerate_zero_sizes_stay_resizable() {
    let mut values = blank();
    flags(&mut values, HINT_P_MIN_SIZE | HINT_P_MAX_SIZE);
    assert!(ClientSizeHints::parse(&values).resizable);
}

// ---- further cases ----

#[test]
fn zero_increment_is_ignored_by_parse() {
    let mut values = blank();
    flags(&mut values, HINT_P_RESIZE_INC);
    values[9] = 0;
    values[10] = 8;
    let hints = ClientSizeHints::parse(&values);
    assert_eq!(hints.inc, None);
    assert_eq!(snap_client_size(37, 41, &hints), (37, 41));
}

#[test]
fn short_property_reads_no_fields() {
    let values = vec![HINT_P_MIN_SIZE | HINT_P_MAX_SIZE, 0, 0, 0, 0, 100];
    let hints = ClientSizeHints::parse(&values);
    assert_eq!(hints.min, None);
    assert_eq!(hints.max, None);
    assert!(hints.resizable);
}

#[test]
fn gravity_field_read_and_mapped() {
    let mut values = blank();
    flags(&mut values, HINT_P_WIN_GRAVITY);
    values[17] = 9;
    let hints = ClientSizeHints::parse(&values);
    assert_eq!(hints.gravity, Some(9));
    assert_eq!(WinGravity::of(&hints), WinGravity::SouthEast);
    assert_eq!(WinGravity::from_u32(42), WinGravity::NorthWest);
    assert_eq!(WinGravity::from_u32(10), WinGravity::Static);
    assert_eq!(WinGravity::Center.anchor_num(), (1, 1));
    assert_eq!(WinGravity::SouthEast.anchor_num(), (2, 2));
}

#[test]
fn snapped_size_stays_within_min_and_max_law_example() {
    let mut values = blank();
    flags(&mut values, HINT_P_MIN_SIZE | HINT_P_MAX_SIZE | HINT_P_RESIZE_INC | HINT_P_BASE_SIZE);
    values[5] = 120;
    values[6] = 90;
    values[7] = 700;
    values[8] = 500;
    values[9] = 10;
    values[10] = 7;
    values[15] = 20;
    values[16] = 6;
    let hints = ClientSizeHints::parse(&values);
    for (w, h) in [(0u32, 0u32), (125, 95), (699, 499), (5000, 5000), (333, 222)] {
        let (sw, sh) = snap_client_size(w, h, &hints);
        assert!((120..=700).contains(&sw), "{w}x{h} -> {sw}");
        assert!((90..=500).contains(&sh), "{w}x{h} -> {sh}");
    }
    // 333 - 20 = 313 -> 310 -> 330; 222 - 6 = 216 -> 210 -> 216.
    assert_eq!(snap_client_size(333, 222, &hints), (330, 216));
}
