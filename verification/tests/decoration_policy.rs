use flamewm_wm_x11::decoration::policy::{
    decide, motif_no_decorations, normal_hints_resizable, DecorationPolicy, DecorationRequest,
};
use flamewm_wm_x11::size_hints::{HINT_P_MAX_SIZE, HINT_P_MIN_SIZE};

#[test]
fn override_redirect_is_undecorated() {
    let policy = decide(DecorationRequest {
        override_redirect: true,
        is_normal_type: true,
        motif_no_decorations: false,
    });
    assert_eq!(policy, DecorationPolicy::Undecorated);
    assert!(!policy.has_flame_frame());
}

#[test]
fn non_normal_type_is_undecorated() {
    let policy = decide(DecorationRequest {
        override_redirect: false,
        is_normal_type: false,
        motif_no_decorations: false,
    });
    assert_eq!(policy, DecorationPolicy::Undecorated);
}

#[test]
fn motif_zero_decorations_is_undecorated() {
    let policy = decide(DecorationRequest {
        override_redirect: false,
        is_normal_type: true,
        motif_no_decorations: true,
    });
    assert_eq!(policy, DecorationPolicy::Undecorated);
}

#[test]
fn normal_hint_free_is_server_decorated() {
    let policy = decide(DecorationRequest {
        override_redirect: false,
        is_normal_type: true,
        motif_no_decorations: false,
    });
    assert_eq!(policy, DecorationPolicy::ServerDecorated);
    assert!(policy.has_flame_frame());
}

#[test]
fn client_decorated_variant_has_no_frame() {
    assert!(!DecorationPolicy::ClientDecorated.has_flame_frame());
}

#[test]
fn empty_hints_stay_resizable() {
    assert!(normal_hints_resizable(&[]));
    assert!(normal_hints_resizable(&[0]));
}

#[test]
fn equal_min_max_is_fixed() {
    let values = vec![
        HINT_P_MIN_SIZE | HINT_P_MAX_SIZE,
        0,
        0,
        0,
        0,
        400,
        300,
        400,
        300,
    ];
    assert!(!normal_hints_resizable(&values));
}

#[test]
fn unequal_min_max_stays_resizable() {
    let values = vec![
        HINT_P_MIN_SIZE | HINT_P_MAX_SIZE,
        0,
        0,
        0,
        0,
        100,
        100,
        800,
        600,
    ];
    assert!(normal_hints_resizable(&values));
}

#[test]
fn motif_parse_requires_flag_and_zero() {
    assert!(motif_no_decorations(&[2, 0, 0, 0, 0]));
    assert!(!motif_no_decorations(&[0, 0, 0, 0, 0]));
    assert!(!motif_no_decorations(&[2, 0, 1, 0, 0]));
    assert!(!motif_no_decorations(&[2, 0]));
}

// ---- further cases ----

#[test]
fn every_undecorated_reason_wins_over_the_others() {
    for (or, normal, motif) in [
        (true, false, false),
        (true, true, true),
        (false, false, true),
        (true, false, true),
    ] {
        let policy = decide(DecorationRequest {
            override_redirect: or,
            is_normal_type: normal,
            motif_no_decorations: motif,
        });
        assert_eq!(policy, DecorationPolicy::Undecorated);
        assert!(!policy.has_flame_frame());
    }
    assert!(DecorationPolicy::ServerDecorated.has_flame_frame());
}
