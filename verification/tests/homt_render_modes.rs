use bahyway::homt::convergence::ConvergenceState;
use bahyway::homt::field::HeptaAxis;
use bahyway::homt::render_modes::{
    rendering_mode, tribe_rendering_mode, RenderingMode, INSTANCED_THRESHOLD,
    POINT_SPRITE_THRESHOLD,
};
use bahyway::homt::sector::HeptaSectorMap;

#[test]
fn test_zero_particles_is_point_sprite() {
    assert_eq!(rendering_mode(0), RenderingMode::PointSprite);
}

#[test]
fn test_below_threshold_is_point_sprite() {
    assert_eq!(rendering_mode(POINT_SPRITE_THRESHOLD - 1), RenderingMode::PointSprite);
}

#[test]
fn test_at_sprite_threshold_is_instanced() {
    assert_eq!(rendering_mode(POINT_SPRITE_THRESHOLD), RenderingMode::Instanced);
}

#[test]
fn test_mid_range_is_instanced() {
    let mid = (POINT_SPRITE_THRESHOLD + INSTANCED_THRESHOLD) / 2;
    assert_eq!(rendering_mode(mid), RenderingMode::Instanced);
}

#[test]
fn test_at_instanced_threshold_is_volumetric() {
    assert_eq!(rendering_mode(INSTANCED_THRESHOLD), RenderingMode::Volumetric);
}

#[test]
fn test_billion_is_volumetric() {
    assert_eq!(rendering_mode(1_000_000_000), RenderingMode::Volumetric);
}

#[test]
fn test_direct_click_modes() {
    assert!(RenderingMode::PointSprite.supports_direct_click());
    assert!(RenderingMode::Instanced.supports_direct_click());
    assert!(!RenderingMode::Volumetric.supports_direct_click());
}

#[test]
fn test_compute_pass_only_for_volumetric() {
    assert!(!RenderingMode::PointSprite.requires_compute_pass());
    assert!(!RenderingMode::Instanced.requires_compute_pass());
    assert!(RenderingMode::Volumetric.requires_compute_pass());
}

#[test]
fn test_labels_non_empty() {
    assert!(!RenderingMode::PointSprite.label().is_empty());
    assert!(!RenderingMode::Instanced.label().is_empty());
    assert!(!RenderingMode::Volumetric.label().is_empty());
}

#[test]
fn test_tribe_mode_zero_shells() {
    assert_eq!(tribe_rendering_mode(5000, 0), RenderingMode::PointSprite);
}

#[test]
fn test_tribe_mode_billion_particles() {
    assert_eq!(tribe_rendering_mode(1_000_000_000, 5), RenderingMode::Volumetric);
}

#[test]
fn test_threshold_constants_ordered() {
    assert!(POINT_SPRITE_THRESHOLD < INSTANCED_THRESHOLD);
}

// ── Additional checks ──────────────────────────────────────────────────────

#[test]
fn labels_and_state_names() {
    assert_eq!(RenderingMode::Volumetric.label(), "Volumetric");
    assert_eq!(ConvergenceState::Golden.as_str(), "GOLDEN");
    assert_eq!(ConvergenceState::Fuzzy.as_str(), "FUZZY");
    assert_eq!(ConvergenceState::Dead.as_str(), "DEAD");
    assert_eq!(tribe_rendering_mode(20_000, 3), RenderingMode::Instanced);
}

#[test]
fn axis_positions_round_trip() {
    for i in 0..7usize {
        assert_eq!(HeptaAxis::from_index(i).index(), i);
    }
    assert_eq!(HeptaAxis::Tribe.index(), 3);
    assert_eq!(HeptaAxis::from_index(99), HeptaAxis::Mode);
}

#[test]
fn search_key_is_base_seven_with_capped_digits() {
    assert_eq!(HeptaSectorMap::address_search_key(&[1, 0, 0, 0, 0, 0, 0]), 1);
    assert_eq!(HeptaSectorMap::address_search_key(&[0, 1, 0, 0, 0, 0, 0]), 7);
    assert_eq!(HeptaSectorMap::address_search_key(&[10, 10, 0, 0, 0, 0, 0]), 6 + 6 * 7);
    assert_eq!(HeptaSectorMap::address_search_key(&[1, 1, 1, 1, 1, 1, 1]), 137_257);
    let m = HeptaSectorMap::new(10);
    assert_eq!(m.get_resolution(), 10);
}

#[test]
fn hepta_axis_indices_are_0_through_6() {
    assert_eq!(HeptaAxis::Entity.index(), 0);
    assert_eq!(HeptaAxis::Attribute.index(), 1);
    assert_eq!(HeptaAxis::Value.index(), 2);
    assert_eq!(HeptaAxis::Tribe.index(), 3);
    assert_eq!(HeptaAxis::Segment.index(), 4);
    assert_eq!(HeptaAxis::Zone.index(), 5);
    assert_eq!(HeptaAxis::Mode.index(), 6);
}
