use geometry_survival::assets::load_textures;
use geometry_survival::mob::MobCount;
use geometry_survival::ui::{format_mob_count, setup, update_mob_counter};

#[test]
fn counter_is_right_aligned_to_four_columns() {
    assert_eq!(format_mob_count(0), "   0");
    assert_eq!(format_mob_count(7), "   7");
    assert_eq!(format_mob_count(23), "  23");
    assert_eq!(format_mob_count(999), " 999");
    assert_eq!(format_mob_count(1234), "1234");
}

#[test]
fn counter_wider_than_the_field_is_not_truncated() {
    assert_eq!(format_mob_count(12345), "12345");
    assert_eq!(format_mob_count(u32::MAX), "4294967295");
}

#[test]
fn label_starts_with_a_placeholder() {
    let label = setup();
    assert_eq!(label.prefix, "Mobs: ");
    assert_eq!(label.value, " N/A");
}

#[test]
fn update_rewrites_only_the_value() {
    let mut label = setup();
    update_mob_counter(&mut label, &MobCount(42));
    assert_eq!(label.prefix, "Mobs: ");
    assert_eq!(label.value, "  42");
}

#[test]
fn textures_load_with_their_paths_and_grid() {
    let assets = load_textures();
    assert_eq!(assets.player_body, "player/player-body.png");
    assert_eq!(assets.player_eyes.texture, "player/player-eyes.png");
    assert_eq!(assets.player_eyes.tile_width, 256);
    assert_eq!(assets.player_eyes.tile_height, 256);
    assert_eq!(assets.player_eyes.columns, 2);
    assert_eq!(assets.player_eyes.rows, 1);
    assert_eq!(assets.player_eyes.frame_count(), 2);
}

#[test]
fn atlas_rects_tile_the_sheet() {
    let atlas = load_textures().player_eyes;
    assert_eq!(atlas.rect(0), Some((0, 0, 256, 256)));
    assert_eq!(atlas.rect(1), Some((256, 0, 512, 256)));
    assert_eq!(atlas.rect(2), None);
}
