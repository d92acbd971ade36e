use gmanim::animation::AnimationConfig;
use gmanim::camera::{OrthographicSetting, Projection};
use gmanim::mobjects::formula::Formula;
use gmanim::mobjects::{coordinate_change_x, coordinate_change_y, DrawConfig};
use gmanim::{Scene, SceneConfig, COORD_UNIT};

#[test]
fn coordinate_changes_shift_and_flip() {
    // one scene unit right of centre, on a 16-unit-wide scene
    assert_eq!(coordinate_change_x(COORD_UNIT, 16 * COORD_UNIT), 9 * COORD_UNIT);
    assert_eq!(coordinate_change_x(-COORD_UNIT, 16 * COORD_UNIT), 7 * COORD_UNIT);
    // one unit above centre, on a 9-unit-tall scene: y points down on the
    // surface
    assert_eq!(
        coordinate_change_y(COORD_UNIT, 9 * COORD_UNIT),
        9 * COORD_UNIT / 2 - COORD_UNIT
    );
    assert_eq!(coordinate_change_y(0, 9 * COORD_UNIT), 9 * COORD_UNIT / 2);
}

#[test]
fn default_scene_config_and_conversion() {
    let config = SceneConfig::default();
    assert_eq!(config.width, 16 * COORD_UNIT);
    assert_eq!(config.height, 9 * COORD_UNIT);
    assert_eq!(config.output_width, 1920);
    assert_eq!(config.output_height, 1080);
    assert_eq!(config.scale_factor, 120);
    // the scene's right edge lands on pixel column 1920, its centre on 960
    assert_eq!(config.convert_coord_x(8 * COORD_UNIT), 1920 * COORD_UNIT);
    assert_eq!(config.convert_coord_x(0), 960 * COORD_UNIT);
    // the scene's top edge lands on pixel row 0, its bottom edge on 1080
    assert_eq!(config.convert_coord_y(9 * COORD_UNIT / 2), 0);
    assert_eq!(config.convert_coord_y(-9 * COORD_UNIT / 2), 1080 * COORD_UNIT);
}

#[test]
fn scene_add_keeps_order() {
    let mut scene: Scene<u32> = Scene::new();
    assert_eq!(scene.mobjects.len(), 0);
    scene.add(10);
    scene.add(20);
    let shared = 30u32;
    scene.add_ref(&shared);
    assert_eq!(scene.mobjects, vec![10, 20, 30]);
}

#[test]
fn animation_advance_counts_frames() {
    let mut config = AnimationConfig { total_frame: 3, current_frame: 0 };
    assert_eq!(config.advance(), Some(1));
    assert_eq!(config.advance(), Some(2));
    assert_eq!(config.advance(), Some(3));
    assert_eq!(config.advance(), None);
    assert_eq!(config.advance(), None);
    assert_eq!(config.current_frame, 3);
}

#[test]
fn orthographic_setting_stores_planes() {
    let setting = OrthographicSetting::new(-1024, 1024, -1024, 1024, 0, -2048);
    assert_eq!(setting.planes(), (-1024, 1024, -1024, 1024, 0, -2048));
    let projection = Projection::Orthographic(setting);
    assert!(matches!(projection, Projection::Orthographic(_)));
}

#[test]
fn formula_typst_source() {
    let formula = Formula::new("pi".to_owned());
    let source = formula.typst_source();
    assert_eq!(
        source,
        "#set page(\n    width: auto,\n    height: auto,\n    margin: (x: 0cm, y: 0cm)\n)\n$ pi $"
    );
}

#[test]
fn draw_config_defaults() {
    let config = DrawConfig::default();
    assert_eq!(config.stoke_width(), COORD_UNIT / 4);
    assert!(config.fill());
    assert_eq!(config.color_rgba(), (0x33, 0xcc, 0xff, 0xff));
}
