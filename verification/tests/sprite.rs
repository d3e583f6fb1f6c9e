use osb::sprite::SpriteConfig;
use osb::{EventCollection, Layer, Origin, Sprite, Vec2};

#[test]
fn window_starts_empty_and_spans_appends() {
    let mut sprite = Sprite::new("res/sprite.png");
    assert_eq!(sprite.start_time(), None);
    assert_eq!(sprite.end_time(), None);

    sprite.move_((100, 200, 0, 0, 320, 240).into());
    assert_eq!(sprite.start_time(), Some(100));
    assert_eq!(sprite.end_time(), Some(200));

    sprite.fade_((0, 100, 0, 1).into());
    assert_eq!(sprite.start_time(), Some(0));
    assert_eq!(sprite.end_time(), Some(200));
}

#[test]
fn window_takes_unordered_ranges_literally() {
    // An event whose stored start exceeds its stored end is folded with
    // those raw fields, so the recorded window can be narrower than the
    // event's true temporal span.
    let mut sprite = Sprite::new("res/sprite.png");
    sprite.fade_((1000, 0, 0, 1).into());
    assert_eq!(sprite.start_time(), Some(1000));
    assert_eq!(sprite.end_time(), Some(0));
}

#[test]
fn window_folds_every_kind() {
    let mut sprite = Sprite::new("res/sprite.png");
    sprite.rotate_((300, 1).into());
    assert_eq!(sprite.start_time(), Some(300));
    assert_eq!(sprite.end_time(), Some(300));

    sprite.scale_((400, 500, 1, 2).into());
    assert_eq!(sprite.start_time(), Some(300));
    assert_eq!(sprite.end_time(), Some(500));

    sprite.move_((250, Vec2::new(0, 0)).into());
    assert_eq!(sprite.start_time(), Some(250));
    assert_eq!(sprite.end_time(), Some(500));
}

#[test]
fn defaults_and_position() {
    let sprite = Sprite::new("res/sprite.png");
    assert_eq!(sprite.get_x(), 320);
    assert_eq!(sprite.get_y(), 240);

    let placed = Sprite::from_config(SpriteConfig {
        path: String::from("res/bg.jpg"),
        origin: Some(Origin::TopLeft),
        pos: Some(Vec2::new(0, 0)),
    });
    assert_eq!(placed.get_x(), 0);
    assert_eq!(placed.get_y(), 0);
}

#[test]
fn render_groups_by_kind_in_fixed_order() {
    let mut sprite = Sprite::new("res/sprite.png");
    // Interleave the kinds; the output must still group them as
    // Move, Fade, Rotate, Scale.
    sprite.fade_((0, 1).into());
    sprite.scale_((0, 2).into());
    sprite.move_((3000, Vec2::new(320, 240)).into());
    sprite.rotate_((0, 1).into());
    sprite.fade_((0, 1000, 0, 1).into());

    let mut expected = String::from("Sprite,Background,Centre,\"res/sprite.png\",320,240\n");
    expected.push_str(" M,0,3000,,320,240\n");
    expected.push_str(" F,0,0,,1\n");
    expected.push_str(" F,0,0,1000,0,1\n");
    expected.push_str(" R,0,0,,1\n");
    expected.push_str(" S,0,0,,2\n");
    assert_eq!(sprite.to_str(), expected);
}

#[test]
fn header_reflects_layer_origin_and_position() {
    let mut sprite = Sprite::from_config(SpriteConfig {
        path: String::from("sb/fg.png"),
        origin: Some(Origin::BottomRight),
        pos: Some(Vec2::new(-10, 480)),
    });
    sprite.set_layer(Layer::Foreground);
    assert_eq!(sprite.to_str(), "Sprite,Foreground,BottomRight,\"sb/fg.png\",-10,480\n");
}

#[test]
fn empty_collection_renders_nothing() {
    let collection = EventCollection::new();
    assert_eq!(collection.to_str(), "");
}

#[test]
fn collection_concatenates_groups() {
    let mut collection = EventCollection::new();
    collection.fade_.push((0, 1).into());
    collection.scale_.push((0, 2).into());
    collection.fade_.push((5, 6).into());
    assert_eq!(collection.to_str(), " F,0,0,,1\n F,0,5,,6\n S,0,0,,2\n");
}
