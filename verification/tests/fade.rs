use osb::{Easing, Fade};

#[test]
fn to_line_static() {
    let fade_event: Fade = (0, 1).into();
    assert_eq!(fade_event.to_line(), " F,0,0,,1");

    let mut fade_event_depth: Fade = (0, 1).into();
    fade_event_depth.set_depth(2);
    assert_eq!(fade_event_depth.to_line(), "   F,0,0,,1");
}

#[test]
fn to_line_dynamic() {
    let fade_event: Fade = (0, 1000, 0, 1).into();
    assert_eq!(fade_event.to_line(), " F,0,0,1000,0,1");

    let fade_event_easing: Fade = (Easing::QuadOut, 0, 1000, 0, 1).into();
    assert_eq!(fade_event_easing.to_line(), " F,4,0,1000,0,1");
}

#[test]
fn static_times_coincide() {
    let e: Fade = (250, 1).into();
    assert_eq!(e.get_start_time(), 250);
    assert_eq!(e.get_end_time(), 250);
}

#[test]
fn dynamic_times_literal_even_unordered() {
    let e: Fade = (1000, 0, 0, 1).into();
    assert_eq!(e.get_start_time(), 1000);
    assert_eq!(e.get_end_time(), 0);

    let zero_length: Fade = (500, 500, 0, 1).into();
    assert_eq!(zero_length.get_start_time(), 500);
    assert_eq!(zero_length.get_end_time(), 500);
    assert_eq!(zero_length.to_line(), " F,0,500,500,0,1");
}

#[test]
fn set_depth_is_idempotent() {
    let mut e: Fade = (0, 1).into();
    e.set_depth(3);
    assert_eq!(e.to_line(), "    F,0,0,,1");
    e.set_depth(3);
    assert_eq!(e.to_line(), "    F,0,0,,1");
    e.set_depth(0);
    assert_eq!(e.to_line(), " F,0,0,,1");
}

#[test]
fn negative_values_render_with_sign() {
    let e: Fade = (-100, -1).into();
    assert_eq!(e.to_line(), " F,0,-100,,-1");

    let extreme = Fade::Static(0, i32::MIN, i32::MAX);
    assert_eq!(extreme.to_line(), " F,0,-2147483648,,2147483647");
}
