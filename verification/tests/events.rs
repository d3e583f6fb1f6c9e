use osb::{Easing, Move, Rotate, Scale, Vec2};

#[test]
fn easing_identifiers() {
    assert_eq!(Easing::Linear.id(), 0);
    assert_eq!(Easing::Out.id(), 1);
    assert_eq!(Easing::In.id(), 2);
    assert_eq!(Easing::QuadOut.id(), 4);
    assert_eq!(Easing::ElasticHalfOut.id(), 26);
    assert_eq!(Easing::BounceInOut.id(), 34);
}

#[test]
fn move_lines_carry_two_components() {
    let stat: Move = (3000, Vec2::new(320, 240)).into();
    assert_eq!(stat.to_line(), " M,0,3000,,320,240");

    let from_parts: Move = (0, 100, 100).into();
    assert_eq!(from_parts.to_line(), " M,0,0,,100,100");

    let dynamic: Move = (0, 1000, Vec2::new(0, 0), Vec2::new(320, 240)).into();
    assert_eq!(dynamic.to_line(), " M,0,0,1000,0,0,320,240");

    let eased: Move = (Easing::Out, 0, 1000, Vec2::new(0, 0), Vec2::new(320, 240)).into();
    assert_eq!(eased.to_line(), " M,1,0,1000,0,0,320,240");

    let component_pairs: Move = (1000, 2000, 320, 240, 100, 100).into();
    assert_eq!(component_pairs.to_line(), " M,0,1000,2000,320,240,100,100");

    let eased_pairs: Move = (Easing::QuadInOut, 1000, 2000, 320, 240, 100, 100).into();
    assert_eq!(eased_pairs.to_line(), " M,5,1000,2000,320,240,100,100");
}

#[test]
fn move_times_match_stored_fields() {
    let stat: Move = (3000, Vec2::new(320, 240)).into();
    assert_eq!(stat.get_start_time(), 3000);
    assert_eq!(stat.get_end_time(), 3000);

    let mut dynamic: Move = (200, 100, 0, 0, 1, 1).into();
    assert_eq!(dynamic.get_start_time(), 200);
    assert_eq!(dynamic.get_end_time(), 100);
    dynamic.set_depth(1);
    assert_eq!(dynamic.to_line(), "  M,0,200,100,0,0,1,1");
}

#[test]
fn rotate_and_scale_lines() {
    let r: Rotate = (0, 1).into();
    assert_eq!(r.to_line(), " R,0,0,,1");

    let r_dyn: Rotate = (Easing::In, 0, 400, 0, 2).into();
    assert_eq!(r_dyn.to_line(), " R,2,0,400,0,2");

    let s: Scale = (0, 2).into();
    assert_eq!(s.to_line(), " S,0,0,,2");

    let s_dyn: Scale = (100, 300, 1, 2).into();
    assert_eq!(s_dyn.to_line(), " S,0,100,300,1,2");
}
