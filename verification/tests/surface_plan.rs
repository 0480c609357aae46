use render_scaffold::surface::choose_format_index;
use render_scaffold::surface::plan_surface;

#[test]
fn the_first_srgb_format_wins() {
    let flags = vec![false, true, true, false];
    assert_eq!(choose_format_index(&flags), 1);
}

#[test]
fn an_srgb_format_at_the_front_wins() {
    let flags = vec![true, false];
    assert_eq!(choose_format_index(&flags), 0);
}

#[test]
fn without_srgb_the_first_format_wins() {
    let flags = vec![false, false, false];
    assert_eq!(choose_format_index(&flags), 0);
}

#[test]
fn a_single_format_is_chosen_whatever_it_is() {
    assert_eq!(choose_format_index(&vec![false]), 0);
    assert_eq!(choose_format_index(&vec![true]), 0);
}

#[test]
fn the_plan_takes_the_framebuffer_extent_and_the_first_modes() {
    let flags = vec![false, false, true];
    let p = plan_surface((1280, 720), &flags);
    assert_eq!(p.width, 1280);
    assert_eq!(p.height, 720);
    assert_eq!(p.format_index, 2);
    assert_eq!(p.present_mode_index, 0);
    assert_eq!(p.alpha_mode_index, 0);
    assert_eq!(p.desired_maximum_frame_latency, 2);
}

#[test]
fn a_zero_extent_is_planned_as_given() {
    let flags = vec![true];
    let p = plan_surface((0, 0), &flags);
    assert_eq!(p.width, 0);
    assert_eq!(p.height, 0);
    assert_eq!(p.format_index, 0);
}
