use image::Pixel;
use post_maker::geometry::Rect;
use post_maker::layout::{Canvas, TextBox};
use post_maker::panel::{border_colors, plan_panel, Outline};

fn preview() -> Canvas {
    Canvas { width: 400, height: 500, original_width: 4000, original_height: 5000 }
}

#[test]
fn the_panel_on_the_preview() {
    let plan = plan_panel(&preview(), 3500, TextBox { width: 120_250, height: 98_820 }).unwrap();
    assert_eq!(plan.panel, Rect { x: 136, y: 349, width: 126, height: 100 });
    assert_eq!(plan.tint, [20, 22, 25, 80]);
    assert_eq!(plan.panel_blur, 15_000);
    assert_eq!(plan.shadow_size, (130, 104));
    assert_eq!(plan.shadow_outline, Outline { x: 2, y: 2, width: 126, height: 100 });
    assert_eq!(plan.shadow_color, [30, 30, 30, 255]);
    assert_eq!(plan.shadow_blur, 500);
    assert_eq!(plan.shadow_position, (134, 347));
    assert_eq!(plan.outer_border, Outline { x: 136, y: 349, width: 126, height: 100 });
    assert_eq!(plan.inner_border, Outline { x: 136, y: 349, width: 126, height: 100 });
    assert_eq!(plan.darkening, [0, 0, 0, 2]);
}

#[test]
fn the_panel_on_the_original_size() {
    let canvas = Canvas { width: 4000, height: 5000, original_width: 4000, original_height: 5000 };
    let plan = plan_panel(&canvas, 3500, TextBox { width: 1_202_500, height: 988_200 }).unwrap();
    assert_eq!(plan.panel, Rect { x: 1368, y: 3490, width: 1262, height: 1008 });
    assert_eq!(plan.shadow_size, (1302, 1048));
    assert_eq!(plan.shadow_outline, Outline { x: 20, y: 20, width: 1262, height: 1008 });
    assert_eq!(plan.shadow_blur, 5000);
    assert_eq!(plan.shadow_position, (1348, 3470));
    assert_eq!(plan.outer_border, Outline { x: 1367, y: 3489, width: 1264, height: 1010 });
    assert_eq!(plan.inner_border, Outline { x: 1368, y: 3490, width: 1262, height: 1008 });
}

#[test]
fn the_panel_on_an_export_that_was_scaled_down() {
    let canvas = Canvas { width: 1080, height: 1350, original_width: 4000, original_height: 5000 };
    let plan = plan_panel(&canvas, 3500, TextBox { width: 300_000, height: 80_000 }).unwrap();
    assert_eq!(plan.panel, Rect { x: 381, y: 942, width: 316, height: 85 });
    assert_eq!(plan.shadow_size, (326, 95));
    assert_eq!(plan.shadow_outline, Outline { x: 5, y: 5, width: 316, height: 85 });
    assert_eq!(plan.shadow_blur, 1350);
    assert_eq!(plan.shadow_position, (376, 937));
}

#[test]
fn an_empty_quote_has_no_panel() {
    assert_eq!(plan_panel(&preview(), 3500, TextBox { width: 0, height: 0 }), None);
    assert_eq!(plan_panel(&preview(), 3500, TextBox { width: 0, height: 98_820 }), None);
}

#[test]
fn a_panel_below_the_image_is_not_drawn() {
    let text_box = TextBox { width: 120_250, height: 98_820 };
    assert!(plan_panel(&preview(), 5009, text_box).is_some());
    assert_eq!(plan_panel(&preview(), 5010, text_box), None);
    assert_eq!(plan_panel(&preview(), u32::MAX, text_box), None);
}

#[test]
fn a_panel_without_a_size_is_not_drawn() {
    let canvas = Canvas { width: 10, height: 10, original_width: 4000, original_height: 5000 };
    assert_eq!(plan_panel(&canvas, 3500, TextBox { width: 1, height: 1 }), None);
    let canvas = Canvas { width: 0, height: 0, original_width: 4000, original_height: 5000 };
    assert_eq!(plan_panel(&canvas, 3500, TextBox { width: 1000, height: 1000 }), None);
}

#[test]
fn a_panel_wider_than_the_image_starts_at_its_edge() {
    let plan = plan_panel(&preview(), 3500, TextBox { width: 900_000, height: 98_820 }).unwrap();
    assert_eq!(plan.panel, Rect { x: 0, y: 349, width: 906, height: 100 });
    assert_eq!(plan.shadow_position, (-2, 347));
}

#[test]
fn a_quote_at_the_top_has_its_panel_at_the_top() {
    let plan = plan_panel(&preview(), 5, TextBox { width: 120_250, height: 98_820 }).unwrap();
    assert_eq!(plan.panel, Rect { x: 136, y: 0, width: 126, height: 100 });
    assert_eq!(plan.shadow_position, (134, -2));
}

#[test]
fn the_border_has_the_colour_of_the_last_opaque_corner() {
    let (outer, _) = border_colors(
        [1, 2, 3, 255],
        [4, 5, 6, 255],
        [7, 8, 9, 255],
        [10, 11, 12, 255],
        [0, 0, 0, 2],
    );
    assert_eq!(outer, [10, 11, 12, 255]);
}

#[test]
fn a_clear_corner_leaves_the_colour_alone() {
    let (outer, inner) = border_colors(
        [1, 2, 3, 255],
        [4, 5, 6, 0],
        [7, 8, 9, 0],
        [10, 11, 12, 0],
        [50, 60, 70, 0],
    );
    assert_eq!(outer, [1, 2, 3, 255]);
    assert_eq!(inner, [1, 2, 3, 255]);
}

#[test]
fn the_inner_border_is_darker() {
    let (outer, inner) = border_colors(
        [200, 200, 200, 255],
        [200, 200, 200, 255],
        [200, 200, 200, 255],
        [200, 200, 200, 255],
        [0, 0, 0, 128],
    );
    assert_eq!(outer, [200, 200, 200, 255]);
    assert!(inner[0] < 200 && inner[1] < 200 && inner[2] < 200);
    assert!(inner[0] > 90 && inner[0] < 110);
}

#[test]
fn the_border_colours_are_those_of_the_image_crate() {
    let corners = [[10u8, 200, 30, 120], [90, 80, 70, 60], [1, 2, 3, 200], [250, 240, 230, 77]];
    let darkening = [0u8, 0, 0, 2];
    let mut expected = image::Rgba(corners[0]);
    expected.blend(&image::Rgba(corners[1]));
    expected.blend(&image::Rgba(corners[2]));
    expected.blend(&image::Rgba(corners[3]));
    let mut darker = expected;
    darker.blend(&image::Rgba(darkening));
    let (outer, inner) = border_colors(corners[0], corners[1], corners[2], corners[3], darkening);
    assert_eq!(outer, expected.0);
    assert_eq!(inner, darker.0);
    assert_ne!(outer, corners[0]);
    assert_ne!(outer, corners[3]);
}
