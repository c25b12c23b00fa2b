use egui_render_wgpu::{
    createRenderTargetRectFromScreenSize, render_target_margins, Percent,
    RenderTargetFullscreenRect, RenderTargetRect, MARGIN_BOTTOM, MARGIN_LEFT, MARGIN_RIGHT,
    MARGIN_TOP,
};

#[test]
fn target_rect_of_a_square_screen() {
    let rect = createRenderTargetRectFromScreenSize(1000, 1000);
    assert_eq!(
        rect,
        RenderTargetRect {
            x: 70,
            y: 20,
            width: 490,
            height: 930,
            screen_width: 1000,
            screen_height: 1000,
        }
    );
}

#[test]
fn target_rect_rounds_each_share_down() {
    let rect = createRenderTargetRectFromScreenSize(1920, 1080);
    assert_eq!(rect.x, 134);
    assert_eq!(rect.y, 21);
    assert_eq!(rect.width, 940);
    assert_eq!(rect.height, 1004);
    assert_eq!(rect.screen_width, 1920);
    assert_eq!(rect.screen_height, 1080);
}

#[test]
fn target_rect_of_an_empty_screen_is_empty() {
    let rect = createRenderTargetRectFromScreenSize(0, 0);
    assert_eq!(
        rect,
        RenderTargetRect { x: 0, y: 0, width: 0, height: 0, screen_width: 0, screen_height: 0 }
    );
}

#[test]
fn target_rect_of_the_largest_screen_stays_inside() {
    let rect = createRenderTargetRectFromScreenSize(u32::MAX, u32::MAX);
    assert_eq!(rect.x, 300647710);
    assert_eq!(rect.width, 2104533974);
    assert_eq!(rect.y, 85899345);
    assert_eq!(rect.height, 3994319584);
    assert!(rect.x as u64 + rect.width as u64 <= u32::MAX as u64);
    assert!(rect.y as u64 + rect.height as u64 <= u32::MAX as u64);
}

#[test]
fn target_rect_lies_within_small_screens() {
    for width in 0..300u32 {
        for height in [0u32, 1, 7, 99, 100, 101, 255] {
            let rect = createRenderTargetRectFromScreenSize(width, height);
            assert!(rect.x + rect.width <= width);
            assert!(rect.y + rect.height <= height);
            assert_eq!(rect.x, width * 7 / 100);
            assert_eq!(rect.width, width * 49 / 100);
            assert_eq!(rect.y, height * 2 / 100);
            assert_eq!(rect.height, height * 93 / 100);
        }
    }
}

#[test]
fn margins_are_the_fixed_percentages() {
    let margins = render_target_margins();
    assert_eq!(margins.margin_top, Percent(2));
    assert_eq!(margins.margin_bottom, Percent(5));
    assert_eq!(margins.margin_left, Percent(7));
    assert_eq!(margins.margin_right, Percent(44));
    assert_eq!(
        (MARGIN_TOP, MARGIN_BOTTOM, MARGIN_LEFT, MARGIN_RIGHT),
        (2, 5, 7, 44)
    );
}

#[test]
fn other_margins_carve_other_rects() {
    let margins = RenderTargetFullscreenRect {
        margin_top: Percent(10),
        margin_bottom: Percent(90),
        margin_left: Percent(0),
        margin_right: Percent(50),
    };
    let rect = margins.rect(200, 50);
    assert_eq!(
        rect,
        RenderTargetRect { x: 0, y: 5, width: 100, height: 0, screen_width: 200, screen_height: 50 }
    );
}
