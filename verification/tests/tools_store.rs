use chalkak::geometry::{Color, ImageBounds, ToolBounds, ToolPoint};
use chalkak::text_input::{resolve_text_input, TextInputAction, TextInputEvent};
use chalkak::tools::{
    BlurRegion, CropPreset, EditorTools, PenPoint, RectangleElement, RectangleOptions,
    TextFontFamily, ToolError, ToolKind, ToolObject, CROP_MIN_SIZE,
};

fn session() -> EditorTools {
    EditorTools::new()
}

#[test]
fn shared_stroke_style_updates_pen_arrow_rectangle_and_text_options() {
    let mut tools = session();

    tools.set_shared_stroke_color(Color::new(12, 24, 36));
    tools.set_shared_stroke_thickness(7);

    let pen = tools.pen_options();
    assert_eq!(pen.color, Color::new(12, 24, 36));
    assert_eq!(pen.thickness, 7);

    let arrow = tools.arrow_options();
    assert_eq!(arrow.color, Color::new(12, 24, 36));
    assert_eq!(arrow.thickness, 7);

    let rectangle = tools.rectangle_options();
    assert_eq!(rectangle.color, Color::new(12, 24, 36));
    assert_eq!(rectangle.thickness, 7);

    let text = tools.text_options();
    assert_eq!(text.color, Color::new(12, 24, 36));
}

#[test]
fn tool_blur_pen_blur_options_are_sticky_across_tool_switch() {
    let mut tools = session();
    assert_eq!(tools.active_tool(), ToolKind::Select);
    assert_eq!(tools.blur_intensity(), 55);

    tools.set_blur_intensity(84);
    tools.select_tool(ToolKind::Pen);
    assert_eq!(tools.blur_intensity(), 84);

    tools.select_tool(ToolKind::Blur);
    let blur_id = tools
        .add_blur(BlurRegion::new(3, 4, 20, 12))
        .expect("blur region should be valid");
    let blur = tools.get_blur(blur_id).expect("blur should exist");
    assert_eq!(blur.options.intensity, 84);
    assert_eq!(blur.region, BlurRegion::new(3, 4, 20, 12));
}

#[test]
fn tool_blur_pen_pen_stroke_records_points_and_sticky_options() {
    let mut tools = session();
    tools.set_pen_color(Color::new(12, 34, 56));
    tools.set_pen_opacity(88);
    tools.set_pen_thickness(7);

    let stroke_id = tools.begin_pen_stroke(ToolPoint::new(1, 1));
    tools
        .append_pen_point(stroke_id, ToolPoint::new(2, 2))
        .expect("pen stroke should be active");
    tools
        .append_pen_point(stroke_id, ToolPoint::new(3, 4))
        .expect("pen stroke should be active");
    tools
        .finish_pen_stroke(stroke_id)
        .expect("pen stroke should finish");

    let stroke = tools
        .get_pen_stroke(stroke_id)
        .expect("pen stroke should exist");

    assert_eq!(stroke.options.color, Color::new(12, 34, 56));
    assert_eq!(stroke.options.opacity, 88);
    assert_eq!(stroke.options.thickness, 7);
    assert_eq!(stroke.points.len(), 3);
    assert_eq!(stroke.points[1], PenPoint::new(2, 2));
    assert!(stroke.finalized);
    assert_eq!(tools.pen_stroke_count(), 1);
}

#[test]
fn tool_blur_pen_rejects_invalid_blur_region() {
    let mut tools = session();

    let err = tools
        .add_blur(BlurRegion::new(0, 0, 0, 10))
        .expect_err("zero width blur region should fail");
    assert!(matches!(err, ToolError::InvalidBlurRegion));
}

#[test]
fn tool_blur_pen_add_pen_stroke_from_points() {
    let mut tools = session();

    let stroke_id = tools
        .add_pen_stroke(&[
            ToolPoint::new(5, 5),
            ToolPoint::new(6, 7),
            ToolPoint::new(8, 10),
        ])
        .expect("non-empty stroke list should create pen object");

    let stroke = tools
        .get_pen_stroke(stroke_id)
        .expect("created stroke should be queryable");

    assert_eq!(stroke.points.len(), 3);
    assert_eq!(stroke.points[2], PenPoint::new(8, 10));
    assert!(stroke.finalized);
}

#[test]
fn tool_arrow_rect_arrow_sticky_options_and_geometry_are_preserved() {
    let mut tools = session();
    tools.select_tool(ToolKind::Arrow);
    tools.set_arrow_color(Color::new(10, 20, 30));
    tools.set_arrow_thickness(6);
    tools.set_arrow_head_size(16);

    let arrow_id = tools
        .add_arrow(ToolPoint::new(1, 1), ToolPoint::new(13, 9))
        .expect("valid arrow should create object");
    let arrow = tools
        .get_arrow(arrow_id)
        .expect("arrow should be stored after add");

    assert_eq!(arrow.start, ToolPoint::new(1, 1));
    assert_eq!(arrow.end, ToolPoint::new(13, 9));
    assert_eq!(arrow.options.color, Color::new(10, 20, 30));
    assert_eq!(arrow.options.thickness, 6);
    assert_eq!(arrow.options.head_size, 16);
    assert_eq!(tools.arrow_count(), 1);
}

#[test]
fn tool_arrow_rect_rejects_zero_length_arrow() {
    let mut tools = session();

    let err = tools
        .add_arrow(ToolPoint::new(4, 4), ToolPoint::new(4, 4))
        .expect_err("zero-length arrow should be invalid");
    assert!(matches!(err, ToolError::InvalidArrowGeometry));
}

#[test]
fn tool_arrow_rect_rectangle_is_normalized_from_drag_and_keeps_style() {
    let mut tools = session();
    tools.select_tool(ToolKind::Rectangle);
    tools.set_rectangle_color(Color::new(5, 15, 25));
    tools.set_rectangle_thickness(11);
    tools.set_rectangle_fill(true);
    tools.set_rectangle_border_radius(12);

    let rect_id = tools
        .add_rectangle(ToolPoint::new(30, 40), ToolPoint::new(12, 8))
        .expect("valid rectangle drag should create object");
    let rectangle = tools
        .get_rectangle(rect_id)
        .expect("rectangle should be stored after add");

    assert_eq!(rectangle.x, 12);
    assert_eq!(rectangle.y, 8);
    assert_eq!(rectangle.width, 18);
    assert_eq!(rectangle.height, 32);
    assert_eq!(rectangle.options.color, Color::new(5, 15, 25));
    assert_eq!(rectangle.options.thickness, 11);
    assert!(rectangle.options.fill_enabled);
    assert_eq!(rectangle.options.border_radius, 12);
    assert_eq!(tools.rectangle_count(), 1);
}

#[test]
fn tool_arrow_rect_rejects_flat_rectangle_drag() {
    let mut tools = session();

    let err = tools
        .add_rectangle(ToolPoint::new(0, 0), ToolPoint::new(10, 0))
        .expect_err("flat rectangle should be invalid");
    assert!(matches!(err, ToolError::InvalidRectangleGeometry));
}

#[test]
fn tool_blur_resize_clamps_geometry_and_anchor_to_image_bounds() {
    let mut tools = session();
    let blur_id = tools
        .add_blur(BlurRegion::new(10, 10, 20, 20))
        .expect("blur should be inserted");
    tools
        .resize_blur(
            blur_id,
            ToolBounds::new(90, 95, 50, 40),
            ImageBounds::new(100, 100),
        )
        .expect("resize should clamp within image");
    let blur = tools.get_blur(blur_id).expect("blur should exist");
    assert_eq!(blur.region, BlurRegion::new(90, 95, 10, 5));
    assert_eq!(blur.anchor, ToolPoint::new(90, 95));
}

#[test]
fn tool_crop_resize_enforces_min_size_and_bounds() {
    let mut tools = session();
    tools.select_tool(ToolKind::Crop);
    let crop_id = tools
        .add_crop_in_bounds(ToolPoint::new(10, 10), ToolPoint::new(80, 70), 100, 100)
        .expect("crop should be inserted");
    tools
        .resize_crop(
            crop_id,
            ToolBounds::new(70, 70, 40, 40),
            ImageBounds::new(100, 100),
        )
        .expect("crop resize should clamp to image bounds");
    let crop = tools.get_crop(crop_id).expect("crop should exist");
    assert_eq!(crop.x, 70);
    assert_eq!(crop.y, 70);
    assert_eq!(crop.width, 30);
    assert_eq!(crop.height, 30);

    let err = tools
        .resize_crop(
            crop_id,
            ToolBounds::new(70, 70, 10, 10),
            ImageBounds::new(100, 100),
        )
        .expect_err("crop smaller than minimum should fail");
    assert!(matches!(err, ToolError::InvalidCropGeometry));
}

#[test]
fn tool_crop_fixed_ratio_reduces_size_and_keeps_boundary_minimum() {
    let mut tools = session();
    tools.select_tool(ToolKind::Crop);
    tools.set_crop_preset(CropPreset::Ratio16x9);

    let crop_id = tools
        .add_crop_in_bounds(ToolPoint::new(0, 0), ToolPoint::new(160, 160), 1920, 1080)
        .expect("crop should remain within fixed ratio");
    let crop = tools
        .get_crop(crop_id)
        .expect("crop should be stored after add");

    assert_eq!(crop.x, 0);
    assert_eq!(crop.y, 0);
    assert_eq!(crop.width, 160);
    assert_eq!(crop.height, 90);
    assert_eq!(crop.options.preset, CropPreset::Ratio16x9);
    assert!(crop.supports_corner_handles_only());
    assert_eq!(tools.crop_count(), 1);
    assert!(crop.width >= CROP_MIN_SIZE);
    assert!(crop.height >= CROP_MIN_SIZE);
}

#[test]
fn tool_crop_rejects_too_small_or_invalid_after_ratio_and_keeps_bounds() {
    let mut tools = session();
    tools.select_tool(ToolKind::Crop);
    tools.set_crop_preset(CropPreset::Ratio9x16);

    let err = tools
        .add_crop_in_bounds(ToolPoint::new(0, 0), ToolPoint::new(20, 20), 100, 100)
        .expect_err("small drag should fail min-size constraint");
    assert!(matches!(err, ToolError::InvalidCropGeometry));

    tools.set_crop_preset(CropPreset::Ratio1x1);
    let crop_id = tools
        .add_crop_in_bounds(ToolPoint::new(-20, 5), ToolPoint::new(80, 40), 50, 30)
        .expect("bounded drag should be clamped and stored");
    let crop = tools
        .get_crop(crop_id)
        .expect("crop should be stored after bounded add");

    assert_eq!(crop.x, 0);
    assert_eq!(crop.y, 5);
    assert_eq!(crop.width, 25);
    assert_eq!(crop.height, 25);
    assert!(crop.width >= CROP_MIN_SIZE);
    assert!(crop.height >= CROP_MIN_SIZE);
}

#[test]
fn tool_crop_original_ratio_uses_canvas_size_and_requires_bounds() {
    let mut tools = session();
    tools.select_tool(ToolKind::Crop);
    tools.set_crop_preset(CropPreset::Original);

    let crop_id = tools
        .add_crop_in_bounds(ToolPoint::new(10, 15), ToolPoint::new(250, 400), 800, 450)
        .expect("original ratio should derive from canvas bounds");
    let crop = tools.get_crop(crop_id).expect("crop should be stored");

    assert_eq!(crop.width, 240);
    assert_eq!(crop.height, 135);
    assert_eq!(crop.options.preset, CropPreset::Original);

    let err = tools
        .add_crop_in_bounds(
            ToolPoint::new(0, 0),
            ToolPoint::new(100, 100),
            u32::MAX,
            u32::MAX,
        )
        .expect_err("original ratio requires bounded canvas");
    assert!(matches!(err, ToolError::InvalidCropGeometry));
}

#[test]
fn tool_move_pen_stroke_hits_edge_without_distorting_shape() {
    let mut tools = session();
    let stroke_id = tools
        .add_pen_stroke(&[
            ToolPoint::new(80, 10),
            ToolPoint::new(90, 20),
            ToolPoint::new(95, 25),
        ])
        .expect("stroke should be inserted");

    tools
        .move_object_by(stroke_id, 10, 0, 100, 100)
        .expect("move should clamp to image edge");
    let stroke = tools
        .get_pen_stroke(stroke_id)
        .expect("stroke should exist");
    assert_eq!(
        stroke.points,
        vec![
            PenPoint::new(84, 10),
            PenPoint::new(94, 20),
            PenPoint::new(99, 25),
        ]
    );

    tools
        .move_object_by(stroke_id, 10, 0, 100, 100)
        .expect("move at edge should stay in bounds");
    let stroke = tools
        .get_pen_stroke(stroke_id)
        .expect("stroke should exist");
    assert_eq!(
        stroke.points,
        vec![
            PenPoint::new(84, 10),
            PenPoint::new(94, 20),
            PenPoint::new(99, 25),
        ]
    );
}

#[test]
fn tool_move_arrow_hits_edge_without_shortening() {
    let mut tools = session();
    let arrow_id = tools
        .add_arrow(ToolPoint::new(80, 40), ToolPoint::new(95, 70))
        .expect("arrow should be inserted");

    tools
        .move_object_by(arrow_id, 10, 0, 100, 100)
        .expect("move should clamp to image edge");
    let arrow = tools.get_arrow(arrow_id).expect("arrow should exist");
    assert_eq!(arrow.start, ToolPoint::new(84, 40));
    assert_eq!(arrow.end, ToolPoint::new(99, 70));
}

#[test]
fn tool_move_blur_can_slide_along_edge() {
    let mut tools = session();
    let blur_id = tools
        .add_blur(BlurRegion::new(80, 10, 20, 20))
        .expect("blur should be inserted");

    tools
        .move_object_by(blur_id, 15, 12, 100, 100)
        .expect("move should clamp only blocked axis");
    let blur = tools.get_blur(blur_id).expect("blur should exist");
    assert_eq!(blur.region, BlurRegion::new(80, 22, 20, 20));
    assert_eq!(blur.anchor, ToolPoint::new(80, 22));
}

#[test]
fn tool_text_input_add_text_box_creates_active_edit_target() {
    let mut tools = session();
    tools.select_tool(ToolKind::Text);
    tools.set_text_color(Color::new(1, 2, 3));
    tools.set_text_size(19);
    tools.set_text_weight(700);
    tools.set_text_family(TextFontFamily::Serif);

    let text_id = tools.add_text_box(ToolPoint::new(14, 7));
    let text = tools.get_text(text_id).expect("text box should be stored");

    assert_eq!(tools.active_text_id(), Some(1));
    assert_eq!(tools.active_text_id(), Some(1));
    assert_eq!(tools.active_tool(), ToolKind::Text);
    assert_eq!(text.content, "");
    assert_eq!(text.x, 14);
    assert_eq!(text.y, 7);
    assert_eq!(text.options.color, Color::new(1, 2, 3));
    assert_eq!(text.options.size, 19);
    assert_eq!(text.options.weight, 700);
    assert_eq!(text.options.family, TextFontFamily::Serif);
    assert_eq!(tools.text_count(), 1);
}

#[test]
fn tool_text_input_handles_enter_shift_enter_and_character_input() {
    let mut tools = session();

    let text_id = tools.add_text_box(ToolPoint::new(3, 4));
    assert!(matches!(
        tools.apply_text_input(TextInputEvent::Character('h')),
        TextInputAction::InsertCharacter('h')
    ));
    assert_eq!(
        tools.apply_text_input(TextInputEvent::Enter),
        TextInputAction::InsertLineBreak
    );
    assert!(matches!(
        tools.apply_text_input(TextInputEvent::Character('i')),
        TextInputAction::InsertCharacter('i')
    ));
    assert_eq!(
        tools.apply_text_input(TextInputEvent::ShiftEnter),
        TextInputAction::InsertLineBreak
    );

    let text = tools.get_text(text_id).expect("text box should remain");
    assert_eq!(text.content, "h\ni\n");
}

#[test]
fn tool_text_input_backspace_deletes_previous_character() {
    let mut tools = session();
    let text_id = tools.add_text_box(ToolPoint::new(0, 0));
    let _ = tools.apply_text_input(TextInputEvent::Character('a'));
    let _ = tools.apply_text_input(TextInputEvent::Character('b'));
    assert_eq!(
        tools.apply_text_input(TextInputEvent::Backspace),
        TextInputAction::DeleteBackward
    );
    let text = tools.get_text(text_id).expect("text box should remain");
    assert_eq!(text.content, "a");
}

#[test]
fn tool_text_input_cursor_left_right_moves_caret_and_inserts_at_position() {
    let mut tools = session();
    let text_id = tools.add_text_box_with_text(ToolPoint::new(0, 0), "ab");
    assert_eq!(
        tools.apply_text_input(TextInputEvent::CursorLeft),
        TextInputAction::MoveCursor
    );
    assert_eq!(
        tools.apply_text_input(TextInputEvent::Character('X')),
        TextInputAction::InsertCharacter('X')
    );
    let text = tools.get_text(text_id).expect("text should exist");
    assert_eq!(text.content, "aXb");
}

#[test]
fn tool_text_input_cursor_up_down_moves_between_lines() {
    let mut tools = session();
    let text_id = tools.add_text_box_with_text(ToolPoint::new(0, 0), "aa\nbbbb");
    assert_eq!(
        tools.apply_text_input(TextInputEvent::CursorUp),
        TextInputAction::MoveCursor
    );
    assert_eq!(
        tools.apply_text_input(TextInputEvent::Character('X')),
        TextInputAction::InsertCharacter('X')
    );
    assert_eq!(
        tools.apply_text_input(TextInputEvent::CursorDown),
        TextInputAction::MoveCursor
    );
    assert_eq!(
        tools.apply_text_input(TextInputEvent::Character('Y')),
        TextInputAction::InsertCharacter('Y')
    );
    let text = tools.get_text(text_id).expect("text should exist");
    assert_eq!(text.content, "aaX\nbbbYb");
}

#[test]
fn tool_text_input_commit_or_cancel_text_mode_with_keyboard_commands() {
    let mut tools = session();

    tools.add_text_box(ToolPoint::new(1, 2));
    assert_eq!(
        resolve_text_input(TextInputEvent::CtrlEnter, true),
        TextInputAction::Commit
    );

    assert_eq!(
        tools.apply_text_input(TextInputEvent::CtrlEnter),
        TextInputAction::Commit
    );
    assert_eq!(
        tools.apply_text_input(TextInputEvent::Character('x')),
        TextInputAction::NoTextTarget
    );

    let id = tools.add_text_box(ToolPoint::new(1, 2));
    let _ = tools.apply_text_input(TextInputEvent::Character('x'));
    assert_eq!(tools.active_text_id(), Some(id));

    assert_eq!(
        tools.apply_text_input(TextInputEvent::Escape),
        TextInputAction::ExitFocus
    );
    assert_eq!(tools.active_text_id(), None);
}

#[test]
fn tool_text_input_copy_shortcut_requires_text_focus() {
    let mut tools = session();

    tools.add_text_box(ToolPoint::new(0, 0));
    assert_eq!(
        tools.apply_text_input(TextInputEvent::Character('a')),
        TextInputAction::InsertCharacter('a')
    );

    assert_eq!(
        tools.apply_text_input(TextInputEvent::CtrlC),
        TextInputAction::CopyRequested
    );
    assert_eq!(tools.active_text_focus_content(), Some("a"));
}

#[test]
fn tool_stack_pop_last_object_removes_most_recent_object() {
    let mut tools = session();
    let blur_id = tools
        .add_blur(BlurRegion::new(1, 2, 3, 4))
        .expect("blur should be inserted");
    assert_eq!(tools.blur_count(), 1);

    let popped = tools.pop_last_object().expect("object should be popped");
    assert!(matches!(popped, ToolObject::Blur(_)));
    assert_eq!(tools.blur_count(), 0);
    assert!(tools.get_blur(blur_id).is_none());
}

#[test]
fn tool_stack_push_object_restores_and_advances_next_id() {
    let mut tools = session();
    let object = ToolObject::Rectangle(RectangleElement::new(
        42,
        10,
        10,
        20,
        30,
        RectangleOptions::default(),
    ));
    tools.push_object(object);
    assert_eq!(tools.rectangle_count(), 1);
    let next_blur = tools
        .add_blur(BlurRegion::new(0, 0, 10, 10))
        .expect("add after push should use next id");
    assert!(next_blur > 42);
}

#[test]
fn rectangle_options_default_uses_rounded_border_radius() {
    let options = RectangleOptions::default();
    assert_eq!(options.border_radius, 8);
}

#[test]
fn rectangle_options_border_radius_is_settable() {
    let mut options = RectangleOptions::default();
    options.set_border_radius(14);
    assert_eq!(options.border_radius, 14);
}

#[test]
fn tool_lookup_errors_are_reported() {
    let mut tools = session();
    assert!(matches!(
        tools.move_object_by(99, 1, 1, 100, 100),
        Err(ToolError::ObjectNotFound)
    ));
    assert!(matches!(
        tools.append_pen_point(99, ToolPoint::new(0, 0)),
        Err(ToolError::ToolNotSelected)
    ));
    let _ = tools.begin_pen_stroke(ToolPoint::new(0, 0));
    assert!(matches!(
        tools.append_pen_point(99, ToolPoint::new(0, 0)),
        Err(ToolError::PenStrokeNotFound)
    ));
    assert!(matches!(
        tools.add_pen_stroke(&[]),
        Err(ToolError::EmptyPenStroke)
    ));
    assert!(matches!(
        tools.finish_pen_stroke(99),
        Err(ToolError::PenStrokeNotFound)
    ));
}

#[test]
fn finish_pen_stroke_clears_active_reference_regardless_of_success() {
    let mut tools = session();
    let stroke_id = tools.begin_pen_stroke(ToolPoint::new(0, 0));
    assert_eq!(tools.active_pen_stroke, Some(stroke_id));

    let err = tools
        .finish_pen_stroke(stroke_id + 1)
        .expect_err("dead id should fail");
    assert!(matches!(err, ToolError::PenStrokeNotFound));
    assert_eq!(tools.active_pen_stroke, None);
    assert!(matches!(
        tools.append_pen_point(stroke_id, ToolPoint::new(1, 1)),
        Err(ToolError::ToolNotSelected)
    ));

    let stroke_id = tools.begin_pen_stroke(ToolPoint::new(2, 2));
    tools
        .finish_pen_stroke(stroke_id)
        .expect("live stroke should finish");
    assert_eq!(tools.active_pen_stroke, None);
}

#[test]
fn replace_objects_recomputes_ids_and_drops_dangling_focus() {
    let mut tools = session();
    let text_id = tools.add_text_box(ToolPoint::new(0, 0));
    assert_eq!(tools.active_text_id(), Some(text_id));

    let object = ToolObject::Rectangle(RectangleElement::new(
        7,
        0,
        0,
        5,
        5,
        RectangleOptions::default(),
    ));
    tools.replace_objects(vec![object]);
    assert_eq!(tools.active_text_id(), None);
    assert_eq!(tools.rectangle_count(), 1);
    let id = tools
        .add_blur(BlurRegion::new(0, 0, 2, 2))
        .expect("blur should be inserted");
    assert_eq!(id, 8);
}
