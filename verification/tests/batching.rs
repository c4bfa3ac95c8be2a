use pix_render::{GlColor, GlCommand, GlPix, GlRenderMode, GlTransform, UniformBlock};
use pix_render::scalar::{scalar_from_u32, SCALAR_MINUS_ONE, SCALAR_ONE, SCALAR_ZERO};

fn record(first: u32, size: usize) -> Vec<u32> {
    (0..size).map(|i| first + i as u32).collect()
}

fn draw(pix: &mut GlPix, scalars: &[u32]) -> Vec<GlCommand> {
    assert!(pix.can_prepare_draw(GlRenderMode::PixCells, scalars.len()));
    let commands = pix.prepare_draw(GlRenderMode::PixCells, scalars.len());
    for scalar in scalars {
        pix.write(*scalar);
    }
    commands
}

/// A renderer whose uniform block and program are up to date.
fn warm(width: i32, height: i32) -> GlPix {
    let mut pix = GlPix::new(width, height);
    draw(&mut pix, &[]);
    pix.flush();
    pix
}

fn is_flush_part(command: &GlCommand) -> bool {
    matches!(command, GlCommand::UploadInstances { .. } | GlCommand::DrawInstances { .. })
}

fn shift(by: u32) -> GlTransform {
    GlTransform::new_with_values(SCALAR_ONE, SCALAR_ZERO, by, SCALAR_ZERO, SCALAR_MINUS_ONE, by)
}

#[test]
fn new_renderer_is_empty() {
    let pix = GlPix::new(640, 480);
    assert_eq!(pix.instance_count(), 0);
    assert_eq!(pix.instance_buffer_at(), None);
    assert_eq!(pix.instance_buffer_capacity(), 1024);
    assert_eq!(pix.pending(), 0);
    assert!(pix.instance_buffer().is_empty());
    assert!(pix.render_mode() == GlRenderMode::NoMode);
    assert_eq!(pix.current_texture_atlas(), None);
    assert!(pix.transform_dirty());
    assert_eq!(pix.transform_depth(), 1);
    assert_eq!(pix.canvas_width(), 640);
    assert_eq!(pix.canvas_height(), 480);
    assert_eq!(pix.clear_color(), GlColor::new(SCALAR_ONE, SCALAR_ONE, SCALAR_ONE, SCALAR_ZERO));
}

#[test]
fn new_renderer_has_flipped_base_transform() {
    let pix = GlPix::new(640, 480);
    let base = pix.top_transform();
    assert_eq!(base.m00, 1.0f32.to_bits());
    assert_eq!(base.m10, 0.0f32.to_bits());
    assert_eq!(base.m20, 0.0f32.to_bits());
    assert_eq!(base.m01, 0.0f32.to_bits());
    assert_eq!(base.m11, (-1.0f32).to_bits());
    assert_eq!(base.m21, 480.0f32.to_bits());
}

#[test]
fn new_renderer_has_blank_uniforms_with_neutral_filter() {
    let pix = GlPix::new(640, 480);
    let one = 1.0f32.to_bits();
    assert_eq!(pix.ubo_contents().words(), vec![0, 0, 0, 0, 0, 0, 0, 0, one, one, one, one]);
}

#[test]
fn negative_canvas_measures_keep_their_bits() {
    let pix = GlPix::new(-1, -480);
    assert_eq!(pix.canvas_width(), (-1i32) as u32);
    assert_eq!(pix.canvas_height(), (-480i32) as u32);
    assert_eq!(pix.top_transform().m21, (-480.0f32).to_bits());
}

#[test]
fn first_draw_uploads_uniforms_and_selects_program() {
    let mut pix = GlPix::new(640, 480);
    let commands = draw(&mut pix, &record(7, 16));
    let block = UniformBlock::new(
        GlTransform::new_with_values(
            1.0f32.to_bits(),
            0,
            0,
            0,
            (-1.0f32).to_bits(),
            480.0f32.to_bits(),
        ),
        640.0f32.to_bits(),
        480.0f32.to_bits(),
        GlColor::new(SCALAR_ONE, SCALAR_ONE, SCALAR_ONE, SCALAR_ONE),
    );
    assert_eq!(
        commands,
        vec![
            GlCommand::UploadUniforms { block },
            GlCommand::UseShader { mode: GlRenderMode::PixCells },
        ]
    );
    assert_eq!(pix.ubo_contents(), block);
    assert!(!pix.transform_dirty());
    assert!(pix.render_mode() == GlRenderMode::PixCells);
    assert_eq!(pix.instance_count(), 1);
    assert_eq!(pix.instance_buffer_at(), Some(15));
    assert_eq!(pix.instance_buffer(), record(7, 16));
}

#[test]
fn prepare_draw_opens_a_record_that_writes_fill() {
    let mut pix = warm(64, 64);
    let commands = pix.prepare_draw(GlRenderMode::PixCells, 3);
    assert!(commands.is_empty());
    assert_eq!(pix.instance_count(), 1);
    assert_eq!(pix.pending(), 3);
    assert_eq!(pix.instance_buffer_at(), None);
    pix.write(10);
    assert_eq!(pix.pending(), 2);
    assert_eq!(pix.instance_buffer_at(), Some(0));
    pix.write(11);
    pix.write(12);
    assert_eq!(pix.pending(), 0);
    assert_eq!(pix.instance_buffer_at(), Some(2));
    assert_eq!(pix.instance_buffer(), vec![10, 11, 12]);
    assert_eq!(pix.instance_count(), 1);
}

#[test]
fn batch_accumulates_without_reaching_the_gpu() {
    let mut pix = warm(64, 64);
    let mut expected = Vec::new();
    for n in 0..40u32 {
        let scalars = record(n * 100, 16);
        let commands = draw(&mut pix, &scalars);
        assert!(commands.is_empty());
        expected.extend_from_slice(&scalars);
        assert_eq!(pix.instance_count(), n as usize + 1);
    }
    assert_eq!(pix.instance_count(), 40);
    assert_eq!(pix.instance_buffer(), expected);
    assert_eq!(pix.instance_buffer_at(), Some(40 * 16 - 1));
    assert_eq!(
        pix.flush(),
        vec![
            GlCommand::UploadInstances { scalars: expected },
            GlCommand::DrawInstances { count: 40 },
        ]
    );
}

#[test]
fn records_of_different_sizes_share_a_batch() {
    let mut pix = warm(64, 64);
    assert!(draw(&mut pix, &[1, 2, 3]).is_empty());
    assert!(draw(&mut pix, &[]).is_empty());
    assert!(draw(&mut pix, &[4]).is_empty());
    assert_eq!(pix.instance_count(), 3);
    assert_eq!(pix.instance_buffer(), vec![1, 2, 3, 4]);
}

#[test]
fn flush_resets_count_and_cursor() {
    let mut pix = warm(64, 64);
    draw(&mut pix, &record(1, 16));
    draw(&mut pix, &record(2, 16));
    let commands = pix.flush();
    assert_eq!(commands.len(), 2);
    assert_eq!(pix.instance_count(), 0);
    assert_eq!(pix.instance_buffer_at(), None);
    assert!(pix.instance_buffer().is_empty());
    assert_eq!(pix.instance_buffer_capacity(), 1024);
}

#[test]
fn flush_of_empty_batch_asks_for_nothing() {
    let mut pix = GlPix::new(64, 64);
    assert!(pix.flush().is_empty());
    assert!(pix.flush().is_empty());
    assert_eq!(pix.instance_count(), 0);
    assert_eq!(pix.instance_buffer_at(), None);
    assert!(pix.transform_dirty());
}

#[test]
fn second_flush_asks_for_nothing() {
    let mut pix = warm(64, 64);
    draw(&mut pix, &record(5, 16));
    assert_eq!(pix.flush().len(), 2);
    assert!(pix.flush().is_empty());
}

#[test]
fn flush_keeps_grown_capacity() {
    let mut pix = warm(64, 64);
    draw(&mut pix, &record(0, 1500));
    assert_eq!(pix.instance_buffer_capacity(), 2048);
    pix.flush();
    assert_eq!(pix.instance_buffer_capacity(), 2048);
    assert!(draw(&mut pix, &record(0, 1500)).is_empty());
}

#[test]
fn first_mode_selection_finds_nothing_to_flush() {
    let mut pix = GlPix::new(64, 64);
    pix.bind_texture_atlas(3);
    let opening = pix.prepare_draw(GlRenderMode::PixCells, 0);
    assert_eq!(opening.len(), 2);
    assert_eq!(opening.iter().filter(|c| is_flush_part(c)).count(), 0);
    assert_eq!(opening.last(), Some(&GlCommand::UseShader { mode: GlRenderMode::PixCells }));
    assert!(pix.render_mode() == GlRenderMode::PixCells);
    assert_eq!(pix.instance_count(), 1);
}

#[test]
fn same_mode_does_not_select_the_program_again() {
    let mut pix = warm(64, 64);
    let commands = draw(&mut pix, &record(0, 16));
    assert!(!commands.iter().any(|c| matches!(c, GlCommand::UseShader { .. })));
}

#[test]
fn texture_rebind_of_bound_handle_is_no_op() {
    let mut pix = warm(64, 64);
    assert_eq!(pix.bind_texture_atlas(9), vec![GlCommand::BindTexture { texture: 9 }]);
    draw(&mut pix, &record(0, 16));
    draw(&mut pix, &record(16, 16));
    assert!(pix.bind_texture_atlas(9).is_empty());
    assert_eq!(pix.instance_count(), 2);
    assert_eq!(pix.instance_buffer_at(), Some(31));
    assert_eq!(pix.current_texture_atlas(), Some(9));
}

#[test]
fn texture_rebind_of_bound_handle_is_allowed_inside_a_record() {
    let mut pix = warm(64, 64);
    pix.bind_texture_atlas(9);
    pix.prepare_draw(GlRenderMode::PixCells, 2);
    pix.write(1);
    assert!(pix.bind_texture_atlas(9).is_empty());
    assert_eq!(pix.pending(), 1);
    pix.write(2);
    assert_eq!(pix.instance_buffer(), vec![1, 2]);
}

#[test]
fn texture_change_flushes_once_then_binds() {
    let mut pix = warm(64, 64);
    pix.bind_texture_atlas(1);
    let a = record(100, 16);
    let b = record(200, 16);
    draw(&mut pix, &a);
    draw(&mut pix, &b);
    assert!(pix.bind_texture_atlas(1).is_empty());
    let commands = pix.bind_texture_atlas(2);
    let mut both = a.clone();
    both.extend_from_slice(&b);
    assert_eq!(
        commands,
        vec![
            GlCommand::UploadInstances { scalars: both },
            GlCommand::DrawInstances { count: 2 },
            GlCommand::BindTexture { texture: 2 },
        ]
    );
    assert_eq!(pix.instance_count(), 0);
    assert_eq!(pix.current_texture_atlas(), Some(2));
    assert!(draw(&mut pix, &a).is_empty());
}

#[test]
fn first_texture_bind_on_empty_batch_only_binds() {
    let mut pix = GlPix::new(64, 64);
    assert_eq!(pix.bind_texture_atlas(4), vec![GlCommand::BindTexture { texture: 4 }]);
}

#[test]
fn sixty_three_records_fit_without_growth() {
    let mut pix = warm(64, 64);
    for n in 0..63u32 {
        let commands = draw(&mut pix, &record(n, 16));
        assert!(commands.is_empty());
        assert_eq!(pix.instance_buffer_capacity(), 1024);
    }
    assert_eq!(pix.instance_count(), 63);
    assert_eq!(pix.instance_buffer_at(), Some(1007));
}

#[test]
fn record_that_fills_the_buffer_to_its_end_fits() {
    let mut pix = warm(64, 64);
    for n in 0..63u32 {
        draw(&mut pix, &record(n, 16));
    }
    let commands = draw(&mut pix, &record(63, 16));
    assert!(commands.is_empty());
    assert_eq!(pix.instance_buffer_capacity(), 1024);
    assert_eq!(pix.instance_buffer_at(), Some(1023));
    assert_eq!(pix.instance_count(), 64);
}

#[test]
fn record_past_the_end_doubles_capacity_once() {
    let mut pix = warm(64, 64);
    let mut expected = Vec::new();
    for n in 0..64u32 {
        let scalars = record(n * 16, 16);
        draw(&mut pix, &scalars);
        expected.extend_from_slice(&scalars);
    }
    let commands = pix.prepare_draw(GlRenderMode::PixCells, 16);
    assert_eq!(commands, vec![GlCommand::ResizeInstanceStorage { capacity: 2048 }]);
    assert_eq!(pix.instance_buffer_capacity(), 2048);
    assert_eq!(pix.instance_count(), 65);
    assert_eq!(pix.instance_buffer(), expected);
    for scalar in record(5000, 16) {
        pix.write(scalar);
    }
    expected.extend_from_slice(&record(5000, 16));
    assert_eq!(pix.instance_buffer(), expected);
    assert_eq!(pix.instance_buffer_at(), Some(1039));
}

#[test]
fn growth_keeps_written_scalars() {
    let mut pix = warm(64, 64);
    let first = record(1, 1000);
    draw(&mut pix, &first);
    let second = record(7000, 100);
    let commands = draw(&mut pix, &second);
    assert_eq!(commands, vec![GlCommand::ResizeInstanceStorage { capacity: 2048 }]);
    let mut expected = first.clone();
    expected.extend_from_slice(&second);
    assert_eq!(pix.instance_buffer(), expected);
    assert_eq!(pix.instance_count(), 2);
    assert_eq!(
        pix.flush(),
        vec![
            GlCommand::UploadInstances { scalars: expected },
            GlCommand::DrawInstances { count: 2 },
        ]
    );
}

#[test]
fn large_record_doubles_until_it_fits() {
    let mut pix = warm(64, 64);
    let commands = draw(&mut pix, &record(0, 5000));
    assert_eq!(commands, vec![GlCommand::ResizeInstanceStorage { capacity: 8192 }]);
    assert_eq!(pix.instance_buffer_capacity(), 8192);
    assert_eq!(pix.instance_buffer(), record(0, 5000));
}

#[test]
fn record_of_exactly_twice_the_capacity_doubles_once() {
    let mut pix = warm(64, 64);
    let commands = draw(&mut pix, &record(0, 2048));
    assert_eq!(commands, vec![GlCommand::ResizeInstanceStorage { capacity: 2048 }]);
    let commands = draw(&mut pix, &[1]);
    assert_eq!(commands, vec![GlCommand::ResizeInstanceStorage { capacity: 4096 }]);
}

#[test]
fn transform_change_flushes_before_new_uniforms() {
    let mut pix = GlPix::new(320, 200);
    let a = shift(2.0f32.to_bits());
    let b = shift(3.0f32.to_bits());
    pix.push_transform(a);
    let opening = pix.prepare_draw(GlRenderMode::PixCells, 16);
    assert_eq!(opening.len(), 2);
    assert!(matches!(opening[0], GlCommand::UploadUniforms { block } if block.transform == a));
    let scalars = record(40, 16);
    for scalar in &scalars {
        pix.write(*scalar);
    }
    pix.push_transform(b);
    assert!(pix.transform_dirty());
    assert_eq!(pix.instance_count(), 1);
    let commands = pix.prepare_draw(GlRenderMode::PixCells, 16);
    let block = UniformBlock::new(
        b,
        320.0f32.to_bits(),
        200.0f32.to_bits(),
        GlColor::new(SCALAR_ONE, SCALAR_ONE, SCALAR_ONE, SCALAR_ONE),
    );
    assert_eq!(
        commands,
        vec![
            GlCommand::UploadInstances { scalars },
            GlCommand::DrawInstances { count: 1 },
            GlCommand::UploadUniforms { block },
        ]
    );
    assert!(!pix.transform_dirty());
    assert_eq!(pix.instance_count(), 1);
    assert_eq!(pix.instance_buffer_at(), None);
    assert_eq!(pix.ubo_contents(), block);
}

#[test]
fn pop_marks_dirty_and_restores_previous_transform() {
    let mut pix = warm(64, 64);
    let base = pix.top_transform();
    let a = shift(9);
    pix.push_transform(a);
    assert_eq!(pix.top_transform(), a);
    assert_eq!(pix.transform_depth(), 2);
    draw(&mut pix, &[1]);
    assert!(!pix.transform_dirty());
    pix.pop_transform();
    assert!(pix.transform_dirty());
    assert_eq!(pix.top_transform(), base);
    assert_eq!(pix.transform_depth(), 1);
    let commands = pix.prepare_draw(GlRenderMode::PixCells, 0);
    assert_eq!(commands.len(), 3);
    assert_eq!(commands[1], GlCommand::DrawInstances { count: 1 });
    assert!(matches!(commands[2], GlCommand::UploadUniforms { block } if block.transform == base));
}

#[test]
fn push_and_pop_leave_the_batch_alone() {
    let mut pix = warm(64, 64);
    draw(&mut pix, &[1, 2]);
    pix.push_transform(shift(1));
    pix.pop_transform();
    assert_eq!(pix.instance_count(), 1);
    assert_eq!(pix.instance_buffer(), vec![1, 2]);
}

#[test]
fn clear_flushes_then_clears_with_color_and_filter() {
    let mut pix = warm(64, 64);
    let color = GlColor::new(
        0.5f32.to_bits(),
        0.25f32.to_bits(),
        1.0f32.to_bits(),
        0.75f32.to_bits(),
    );
    let filter = GlColor::new(
        0.5f32.to_bits(),
        2.0f32.to_bits(),
        0.0f32.to_bits(),
        1.0f32.to_bits(),
    );
    pix.set_clear_color(color);
    pix.set_color_filter(filter);
    draw(&mut pix, &[8, 9]);
    let commands = pix.clear();
    assert_eq!(
        commands,
        vec![
            GlCommand::UploadInstances { scalars: vec![8, 9] },
            GlCommand::DrawInstances { count: 1 },
            GlCommand::Clear { color, filter },
        ]
    );
    assert_eq!(pix.instance_count(), 0);
    if let GlCommand::Clear { color, filter } = commands[2] {
        let tinted = [
            f32::from_bits(color.r) * f32::from_bits(filter.r),
            f32::from_bits(color.g) * f32::from_bits(filter.g),
            f32::from_bits(color.b) * f32::from_bits(filter.b),
            f32::from_bits(color.a) * f32::from_bits(filter.a),
        ];
        assert_eq!(tinted, [0.25, 0.5, 0.0, 0.75]);
    }
}

#[test]
fn clear_of_new_renderer_uses_white_transparent_under_neutral_filter() {
    let mut pix = GlPix::new(64, 64);
    let one = 1.0f32.to_bits();
    assert_eq!(
        pix.clear(),
        vec![GlCommand::Clear {
            color: GlColor::new(one, one, one, 0),
            filter: GlColor::new(one, one, one, one),
        }]
    );
}

#[test]
fn set_clear_color_has_no_side_effects() {
    let mut pix = warm(64, 64);
    draw(&mut pix, &[1]);
    let color = GlColor::new(1, 2, 3, 4);
    pix.set_clear_color(color);
    assert_eq!(pix.clear_color(), color);
    assert_eq!(pix.instance_count(), 1);
    assert!(!pix.transform_dirty());
    assert_eq!(pix.instance_buffer(), vec![1]);
}

#[test]
fn color_filter_reaches_the_next_uniform_upload() {
    let mut pix = warm(64, 64);
    let filter = GlColor::new(5, 6, 7, 8);
    pix.set_color_filter(filter);
    assert!(draw(&mut pix, &[1]).is_empty());
    pix.push_transform(shift(1));
    let commands = pix.prepare_draw(GlRenderMode::PixCells, 0);
    match commands[2] {
        GlCommand::UploadUniforms { block } => {
            assert_eq!(block.color_filter, filter);
            assert_eq!(&block.words()[8..], &[5, 6, 7, 8]);
        }
        _ => panic!("the uniform block was not uploaded"),
    }
}

#[test]
fn bind_selects_target_and_viewport_only() {
    let mut pix = warm(800, 600);
    draw(&mut pix, &[1]);
    assert_eq!(pix.bind(), vec![GlCommand::BindTarget { width: 800, height: 600 }]);
    assert_eq!(pix.instance_count(), 1);
    assert_eq!(pix.instance_buffer(), vec![1]);
}

#[test]
fn can_prepare_draw_refuses_what_prepare_draw_excludes() {
    let mut pix = warm(64, 64);
    assert!(!pix.can_prepare_draw(GlRenderMode::NoMode, 16));
    assert!(pix.can_prepare_draw(GlRenderMode::PixCells, 16));
    assert!(!pix.can_prepare_draw(GlRenderMode::PixCells, usize::MAX));
    assert!(!pix.can_prepare_draw(GlRenderMode::PixCells, usize::MAX / 2 + 2));
    pix.prepare_draw(GlRenderMode::PixCells, 2);
    assert!(!pix.can_prepare_draw(GlRenderMode::PixCells, 16));
    pix.write(0);
    pix.write(0);
    assert!(pix.can_prepare_draw(GlRenderMode::PixCells, 16));
}

#[test]
fn setup_lists_storage_quad_layout_and_blending() {
    let pix = GlPix::new(64, 64);
    let commands = pix.setup();
    let one = 1.0f32.to_bits();
    assert_eq!(commands.len(), 9);
    assert_eq!(commands[0], GlCommand::ResizeInstanceStorage { capacity: 1024 });
    assert_eq!(commands[1], GlCommand::LoadQuad { corners: vec![0, 0, 0, one, one, one, one, 0] });
    assert_eq!(commands[2], GlCommand::AllocateUniforms { room: 12, binding: 0 });
    match commands[3] {
        GlCommand::DescribeQuad { attribute } => {
            assert_eq!(
                (attribute.location, attribute.components, attribute.stride, attribute.offset,
                 attribute.divisor),
                (0, 2, 8, 0, 0)
            );
        }
        _ => panic!("the quad was not described"),
    }
    for i in 0..4 {
        match commands[4 + i] {
            GlCommand::DescribeInstances { attribute } => {
                assert_eq!(attribute.location, i as u32 + 1);
                assert_eq!(attribute.components, 4);
                assert_eq!(attribute.stride, 64);
                assert_eq!(attribute.offset, 16 * i as i32);
                assert_eq!(attribute.divisor, 1);
            }
            _ => panic!("part {} of the record was not described", i),
        }
    }
    assert_eq!(commands[8], GlCommand::EnableBlending);
}

#[test]
fn uniform_words_follow_the_layout() {
    let block = UniformBlock::new(
        GlTransform::new_with_values(1, 2, 3, 5, 6, 7),
        4,
        8,
        GlColor::new(9, 10, 11, 12),
    );
    assert_eq!(block.words(), vec![1, 2, 3, 4, 5, 6, 7, 8, 9, 10, 11, 12]);
}

#[test]
fn canvas_size_is_uploaded_as_scalars() {
    let mut pix = GlPix::new(1920, 1080);
    let commands = pix.prepare_draw(GlRenderMode::PixCells, 0);
    match commands[0] {
        GlCommand::UploadUniforms { block } => {
            assert_eq!(block.canvas_width, scalar_from_u32(1920));
            assert_eq!(f32::from_bits(block.canvas_width), 1920.0);
            assert_eq!(f32::from_bits(block.canvas_height), 1080.0);
        }
        _ => panic!("the uniform block was not uploaded"),
    }
}

#[test]
fn sync_if_dirty_flushes_uploads_and_cleans() {
    let mut pix = warm(100, 50);
    assert!(pix.sync_if_dirty().is_empty());
    draw(&mut pix, &[4, 5]);
    let t = shift(77);
    pix.push_transform(t);
    let commands = pix.sync_if_dirty();
    let block = UniformBlock::new(
        t,
        100.0f32.to_bits(),
        50.0f32.to_bits(),
        GlColor::new(SCALAR_ONE, SCALAR_ONE, SCALAR_ONE, SCALAR_ONE),
    );
    assert_eq!(
        commands,
        vec![
            GlCommand::UploadInstances { scalars: vec![4, 5] },
            GlCommand::DrawInstances { count: 1 },
            GlCommand::UploadUniforms { block },
        ]
    );
    assert!(!pix.transform_dirty());
    assert_eq!(pix.instance_count(), 0);
    assert!(pix.sync_if_dirty().is_empty());
}

#[test]
fn sync_on_empty_batch_only_uploads() {
    let mut pix = GlPix::new(100, 50);
    let commands = pix.sync_if_dirty();
    assert_eq!(commands.len(), 1);
    assert!(matches!(commands[0], GlCommand::UploadUniforms { .. }));
}
