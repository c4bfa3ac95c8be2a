use pix_render::batch::InstanceBatcher;
use pix_render::layout::{quad_corners, quad_vertex_attribute, record_attributes};
use pix_render::layout::{ATTRIBUTE_SCALARS, RECORD_ATTRIBUTES, RECORD_SCALARS, SCALAR_BYTES};
use pix_render::shader::{ShaderSet, SAMPLER_UNIT, SHADER_COUNT, UNIFORM_BINDING};
use pix_render::uniform::UNIFORM_SCALARS;
use pix_render::{GlColor, GlCommand, GlRenderMode, GlTransform, TextureAtlasBinder, TransformStack};

fn transform(n: u32) -> GlTransform {
    GlTransform::new_with_values(n, n + 1, n + 2, n + 3, n + 4, n + 5)
}

#[test]
fn render_mode_none_is_not_drawable() {
    assert!(!GlRenderMode::NoMode.is_drawable());
    assert!(GlRenderMode::PixCells.is_drawable());
    assert_eq!(GlRenderMode::NoMode.shader_index(), None);
    assert_eq!(GlRenderMode::PixCells.shader_index(), Some(0));
    assert!(GlRenderMode::PixCells.shader_index().unwrap() < SHADER_COUNT);
}

#[test]
fn shader_set_starts_without_a_program() {
    let set = ShaderSet::new();
    assert!(set.current() == GlRenderMode::NoMode);
    assert!(set.is_active(GlRenderMode::NoMode));
    assert!(!set.is_active(GlRenderMode::PixCells));
    assert_eq!(SAMPLER_UNIT, 0);
    assert_eq!(UNIFORM_BINDING, 0);
}

#[test]
fn color_keeps_its_channels() {
    let color = GlColor::new(1, 2, 3, 4);
    assert_eq!((color.r, color.g, color.b, color.a), (1, 2, 3, 4));
}

#[test]
fn transform_keeps_its_entries() {
    let t = GlTransform::new_with_values(1, 2, 3, 4, 5, 6);
    assert_eq!((t.m00, t.m10, t.m20, t.m01, t.m11, t.m21), (1, 2, 3, 4, 5, 6));
}

#[test]
fn transform_stack_starts_dirty_with_its_base() {
    let stack = TransformStack::new(transform(0));
    assert!(stack.is_dirty());
    assert_eq!(stack.depth(), 1);
    assert_eq!(stack.top(), transform(0));
}

#[test]
fn transform_stack_push_and_pop_mark_dirty() {
    let mut stack = TransformStack::new(transform(0));
    stack.mark_clean();
    assert!(!stack.is_dirty());
    stack.push(transform(10));
    assert!(stack.is_dirty());
    assert_eq!(stack.top(), transform(10));
    assert_eq!(stack.depth(), 2);
    stack.mark_clean();
    stack.push(transform(20));
    stack.mark_clean();
    assert_eq!(stack.pop(), transform(20));
    assert!(stack.is_dirty());
    assert_eq!(stack.top(), transform(10));
    stack.mark_clean();
    assert_eq!(stack.pop(), transform(10));
    assert_eq!(stack.top(), transform(0));
    assert_eq!(stack.depth(), 1);
}

#[test]
fn transform_stack_top_has_no_side_effects() {
    let mut stack = TransformStack::new(transform(0));
    stack.mark_clean();
    stack.top();
    stack.top();
    assert!(!stack.is_dirty());
    assert_eq!(stack.depth(), 1);
}

#[test]
fn texture_binder_reports_changes_only() {
    let mut binder = TextureAtlasBinder::new();
    assert_eq!(binder.current(), None);
    assert!(!binder.holds(0));
    assert!(binder.rebind(5));
    assert!(binder.holds(5));
    assert!(!binder.rebind(5));
    assert!(binder.rebind(6));
    assert_eq!(binder.current(), Some(6));
}

#[test]
fn batcher_counts_records_and_keeps_scalars() {
    let mut batch = InstanceBatcher::new(4);
    assert_eq!(batch.capacity(), 4);
    assert_eq!(batch.write_cursor(), None);
    assert!(!batch.reserve(2));
    batch.write(1);
    batch.write(2);
    assert!(!batch.reserve(2));
    batch.write(3);
    batch.write(4);
    assert_eq!(batch.capacity(), 4);
    assert_eq!(batch.write_cursor(), Some(3));
    assert!(batch.reserve(1));
    assert_eq!(batch.capacity(), 8);
    batch.write(5);
    assert_eq!(batch.instance_count(), 3);
    assert_eq!(batch.written(), vec![1, 2, 3, 4, 5]);
    let mut out = vec![GlCommand::EnableBlending];
    batch.flush_into(&mut out);
    assert_eq!(
        out,
        vec![
            GlCommand::EnableBlending,
            GlCommand::UploadInstances { scalars: vec![1, 2, 3, 4, 5] },
            GlCommand::DrawInstances { count: 3 },
        ]
    );
    assert_eq!(batch.instance_count(), 0);
    assert_eq!(batch.write_cursor(), None);
    assert_eq!(batch.capacity(), 8);
    batch.flush_into(&mut out);
    assert_eq!(out.len(), 3);
}

#[test]
fn batcher_of_one_scalar_grows_by_doubling() {
    let mut batch = InstanceBatcher::new(1);
    assert!(batch.reserve(5));
    assert_eq!(batch.capacity(), 8);
    assert_eq!(batch.pending(), 5);
    assert!(batch.has_room(0));
}

#[test]
fn batcher_knows_when_doubling_would_overflow() {
    let batch = InstanceBatcher::new(3);
    assert!(batch.has_room(3));
    assert!(batch.has_room(usize::MAX / 2));
    assert!(!batch.has_room(usize::MAX));
    assert!(!batch.has_room_after_flush(usize::MAX));
    let power = InstanceBatcher::new(1024);
    assert!(power.has_room(usize::MAX / 2 + 1));
    assert!(!power.has_room(usize::MAX / 2 + 2));
}

#[test]
fn record_layout_tiles_the_record() {
    let attributes = record_attributes();
    assert_eq!(attributes.len(), RECORD_ATTRIBUTES);
    let mut next = 0;
    for (i, attribute) in attributes.iter().enumerate() {
        assert_eq!(attribute.location, i as u32 + 1);
        assert_eq!(attribute.offset, next);
        assert_eq!(attribute.components, ATTRIBUTE_SCALARS);
        assert_eq!(attribute.stride, 64);
        assert_eq!(attribute.divisor, 1);
        next += attribute.components * SCALAR_BYTES;
    }
    assert_eq!(next, 64);
    assert_eq!(RECORD_SCALARS as i32 * SCALAR_BYTES, 64);
    assert_eq!(UNIFORM_SCALARS as i32 * SCALAR_BYTES, 48);
}

#[test]
fn quad_is_the_unit_square_as_a_fan() {
    let corners: Vec<f32> = quad_corners().into_iter().map(f32::from_bits).collect();
    assert_eq!(corners, vec![0.0, 0.0, 0.0, 1.0, 1.0, 1.0, 1.0, 0.0]);
    let attribute = quad_vertex_attribute();
    assert_eq!(attribute.components, 2);
    assert_eq!(attribute.stride, 8);
    assert_eq!(attribute.divisor, 0);
}
