//! What holds of the renderer over whole runs of calls.

use vstd::prelude::*;
use crate::batch::lemma_grown_capacity_bounds;
use crate::command::{changes_state, draw_calls, no_flush, Command};
use crate::mode::GlRenderMode;
use crate::pix::PixView;

verus! {

/// The state after the scalars of `scalars` have been written in order.
pub open spec fn write_all(state: PixView, scalars: Seq<u32>) -> PixView
    decreases scalars.len(),
{
    if scalars.len() == 0 {
        state
    } else {
        write_all(state, scalars.drop_last()).wrote(scalars.last())
    }
}

/// The state after one record has been drawn: `prepare_draw` for its
/// length, then a write for each of its scalars.
pub open spec fn draw_one(state: PixView, mode: GlRenderMode, record: Seq<u32>) -> PixView {
    write_all(state.prepared(mode, record.len()), record)
}

/// The state after the records of `records` have been drawn in order.
pub open spec fn draw_all(state: PixView, mode: GlRenderMode, records: Seq<Seq<u32>>) -> PixView
    decreases records.len(),
{
    if records.len() == 0 {
        state
    } else {
        draw_one(draw_all(state, mode, records.drop_last()), mode, records.last())
    }
}

/// All that the GPU is asked to do while the records of `records` are drawn
/// in order.
pub open spec fn draw_all_commands(
    state: PixView,
    mode: GlRenderMode,
    records: Seq<Seq<u32>>,
) -> Seq<Command>
    decreases records.len(),
{
    if records.len() == 0 {
        Seq::empty()
    } else {
        draw_all_commands(state, mode, records.drop_last()) + draw_all(
            state,
            mode,
            records.drop_last(),
        ).prepare_commands(mode, records.last().len())
    }
}

/// The scalars of all records of `records`, in order.
pub open spec fn all_scalars(records: Seq<Seq<u32>>) -> Seq<u32>
    decreases records.len(),
{
    if records.len() == 0 {
        Seq::empty()
    } else {
        all_scalars(records.drop_last()) + records.last()
    }
}

/// Whether a draw in mode `mode` continues the batch of `state`: the
/// transform has not been touched, the mode is the active one, and no
/// record is open.
pub open spec fn continues_batch(state: PixView, mode: GlRenderMode) -> bool {
    &&& state.wf()
    &&& !state.stack.dirty
    &&& state.render_mode == mode
    &&& state.batch.pending == 0
}

/// Writing as many scalars as the open record still lacks completes it and
/// changes nothing but what was written.
pub proof fn lemma_write_all(state: PixView, scalars: Seq<u32>)
    requires
        state.wf(),
        state.batch.pending >= scalars.len(),
    ensures
        write_all(state, scalars).wf(),
        write_all(state, scalars) == (PixView {
            batch: crate::batch::BatchView {
                written: state.batch.written + scalars,
                pending: (state.batch.pending - scalars.len()) as nat,
                ..state.batch
            },
            ..state
        }),
    decreases scalars.len(),
{
    if scalars.len() == 0 {
        assert(state.batch.written + scalars =~= state.batch.written);
    } else {
        lemma_write_all(state, scalars.drop_last());
        assert((state.batch.written + scalars.drop_last()).push(scalars.last())
            =~= state.batch.written + scalars);
    }
}

/// Every call keeps a well-formed state well-formed.
pub proof fn lemma_states_stay_well_formed(
    state: PixView,
    mode: GlRenderMode,
    size: nat,
    texture: u32,
)
    requires
        state.wf(),
    ensures
        state.flushed().wf(),
        state.synced().wf(),
        state.switched(mode).wf(),
        state.batch.pending == 0 ==> state.reserved(size).wf(),
        state.batch.pending == 0 ==> state.prepared(mode, size).wf(),
        state.batch.pending > 0 ==> state.wrote(0).wf(),
        state.rebound(texture).wf(),
        state.pushed(state.stack.top()).wf(),
        state.stack.transforms.len() > 1 ==> state.popped().wf(),
{
    lemma_grown_capacity_bounds(state.batch.capacity, state.batch.written.len() + size);
    lemma_grown_capacity_bounds(state.batch.capacity, size);
    let ready = state.synced().switched(mode);
    lemma_grown_capacity_bounds(ready.batch.capacity, ready.batch.written.len() + size);
}

/// While the mode, the transform and the texture stay as they are, drawing
/// asks for no upload of instances and no draw call, however many records
/// are drawn: each is counted and its scalars are added to the batch.
pub proof fn lemma_batch_accumulates(state: PixView, mode: GlRenderMode, records: Seq<Seq<u32>>)
    requires
        continues_batch(state, mode),
    ensures
        no_flush(draw_all_commands(state, mode, records)),
        draw_calls(draw_all_commands(state, mode, records)) == 0,
        continues_batch(draw_all(state, mode, records), mode),
        draw_all(state, mode, records).batch.instance_count == state.batch.instance_count
            + records.len(),
        draw_all(state, mode, records).batch.written == state.batch.written + all_scalars(
            records,
        ),
        draw_all(state, mode, records).texture == state.texture,
        draw_all(state, mode, records).uniforms == state.uniforms,
        draw_all(state, mode, records).stack == state.stack,
    decreases records.len(),
{
    if records.len() == 0 {
        assert(state.batch.written + all_scalars(records) =~= state.batch.written);
    } else {
        let earlier = records.drop_last();
        let record = records.last();
        lemma_batch_accumulates(state, mode, earlier);
        let before = draw_all(state, mode, earlier);
        let opened = before.prepared(mode, record.len());
        lemma_states_stay_well_formed(before, mode, record.len(), 0);
        lemma_write_all(opened, record);
        let asked = before.prepare_commands(mode, record.len());
        assert(asked =~= before.reserve_commands(record.len()));
        lemma_draw_calls_of_quiet(asked);
        lemma_draw_calls_concat(draw_all_commands(state, mode, earlier), asked);
        assert((state.batch.written + all_scalars(earlier)) + record =~= state.batch.written
            + all_scalars(records));
    }
}

/// After a run of draws that began with an empty batch, the count of
/// instances is the number of records drawn.
pub proof fn lemma_count_is_number_of_draws(
    state: PixView,
    mode: GlRenderMode,
    records: Seq<Seq<u32>>,
)
    requires
        continues_batch(state, mode),
        state.batch.instance_count == 0,
    ensures
        draw_all(state, mode, records).batch.instance_count == records.len(),
        draw_all(state, mode, records).batch.written == all_scalars(records),
        draw_all(state, mode, records).batch.complete_records() == records.len(),
{
    lemma_batch_accumulates(state, mode, records);
    assert(state.batch.written + all_scalars(records) =~= all_scalars(records));
}

/// A list without any part of a flush holds no draw call.
pub proof fn lemma_draw_calls_of_quiet(commands: Seq<Command>)
    requires
        no_flush(commands),
    ensures
        draw_calls(commands) == 0,
    decreases commands.len(),
{
    if commands.len() > 0 {
        assert(!commands[commands.len() - 1].is_flush());
        lemma_draw_calls_of_quiet(commands.drop_last());
    }
}

/// The draw calls of two lists in a row are those of the one and those of
/// the other.
pub proof fn lemma_draw_calls_concat(first: Seq<Command>, second: Seq<Command>)
    ensures
        draw_calls(first + second) == draw_calls(first) + draw_calls(second),
        no_flush(first) && no_flush(second) ==> no_flush(first + second),
    decreases second.len(),
{
    if second.len() == 0 {
        assert(first + second =~= first);
    } else {
        lemma_draw_calls_concat(first, second.drop_last());
        assert((first + second).drop_last() =~= first + second.drop_last());
        assert((first + second).last() == second.last());
    }
}

/// A flush leaves no instance and no written scalar behind, whatever the
/// state was, and a second flush asks for nothing.
pub proof fn lemma_flush_resets(state: PixView)
    ensures
        state.flushed().batch.instance_count == 0,
        state.flushed().batch.cursor().is_none(),
        state.flushed().batch.written.len() == 0,
        state.flushed().batch.capacity == state.batch.capacity,
        state.flushed().flush_commands() == Seq::<Command>::empty(),
        state.flushed().flushed() == state.flushed(),
{
}

/// A flush of an empty batch asks for nothing and changes nothing.
pub proof fn lemma_flush_of_empty_batch(state: PixView)
    requires
        state.wf(),
        state.batch.instance_count == 0,
    ensures
        state.flush_commands() == Seq::<Command>::empty(),
        state.flushed() == state,
{
    assert(state.batch.written =~= Seq::<u32>::empty());
}

/// A flush of a batch that holds instances asks for one upload of all that
/// was written and then for one draw call for all instances.
pub proof fn lemma_flush_is_one_draw(state: PixView)
    requires
        state.batch.instance_count > 0,
    ensures
        state.flush_commands() == seq![
            Command::UploadInstances { scalars: state.batch.written },
            Command::DrawInstances { count: state.batch.instance_count },
        ],
        draw_calls(state.flush_commands()) == 1,
{
    let commands = state.flush_commands();
    assert(commands.drop_last() =~= seq![
        Command::UploadInstances { scalars: state.batch.written },
    ]);
    assert(commands.drop_last().drop_last() =~= Seq::<Command>::empty());
    assert(draw_calls(commands.drop_last().drop_last()) == 0);
    assert(draw_calls(commands.drop_last()) == 0);
}

/// `prepare_draw` with a mode that is not the active one, on a batch that
/// holds instances, flushes exactly once, and does so before the program
/// changes: the upload and the draw call come first, then the uniform block
/// if it was stale, then the change of program.
pub proof fn lemma_mode_change_flushes_once(state: PixView, mode: GlRenderMode, size: nat)
    requires
        state.wf(),
        state.render_mode != mode,
        state.batch.instance_count > 0,
    ensures
        draw_calls(state.prepare_commands(mode, size)) == 1,
        state.prepare_commands(mode, size) == state.flush_commands() + (if state.stack.dirty {
            seq![Command::UploadUniforms { block: state.fresh_uniforms() }]
        } else {
            Seq::empty()
        }) + seq![Command::UseShader { mode }] + state.flushed().reserve_commands(size),
        state.prepared(mode, size).render_mode == mode,
        state.prepared(mode, size).batch.instance_count == 1,
        state.prepared(mode, size).batch.written.len() == 0,
{
    let flush = state.flush_commands();
    let block = if state.stack.dirty {
        seq![Command::UploadUniforms { block: state.fresh_uniforms() }]
    } else {
        Seq::empty()
    };
    let switch = seq![Command::UseShader { mode }];
    let reserve = state.flushed().reserve_commands(size);
    assert(state.synced().switched(mode).batch == state.batch.flushed());
    assert(state.prepare_commands(mode, size) =~= flush + block + switch + reserve);
    lemma_flush_is_one_draw(state);
    assert(no_flush(block));
    assert(no_flush(switch));
    assert(no_flush(reserve));
    lemma_draw_calls_of_quiet(block);
    lemma_draw_calls_of_quiet(switch);
    lemma_draw_calls_of_quiet(reserve);
    lemma_draw_calls_concat(flush, block);
    lemma_draw_calls_concat(flush + block, switch);
    lemma_draw_calls_concat(flush + block + switch, reserve);
}

/// Binding the texture atlas that is bound asks for nothing and changes
/// nothing.
pub proof fn lemma_same_texture_is_no_op(state: PixView, texture: u32)
    requires
        state.texture == Some(texture),
    ensures
        state.rebind_commands(texture) == Seq::<Command>::empty(),
        state.rebound(texture) == state,
{
}

/// Binding another texture atlas than the bound one flushes the batch
/// first, exactly once if it holds instances, and then binds.
pub proof fn lemma_other_texture_flushes_first(state: PixView, texture: u32)
    requires
        state.texture != Some(texture),
    ensures
        state.rebind_commands(texture) == state.flush_commands() + seq![
            Command::BindTexture { texture },
        ],
        draw_calls(state.rebind_commands(texture)) == if state.batch.instance_count > 0 {
            1nat
        } else {
            0nat
        },
        state.rebound(texture).texture == Some(texture),
        state.rebound(texture).batch.instance_count == 0,
{
    let flush = state.flush_commands();
    let bind = seq![Command::BindTexture { texture }];
    assert(state.rebind_commands(texture) =~= flush + bind);
    assert(no_flush(bind));
    lemma_draw_calls_of_quiet(bind);
    lemma_draw_calls_concat(flush, bind);
    if state.batch.instance_count > 0 {
        lemma_flush_is_one_draw(state);
    } else {
        assert(draw_calls(flush) == 0);
    }
}

/// Opening a record in the middle of a batch keeps every scalar written so
/// far, also where the capacity grows for it, and flushes nothing; the
/// record then fits.
pub proof fn lemma_growth_keeps_written(state: PixView, mode: GlRenderMode, size: nat)
    requires
        continues_batch(state, mode),
    ensures
        state.prepared(mode, size).batch.written == state.batch.written,
        state.prepared(mode, size).batch.instance_count == state.batch.instance_count + 1,
        state.prepared(mode, size).batch.capacity >= state.batch.capacity,
        state.prepared(mode, size).batch.capacity >= state.batch.written.len() + size,
        no_flush(state.prepare_commands(mode, size)),
        state.prepare_commands(mode, size) == state.reserve_commands(size),
{
    lemma_grown_capacity_bounds(state.batch.capacity, state.batch.written.len() + size);
    assert(state.prepare_commands(mode, size) =~= state.reserve_commands(size));
}

/// After a change of the transform stack the next `prepare_draw` flushes
/// what was queued under the old transform before it uploads the uniform
/// block that shows the new top.
pub proof fn lemma_stale_transform_flushes_first(state: PixView, mode: GlRenderMode, size: nat)
    requires
        state.wf(),
        state.stack.dirty,
    ensures
        state.sync_commands() == state.flush_commands() + seq![
            Command::UploadUniforms { block: state.fresh_uniforms() },
        ],
        state.fresh_uniforms().transform == state.stack.top(),
        state.fresh_uniforms().color_filter == state.uniforms.color_filter,
        state.prepare_commands(mode, size).len() >= state.sync_commands().len(),
        state.prepare_commands(mode, size).subrange(0, state.sync_commands().len() as int)
            == state.sync_commands(),
        !state.prepared(mode, size).stack.dirty,
        state.prepared(mode, size).uniforms == state.fresh_uniforms(),
{
    assert(state.sync_commands() =~= state.flush_commands() + seq![
        Command::UploadUniforms { block: state.fresh_uniforms() },
    ]);
    assert(state.prepare_commands(mode, size).subrange(0, state.sync_commands().len() as int)
        =~= state.sync_commands());
}

/// The program, the texture atlas and the uniform block change between
/// batches only: where a call changes one of them, nothing that was queued
/// before is left in the batch. So all instances of one draw call were
/// queued under the same program, texture and uniforms.
pub proof fn lemma_batches_are_uniform(
    state: PixView,
    mode: GlRenderMode,
    size: nat,
    texture: u32,
)
    requires
        state.wf(),
    ensures
        changes_state(state.prepare_commands(mode, size)) ==> {
            &&& state.prepared(mode, size).batch.instance_count == 1
            &&& state.prepared(mode, size).batch.written.len() == 0
        },
        changes_state(state.rebind_commands(texture)) ==> {
            &&& state.rebound(texture).batch.instance_count == 0
            &&& state.rebound(texture).batch.written.len() == 0
        },
        !changes_state(state.flush_commands()),
        !changes_state(state.bind_commands()),
        !changes_state(state.clear_commands()),
{
    let asked = state.prepare_commands(mode, size);
    if changes_state(asked) {
        if !state.stack.dirty && state.render_mode == mode {
            assert(asked =~= state.reserve_commands(size));
            assert(false);
        }
    }
    let clear = state.clear_commands();
    assert forall|i: int| 0 <= i < clear.len() implies !(#[trigger] clear[i]).changes_state() by {
        if i < state.flush_commands().len() {
            assert(clear[i] == state.flush_commands()[i]);
        }
    }
}

/// The written scalars never pass the end of the buffer: the cursor, the
/// highest index written to, is below the capacity, also while a record is
/// open. A batch that counts no instance holds no scalar, and the records
/// written in full are all but an open one.
pub proof fn lemma_cursor_stays_within_capacity(state: PixView)
    requires
        state.wf(),
    ensures
        state.batch.capacity >= 1,
        state.batch.cursor().is_some() ==> state.batch.cursor().unwrap() + 1
            <= state.batch.capacity,
        state.batch.cursor().is_some() ==> state.batch.cursor().unwrap() + state.batch.pending
            < state.batch.capacity,
        state.batch.instance_count == 0 ==> state.batch.cursor().is_none(),
        state.batch.pending == 0 ==> state.batch.complete_records() == state.batch.instance_count,
        state.batch.pending > 0 ==> state.batch.complete_records() + 1
            == state.batch.instance_count,
{
}

/// Whenever a record is opened, the uniform block that was uploaded last
/// shows the transform in force and the canvas: no instance is ever queued
/// under a block that is stale in either.
pub proof fn lemma_draws_see_the_transform_in_force(
    state: PixView,
    mode: GlRenderMode,
    size: nat,
)
    requires
        state.wf(),
    ensures
        state.prepared(mode, size).stack.top() == state.stack.top(),
        state.prepared(mode, size).uniforms.transform == state.stack.top(),
        state.prepared(mode, size).uniforms.canvas_width == crate::scalar::scalar_of_nat(
            state.canvas_width as nat,
        ),
        state.prepared(mode, size).uniforms.canvas_height == crate::scalar::scalar_of_nat(
            state.canvas_height as nat,
        ),
        state.stack.dirty ==> state.prepare_commands(mode, size).contains(
            Command::UploadUniforms { block: state.prepared(mode, size).uniforms },
        ),
{
    vstd::arithmetic::power2::lemma2_to64();
    crate::scalar::lemma_scalar_is_positive(state.canvas_width as nat);
    crate::scalar::lemma_scalar_is_positive(state.canvas_height as nat);
    if state.stack.dirty {
        let asked = state.prepare_commands(mode, size);
        let at = state.flush_commands().len() as int;
        assert(state.sync_commands()[at] == Command::UploadUniforms {
            block: state.fresh_uniforms(),
        });
        assert(asked[at] == state.sync_commands()[at]);
    }
}

/// The clear that `clear` asks for comes after the flush and carries the
/// clear colour and the colour filter as they are kept.
pub proof fn lemma_clear_carries_color_and_filter(state: PixView)
    ensures
        state.clear_commands().last() == (Command::Clear {
            color: state.clear_color,
            filter: state.uniforms.color_filter,
        }),
        state.clear_commands().drop_last() == state.flush_commands(),
{
    assert(state.clear_commands().drop_last() =~= state.flush_commands());
}

} // verus!
