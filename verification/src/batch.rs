use vstd::prelude::*;
use vstd::arithmetic::power2::{lemma2_to64, lemma_pow2_unfold, pow2};
use vstd::slice::{slice_subrange, slice_to_vec};
use crate::command::{emit, trace, Command, GlCommand};

verus! {

/// The capacity that holds `need` scalars, reached from `capacity` by
/// doubling as often as it takes and no more often.
pub open spec fn grown_capacity(capacity: nat, need: nat) -> nat
    decreases
        (if need > capacity {
            need - capacity
        } else {
            0
        }),
{
    if capacity == 0 || need <= capacity {
        capacity
    } else {
        grown_capacity(2 * capacity, need)
    }
}

/// What an [`InstanceBatcher`] holds.
pub struct BatchView {
    /// How many scalars the buffer has room for.
    pub capacity: nat,
    /// The scalars written since the last flush, in order.
    pub written: Seq<u32>,
    /// The records asked for since the last flush, the open one included.
    pub instance_count: nat,
    /// How many scalars of the open record are still to be written.
    pub pending: nat,
}

impl BatchView {
    /// What holds of every batch: there is room for at least one scalar;
    /// what was written and what the open record still lacks fit in the
    /// buffer; and a batch that counts no instance holds no scalar.
    pub open spec fn wf(self) -> bool {
        &&& self.capacity >= 1
        &&& self.written.len() + self.pending <= self.capacity
        &&& self.instance_count == 0 ==> self.written.len() == 0 && self.pending == 0
    }

    /// The highest index written to, if anything has been written.
    pub open spec fn cursor(self) -> Option<nat> {
        if self.written.len() == 0 {
            None
        } else {
            Some((self.written.len() - 1) as nat)
        }
    }

    /// The records that have been written in full.
    pub open spec fn complete_records(self) -> nat {
        if self.pending > 0 {
            (self.instance_count - 1) as nat
        } else {
            self.instance_count
        }
    }

    /// The capacity it takes to add a record of `size` scalars.
    pub open spec fn capacity_for(self, size: nat) -> nat {
        grown_capacity(self.capacity, self.written.len() + size)
    }

    /// The batch once room for a record of `size` scalars has been made.
    pub open spec fn reserved(self, size: nat) -> BatchView {
        BatchView {
            capacity: self.capacity_for(size),
            written: self.written,
            instance_count: self.instance_count + 1,
            pending: size,
        }
    }

    /// The batch once `value` has been written to the open record.
    pub open spec fn wrote(self, value: u32) -> BatchView
        recommends
            self.pending > 0,
    {
        BatchView {
            capacity: self.capacity,
            written: self.written.push(value),
            instance_count: self.instance_count,
            pending: (self.pending - 1) as nat,
        }
    }

    /// The batch after a flush: empty, with the capacity it had.
    pub open spec fn flushed(self) -> BatchView {
        BatchView { capacity: self.capacity, written: Seq::empty(), instance_count: 0, pending: 0 }
    }

    /// What a flush asks of the GPU: nothing for an empty batch, else one
    /// upload of all that was written and one draw call for all records.
    pub open spec fn flush_commands(self) -> Seq<Command> {
        if self.instance_count == 0 {
            Seq::empty()
        } else {
            seq![
                Command::UploadInstances { scalars: self.written },
                Command::DrawInstances { count: self.instance_count },
            ]
        }
    }
}

/// The grown capacity holds `need` scalars, is the old capacity where that
/// one holds them, and is never twice what is needed or more.
pub proof fn lemma_grown_capacity_bounds(capacity: nat, need: nat)
    requires
        capacity >= 1,
    ensures
        grown_capacity(capacity, need) >= capacity,
        grown_capacity(capacity, need) >= need,
        need <= capacity ==> grown_capacity(capacity, need) == capacity,
        need > capacity ==> grown_capacity(capacity, need) < 2 * need,
    decreases
        (if need > capacity {
            need - capacity
        } else {
            0
        }),
{
    if need > capacity {
        lemma_grown_capacity_bounds(2 * capacity, need);
    }
}

/// The grown capacity is the old one doubled a number of times, and no
/// smaller number of doublings would hold `need` scalars. The number is
/// handed back.
pub proof fn lemma_grown_capacity_is_least(capacity: nat, need: nat) -> (doublings: nat)
    requires
        capacity >= 1,
    ensures
        grown_capacity(capacity, need) == capacity * pow2(doublings),
        grown_capacity(capacity, need) >= need,
        need <= capacity <==> doublings == 0,
        doublings > 0 ==> capacity * pow2((doublings - 1) as nat) < need,
    decreases
        (if need > capacity {
            need - capacity
        } else {
            0
        }),
{
    lemma2_to64();
    if need <= capacity {
        0
    } else {
        let rest = lemma_grown_capacity_is_least(2 * capacity, need);
        lemma_pow2_unfold(rest + 1);
        assert((2 * capacity) * pow2(rest) == capacity * (2 * pow2(rest))) by (nonlinear_arith);
        if rest > 0 {
            lemma_pow2_unfold(rest);
            let half = pow2((rest - 1) as nat);
            assert((2 * capacity) * half == capacity * (2 * half)) by (nonlinear_arith);
            assert(capacity * pow2(rest) < need);
        } else {
            assert(capacity * pow2(0) == capacity) by (nonlinear_arith)
                requires
                    pow2(0) == 1,
            ;
        }
        rest + 1
    }
}

/// Whether doubling `capacity` until it holds `used + size` scalars stays
/// within the machine's numbers.
fn doubling_fits(capacity: usize, used: usize, size: usize) -> (ok: bool)
    requires
        capacity >= 1,
    ensures
        ok == (grown_capacity(capacity as nat, (used + size) as nat) <= usize::MAX),
{
    let ghost need_nat: nat = (used + size) as nat;
    if size > usize::MAX - used {
        proof {
            lemma_grown_capacity_bounds(capacity as nat, need_nat);
        }
        return false;
    }
    let need: usize = used + size;
    let mut reached: usize = capacity;
    while reached < need
        invariant
            reached >= 1,
            need == need_nat,
            need_nat == (used + size) as nat,
            grown_capacity(reached as nat, need_nat) == grown_capacity(capacity as nat, need_nat),
        decreases
            (if need > reached {
                need - reached
            } else {
                0
            }),
    {
        if reached > usize::MAX - reached {
            proof {
                lemma_grown_capacity_bounds((2 * reached) as nat, need_nat);
                assert(grown_capacity(reached as nat, need_nat) == grown_capacity(
                    (2 * reached) as nat,
                    need_nat,
                ));
            }
            return false;
        }
        reached = reached * 2;
    }
    true
}

/// A buffer of instance records that grows by doubling and is emptied by
/// a flush.
pub struct InstanceBatcher {
    buffer: Vec<u32>,
    used: usize,
    count: usize,
    pending: usize,
}

impl View for InstanceBatcher {
    type V = BatchView;

    closed spec fn view(&self) -> BatchView {
        BatchView {
            capacity: self.buffer@.len(),
            written: self.buffer@.subrange(0, self.used as int),
            instance_count: self.count as nat,
            pending: self.pending as nat,
        }
    }
}

impl InstanceBatcher {
    /// What every call keeps: see [`BatchView::wf`].
    pub closed spec fn wf(&self) -> bool {
        &&& self.used + self.pending <= self.buffer@.len()
        &&& self.buffer@.len() >= 1
        &&& self.count == 0 ==> self.used == 0 && self.pending == 0
    }

    /// A well-formed batcher holds a well-formed batch, with counters that
    /// the machine can hold.
    pub proof fn lemma_view_wf(&self)
        requires
            self.wf(),
        ensures
            self@.wf(),
            self@.capacity <= usize::MAX,
            self@.instance_count <= usize::MAX,
    {
        assert(self.buffer@.len() == self.buffer.len());
    }

    /// An empty batch with room for `capacity` scalars.
    pub fn new(capacity: usize) -> (batch: InstanceBatcher)
        requires
            capacity >= 1,
        ensures
            batch.wf(),
            batch@ == (BatchView {
                capacity: capacity as nat,
                written: Seq::empty(),
                instance_count: 0,
                pending: 0,
            }),
    {
        let buffer: Vec<u32> = vec![0u32; capacity];
        let batch = InstanceBatcher { buffer, used: 0, count: 0, pending: 0 };
        assert(batch@.written =~= Seq::<u32>::empty());
        batch
    }

    pub fn capacity(&self) -> (capacity: usize)
        ensures
            capacity == self@.capacity,
    {
        self.buffer.len()
    }

    pub fn instance_count(&self) -> (count: usize)
        ensures
            count == self@.instance_count,
    {
        self.count
    }

    /// How many scalars of the open record are still to be written.
    pub fn pending(&self) -> (pending: usize)
        ensures
            pending == self@.pending,
    {
        self.pending
    }

    /// The highest index written to since the last flush.
    pub fn write_cursor(&self) -> (cursor: Option<usize>)
        requires
            self.wf(),
        ensures
            cursor.is_some() == self@.cursor().is_some(),
            cursor.is_some() ==> cursor.unwrap() == self@.cursor().unwrap(),
    {
        if self.used == 0 {
            None
        } else {
            Some(self.used - 1)
        }
    }

    /// The scalars written since the last flush.
    pub fn written(&self) -> (scalars: Vec<u32>)
        requires
            self.wf(),
        ensures
            scalars@ == self@.written,
    {
        slice_to_vec(slice_subrange(self.buffer.as_slice(), 0, self.used))
    }

    /// Whether a record of `size` scalars can be added with a capacity that
    /// the machine can count.
    pub fn has_room(&self, size: usize) -> (ok: bool)
        requires
            self.wf(),
        ensures
            ok == (self@.capacity_for(size as nat) <= usize::MAX),
    {
        doubling_fits(self.buffer.len(), self.used, size)
    }

    /// Whether a record of `size` scalars can be added, once the batch has
    /// been flushed, with a capacity that the machine can count.
    pub fn has_room_after_flush(&self, size: usize) -> (ok: bool)
        requires
            self.wf(),
        ensures
            ok == (self@.flushed().capacity_for(size as nat) <= usize::MAX),
    {
        doubling_fits(self.buffer.len(), 0, size)
    }

    /// Opens a record of `size` scalars: doubles the capacity until the
    /// record fits, and counts it. Says whether the capacity changed. What
    /// was written stays as it is.
    pub fn reserve(&mut self, size: usize) -> (grew: bool)
        requires
            old(self).wf(),
            old(self)@.pending == 0,
            old(self)@.instance_count < usize::MAX,
            old(self)@.capacity_for(size as nat) <= usize::MAX,
        ensures
            final(self).wf(),
            final(self)@ == old(self)@.reserved(size as nat),
            grew == (final(self)@.capacity != old(self)@.capacity),
    {
        let ghost before = self@;
        let ghost need_nat: nat = (self.used + size) as nat;
        proof {
            lemma_grown_capacity_bounds(before.capacity, need_nat);
        }
        let need: usize = self.used + size;
        let old_capacity: usize = self.buffer.len();
        let mut capacity: usize = old_capacity;
        while capacity < need
            invariant
                capacity >= 1,
                need == need_nat,
                grown_capacity(capacity as nat, need_nat) == grown_capacity(
                    old_capacity as nat,
                    need_nat,
                ),
                grown_capacity(old_capacity as nat, need_nat) <= usize::MAX,
            decreases
                (if need > capacity {
                    need - capacity
                } else {
                    0
                }),
        {
            proof {
                lemma_grown_capacity_bounds(2 * capacity as nat, need_nat);
            }
            capacity = capacity * 2;
        }
        let grew = capacity != old_capacity;
        if grew {
            self.buffer.resize(capacity, 0u32);
        }
        self.count = self.count + 1;
        self.pending = size;
        proof {
            assert(self@.written =~= before.written);
        }
        grew
    }

    /// Writes the next scalar of the open record.
    pub fn write(&mut self, value: u32)
        requires
            old(self).wf(),
            old(self)@.pending > 0,
        ensures
            final(self).wf(),
            final(self)@ == old(self)@.wrote(value),
    {
        let ghost before = self@;
        assert(self.used < self.buffer.len());
        self.buffer[self.used] = value;
        self.used = self.used + 1;
        self.pending = self.pending - 1;
        proof {
            assert(self@.written =~= before.written.push(value));
        }
    }

    /// Hands the batch to the GPU and empties it: appends to `out` what
    /// [`BatchView::flush_commands`] lists. The capacity stays.
    pub fn flush_into(&mut self, out: &mut Vec<GlCommand>)
        requires
            old(self).wf(),
            old(self)@.pending == 0,
        ensures
            final(self).wf(),
            final(self)@ == old(self)@.flushed(),
            trace(final(out)@) == trace(old(out)@) + old(self)@.flush_commands(),
    {
        if self.count == 0 {
            assert(self@.written =~= Seq::<u32>::empty());
            assert(trace(out@) + Seq::<Command>::empty() =~= trace(out@));
            return ;
        }
        let scalars = self.written();
        let ghost first = Command::UploadInstances { scalars: scalars@ };
        let ghost second = Command::DrawInstances { count: self.count as nat };
        emit(out, GlCommand::UploadInstances { scalars });
        emit(out, GlCommand::DrawInstances { count: self.count });
        self.used = 0;
        self.count = 0;
        proof {
            assert(self@.written =~= Seq::<u32>::empty());
            assert(trace(old(out)@).push(first).push(second) =~= trace(old(out)@) + seq![
                first,
                second,
            ]);
        }
    }
}

} // verus!
