//! A pool of particle-effect instances that lets one effect be shown several
//! times in the same frame. Within a frame, each trigger takes the next
//! instance of the pool; once all are in use, the caller spawns a new one and
//! hands it back to the pool. From one frame to the next the instances are
//! reused from the start.
use vstd::prelude::*;

verus! {

/// What the caller is to do for a trigger: restart an instance of the pool,
/// or spawn a new instance and hand it back with
/// [`ParticleEffectPool::add_spawned`].
#[derive(Debug, Clone, Copy, PartialEq, Eq)]
pub enum PoolAction<E> {
    Reuse(E),
    Spawn,
}

/// The abstract state of a pool: its instances, the slot of the next trigger
/// within the frame `last_frame`, and the frame of the last trigger.
pub struct PoolView<E> {
    pub slots: Seq<E>,
    pub next: nat,
    pub last_frame: u32,
}

impl<E> PoolView<E> {
    pub open spec fn wf(self) -> bool {
        self.next <= self.slots.len()
    }

    /// The slot that a trigger in `frame` takes: the first one in a new
    /// frame, the next one otherwise.
    pub open spec fn slot_for(self, frame: u32) -> nat {
        if self.last_frame != frame {
            0
        } else {
            self.next
        }
    }

    /// The action of a trigger in `frame`.
    pub open spec fn trigger_action(self, frame: u32) -> PoolAction<E> {
        let s = self.slot_for(frame);
        if s < self.slots.len() {
            PoolAction::Reuse(self.slots[s as int])
        } else {
            PoolAction::Spawn
        }
    }

    /// The state after a trigger in `frame`.
    pub open spec fn triggered(self, frame: u32) -> PoolView<E> {
        let s = self.slot_for(frame);
        PoolView {
            slots: self.slots,
            next: if s < self.slots.len() {
                s + 1
            } else {
                s
            },
            last_frame: frame,
        }
    }

    /// The state after a newly spawned instance is handed back.
    pub open spec fn spawned(self, effect: E) -> PoolView<E> {
        PoolView { slots: self.slots.push(effect), next: self.next + 1, last_frame: self.last_frame }
    }

    /// The state after a trigger in `frame` and, where it asked for one, the
    /// hand-back of the spawned instance `effect`.
    pub open spec fn after_trigger(self, frame: u32, effect: E) -> PoolView<E> {
        if self.trigger_action(frame) is Spawn {
            self.triggered(frame).spawned(effect)
        } else {
            self.triggered(frame)
        }
    }
}

/// A pool of instances of the effect `asset`.
pub struct ParticleEffectPool<A, E> {
    asset: A,
    effects: Vec<E>,
    index: usize,
    last_run: u32,
}

impl<A, E> View for ParticleEffectPool<A, E> {
    type V = PoolView<E>;

    closed spec fn view(&self) -> PoolView<E> {
        PoolView { slots: self.effects@, next: self.index as nat, last_frame: self.last_run }
    }
}

impl<A, E: Copy> ParticleEffectPool<A, E> {
    pub closed spec fn spec_asset(&self) -> A {
        self.asset
    }

    pub open spec fn wf(&self) -> bool {
        self@.wf()
    }

    /// An empty pool of instances of `effect`.
    pub fn new(effect: A) -> (pool: Self)
        ensures
            pool.wf(),
            pool@.slots == Seq::<E>::empty(),
            pool@.next == 0,
            pool@.last_frame == 0,
            pool.spec_asset() == effect,
    {
        let pool = ParticleEffectPool { asset: effect, effects: Vec::new(), index: 0, last_run: 0 };
        proof {
            assert(pool@.slots =~= Seq::<E>::empty());
        }
        pool
    }

    /// The effect that the instances of this pool show.
    pub fn asset(&self) -> (a: &A)
        ensures
            *a == self.spec_asset(),
    {
        &self.asset
    }

    /// Starts over from the first instance; done at each new frame.
    pub fn reset(&mut self)
        ensures
            final(self)@ == (PoolView { next: 0, ..old(self)@ }),
            final(self).spec_asset() == old(self).spec_asset(),
    {
        self.index = 0;
    }

    /// Decides how to show the effect once more in `frame`: the next unused
    /// instance of this frame is restarted, or, when all are in use, a new
    /// one is to be spawned and handed back with `add_spawned`.
    pub fn trigger(&mut self, frame: u32) -> (action: PoolAction<E>)
        requires
            old(self).wf(),
        ensures
            final(self).wf(),
            action == old(self)@.trigger_action(frame),
            final(self)@ == old(self)@.triggered(frame),
            final(self).spec_asset() == old(self).spec_asset(),
    {
        if self.last_run != frame {
            self.reset();
        }
        self.last_run = frame;

        if self.index < self.effects.len() {
            let entity = self.effects[self.index];
            self.index = self.index + 1;
            PoolAction::Reuse(entity)
        } else {
            PoolAction::Spawn
        }
    }

    /// Takes the instance that was spawned for a trigger into the pool, as
    /// used in the current frame.
    pub fn add_spawned(&mut self, effect: E)
        requires
            old(self).wf(),
            old(self)@.slots.len() < usize::MAX,
        ensures
            final(self).wf(),
            final(self)@ == old(self)@.spawned(effect),
            final(self).spec_asset() == old(self).spec_asset(),
    {
        self.effects.push(effect);
        self.index = self.index + 1;
    }
}

/// Within one frame the triggers take the slots of the pool one after the
/// other, so no instance is shown twice in a frame: after a trigger (and the
/// hand-back of a spawned instance, where one was asked for), the next
/// trigger in the same frame takes the following slot. Instances are never
/// dropped from the pool, and a new one is spawned only when every instance
/// is already in use in this frame.
pub proof fn lemma_pool_trigger_takes_next_slot<E>(v: PoolView<E>, frame: u32, effect: E)
    requires
        v.wf(),
    ensures
        v.after_trigger(frame, effect).wf(),
        v.after_trigger(frame, effect).slot_for(frame) == v.slot_for(frame) + 1,
        v.after_trigger(frame, effect).slots.subrange(0, v.slots.len() as int) == v.slots,
        (v.trigger_action(frame) is Spawn) <==> v.slot_for(frame) == v.slots.len(),
        v.trigger_action(frame) is Spawn ==> v.after_trigger(frame, effect).slots[v.slot_for(frame) as int]
            == effect,
        v.trigger_action(frame) matches PoolAction::Reuse(e) ==> e == v.slots[v.slot_for(frame) as int],
{
    let a = v.after_trigger(frame, effect);
    assert(a.slots.subrange(0, v.slots.len() as int) =~= v.slots);
}

/// The first trigger of a new frame takes the first slot: it reuses the first
/// instance whenever the pool has one.
pub proof fn lemma_pool_new_frame_starts_over<E>(v: PoolView<E>, frame: u32)
    requires
        v.wf(),
        v.last_frame != frame,
    ensures
        v.slot_for(frame) == 0,
        v.slots.len() > 0 ==> v.trigger_action(frame) == PoolAction::Reuse(v.slots[0]),
        v.slots.len() == 0 ==> v.trigger_action(frame) is Spawn,
{
}

} // verus!
