//! The physics world: arenas of bodies and force generators, the list of
//! force registrations, and the per-frame `tick` that first lets every
//! registered generator feed the force accumulators and then integrates every
//! live body exactly once.

use crate::arena::{
    body_get, body_handles, body_insert, body_map, body_remove, body_update, generator_get,
    generator_insert, generator_map, generator_remove, new_body_set, new_generator_set, BodySet,
    ForceGeneratorSet, Handle,
};
use crate::body::{integrated, Body, BodyView};
use crate::force::{ForceGenerator, ForceGeneratorKind, ForceRegistration};
use crate::scalar::Real;
use vstd::prelude::*;

verus! {

/// One generator applied to a list of target bodies, in order. A stale
/// target is a silent no-op inside the generator itself.
pub open spec fn applied_to_targets(
    generator: ForceGeneratorKind,
    duration: int,
    targets: Seq<Handle>,
    m: Map<Handle, BodyView>,
) -> Map<Handle, BodyView>
    decreases targets.len(),
{
    if targets.len() == 0 {
        m
    } else {
        applied_to_targets(
            generator,
            duration,
            targets.drop_first(),
            generator.apply_spec(duration, targets.first(), m),
        )
    }
}

/// All registrations applied in order. A registration whose generator has
/// been removed is skipped silently: generator removal is a valid lifecycle
/// event.
pub open spec fn applied_registrations(
    registrations: Seq<ForceRegistration>,
    generators: Map<Handle, ForceGeneratorKind>,
    duration: int,
    m: Map<Handle, BodyView>,
) -> Map<Handle, BodyView>
    decreases registrations.len(),
{
    if registrations.len() == 0 {
        m
    } else {
        let reg = registrations.first();
        let fed = if generators.dom().contains(reg.generator_handle) {
            applied_to_targets(generators[reg.generator_handle], duration, reg.bodies@, m)
        } else {
            m
        };
        applied_registrations(registrations.drop_first(), generators, duration, fed)
    }
}

/// Every live body integrated one step.
pub open spec fn integrated_all(m: Map<Handle, BodyView>, duration: int) -> Map<Handle, BodyView> {
    Map::new(|h: Handle| m.dom().contains(h), |h: Handle| integrated(m[h], duration))
}

/// The bodies after one whole tick: all registered forces first, then one
/// integration step for every live body.
pub open spec fn ticked(
    registrations: Seq<ForceRegistration>,
    generators: Map<Handle, ForceGeneratorKind>,
    m: Map<Handle, BodyView>,
    duration: int,
) -> Map<Handle, BodyView> {
    integrated_all(applied_registrations(registrations, generators, duration, m), duration)
}

/// Applying a force generator neither creates nor destroys bodies: the live
/// handles afterwards are exactly those before.
pub proof fn lemma_generator_keeps_handles(
    generator: ForceGeneratorKind,
    duration: int,
    h: Handle,
    m: Map<Handle, BodyView>,
)
    ensures
        generator.apply_spec(duration, h, m).dom() == m.dom(),
{
    match generator {
        ForceGeneratorKind::Gravity(g) => {
            assert(g.apply_spec(duration, h, m).dom() =~= m.dom());
        },
        ForceGeneratorKind::Drag(g) => {
            assert(g.apply_spec(duration, h, m).dom() =~= m.dom());
        },
        ForceGeneratorKind::Spring(g) => {
            assert(g.apply_spec(duration, h, m).dom() =~= m.dom());
        },
        ForceGeneratorKind::AnchoredSpring(g) => {
            assert(g.apply_spec(duration, h, m).dom() =~= m.dom());
        },
        ForceGeneratorKind::Bungee(g) => {
            assert(g.apply_spec(duration, h, m).dom() =~= m.dom());
        },
        ForceGeneratorKind::AnchoredBungee(g) => {
            assert(g.apply_spec(duration, h, m).dom() =~= m.dom());
        },
        ForceGeneratorKind::Buoyancy(g) => {
            assert(g.apply_spec(duration, h, m).dom() =~= m.dom());
        },
    }
}

/// A whole force pass keeps the set of live handles.
proof fn lemma_targets_keep_handles(
    generator: ForceGeneratorKind,
    duration: int,
    targets: Seq<Handle>,
    m: Map<Handle, BodyView>,
)
    ensures
        applied_to_targets(generator, duration, targets, m).dom() == m.dom(),
    decreases targets.len(),
{
    if targets.len() > 0 {
        lemma_generator_keeps_handles(generator, duration, targets.first(), m);
        lemma_targets_keep_handles(
            generator,
            duration,
            targets.drop_first(),
            generator.apply_spec(duration, targets.first(), m),
        );
    }
}

/// Applying every registration keeps the set of live handles.
proof fn lemma_registrations_keep_handles(
    registrations: Seq<ForceRegistration>,
    generators: Map<Handle, ForceGeneratorKind>,
    duration: int,
    m: Map<Handle, BodyView>,
)
    ensures
        applied_registrations(registrations, generators, duration, m).dom() == m.dom(),
    decreases registrations.len(),
{
    if registrations.len() > 0 {
        let reg = registrations.first();
        let fed = if generators.dom().contains(reg.generator_handle) {
            applied_to_targets(generators[reg.generator_handle], duration, reg.bodies@, m)
        } else {
            m
        };
        if generators.dom().contains(reg.generator_handle) {
            lemma_targets_keep_handles(generators[reg.generator_handle], duration, reg.bodies@, m);
        }
        lemma_registrations_keep_handles(registrations.drop_first(), generators, duration, fed);
    }
}

/// A tick neither creates nor destroys bodies: every handle live before is
/// live after, and no other. Only removal invalidates a handle.
pub proof fn lemma_tick_keeps_handles(
    registrations: Seq<ForceRegistration>,
    generators: Map<Handle, ForceGeneratorKind>,
    m: Map<Handle, BodyView>,
    duration: int,
)
    ensures
        ticked(registrations, generators, m, duration).dom() == m.dom(),
{
    lemma_registrations_keep_handles(registrations, generators, duration, m);
    let fed = applied_registrations(registrations, generators, duration, m);
    assert(integrated_all(fed, duration).dom() =~= fed.dom());
}

/// The simulation world: bodies and force generators in stable-handle
/// arenas, plus the registrations binding them.
pub struct PhysicsWorld {
    pub bodies: BodySet,
    pub force_generators: ForceGeneratorSet,
    pub registrations: Vec<ForceRegistration>,
}

impl Default for PhysicsWorld {
    /// An empty world: no bodies, no generators, no registrations.
    fn default() -> (r: PhysicsWorld)
        ensures
            forall|h: Handle| !body_map(r.bodies).dom().contains(h),
            forall|h: Handle| !generator_map(r.force_generators).dom().contains(h),
            r.registrations@.len() == 0,
    {
        PhysicsWorld {
            bodies: new_body_set(),
            force_generators: new_generator_set(),
            registrations: Vec::new(),
        }
    }
}

impl PhysicsWorld {
    /// Add a body to the world; the returned handle stays valid until the
    /// body is removed, across any removals of other bodies.
    pub fn insert_body(&mut self, body: Body) -> (h: Handle)
        ensures
            !body_map(old(self).bodies).dom().contains(h),
            body_map(final(self).bodies) == body_map(old(self).bodies).insert(h, body@),
            final(self).force_generators == old(self).force_generators,
            final(self).registrations@ == old(self).registrations@,
    {
        body_insert(&mut self.bodies, body)
    }

    /// Remove a body. Registrations and contacts that still name its handle
    /// become silent no-ops; the handle never aliases a later insertion.
    pub fn remove_body(&mut self, h: Handle) -> (r: Option<Body>)
        ensures
            match r {
                Some(b) => body_map(old(self).bodies).dom().contains(h) && b@ == body_map(
                    old(self).bodies,
                )[h] && body_map(final(self).bodies) == body_map(old(self).bodies).remove(h),
                None => !body_map(old(self).bodies).dom().contains(h) && body_map(
                    final(self).bodies,
                ) == body_map(old(self).bodies),
            },
            final(self).force_generators == old(self).force_generators,
            final(self).registrations@ == old(self).registrations@,
    {
        body_remove(&mut self.bodies, h)
    }

    /// Read a body's current state, if its handle is still live.
    pub fn get_body(&self, h: Handle) -> (r: Option<Body>)
        ensures
            match r {
                Some(b) => body_map(self.bodies).dom().contains(h) && b@ == body_map(
                    self.bodies,
                )[h],
                None => !body_map(self.bodies).dom().contains(h),
            },
    {
        body_get(&self.bodies, h)
    }

    /// Add a force generator to the world.
    pub fn insert_force_generator(&mut self, generator: ForceGeneratorKind) -> (h: Handle)
        ensures
            !generator_map(old(self).force_generators).dom().contains(h),
            generator_map(final(self).force_generators) == generator_map(
                old(self).force_generators,
            ).insert(h, generator),
            final(self).bodies == old(self).bodies,
            final(self).registrations@ == old(self).registrations@,
    {
        generator_insert(&mut self.force_generators, generator)
    }

    /// Remove a force generator; registrations naming it are skipped from
    /// then on.
    pub fn remove_force_generator(&mut self, h: Handle) -> (r: Option<ForceGeneratorKind>)
        ensures
            match r {
                Some(g) => generator_map(old(self).force_generators).dom().contains(h) && g
                    == generator_map(old(self).force_generators)[h] && generator_map(
                    final(self).force_generators,
                ) == generator_map(old(self).force_generators).remove(h),
                None => !generator_map(old(self).force_generators).dom().contains(h)
                    && generator_map(final(self).force_generators) == generator_map(
                    old(self).force_generators,
                ),
            },
            final(self).bodies == old(self).bodies,
            final(self).registrations@ == old(self).registrations@,
    {
        generator_remove(&mut self.force_generators, h)
    }

    /// Register a generator against an ordered list of bodies; the returned
    /// index identifies the registration in `registrations`.
    pub fn register(&mut self, generator_handle: Handle, bodies: Vec<Handle>) -> (index: usize)
        ensures
            index == old(self).registrations@.len(),
            final(self).registrations@ == old(self).registrations@.push(
                ForceRegistration { generator_handle, bodies },
            ),
            final(self).bodies == old(self).bodies,
            final(self).force_generators == old(self).force_generators,
    {
        let index = self.registrations.len();
        self.registrations.push(ForceRegistration { generator_handle, bodies });
        index
    }

    /// Advance the whole world one step: every registration feeds its
    /// generator's force to each of its (still live) bodies, and only then is
    /// every live body integrated exactly once, so each body integrates under
    /// the combined force of all generators registered against it.
    pub fn tick(&mut self, duration: Real)
        requires
            duration > 0,
        ensures
            body_map(final(self).bodies) == ticked(
                old(self).registrations@,
                generator_map(old(self).force_generators),
                body_map(old(self).bodies),
                duration as int,
            ),
            final(self).force_generators == old(self).force_generators,
            final(self).registrations@ == old(self).registrations@,
    {
        let ghost m_start = body_map(self.bodies);
        let ghost generators = generator_map(self.force_generators);
        let ghost regs = self.registrations@;
        let registration_count = self.registrations.len();
        proof {
            assert(regs.skip(0) =~= regs);
        }
        let mut j: usize = 0;
        while j < registration_count
            invariant
                j <= registration_count,
                registration_count == regs.len(),
                duration > 0,
                self.registrations@ == regs,
                self.force_generators == old(self).force_generators,
                generators == generator_map(self.force_generators),
                applied_registrations(
                    regs.skip(j as int),
                    generators,
                    duration as int,
                    body_map(self.bodies),
                ) == applied_registrations(regs, generators, duration as int, m_start),
            decreases registration_count - j,
        {
            proof {
                assert(regs.skip(j as int).first() == regs[j as int]);
                assert(regs.skip(j as int).drop_first() =~= regs.skip(j as int + 1));
            }
            let generator_handle = self.registrations[j].generator_handle;
            let generator = match generator_get(&self.force_generators, generator_handle) {
                Some(g) => g,
                None => {
                    j = j + 1;
                    continue ;
                },
            };
            let ghost m_reg = body_map(self.bodies);
            let ghost targets = regs[j as int].bodies@;
            let target_count = self.registrations[j].bodies.len();
            proof {
                assert(targets.skip(0) =~= targets);
            }
            let mut i: usize = 0;
            while i < target_count
                invariant
                    i <= target_count,
                    j < registration_count,
                    registration_count == regs.len(),
                    duration > 0,
                    self.registrations@ == regs,
                    self.force_generators == old(self).force_generators,
                    targets == regs[j as int].bodies@,
                    target_count == targets.len(),
                    applied_to_targets(
                        generator,
                        duration as int,
                        targets.skip(i as int),
                        body_map(self.bodies),
                    ) == applied_to_targets(generator, duration as int, targets, m_reg),
                decreases target_count - i,
            {
                proof {
                    assert(targets.skip(i as int).first() == targets[i as int]);
                    assert(targets.skip(i as int).drop_first() =~= targets.skip(i as int + 1));
                }
                let target = self.registrations[j].bodies[i];
                generator.apply(duration, target, &mut self.bodies);
                i = i + 1;
            }
            proof {
                assert(targets.skip(target_count as int) =~= Seq::<Handle>::empty());
                assert(body_map(self.bodies) == applied_to_targets(
                    generator,
                    duration as int,
                    targets,
                    m_reg,
                ));
            }
            j = j + 1;
        }
        proof {
            assert(regs.skip(registration_count as int) =~= Seq::<ForceRegistration>::empty());
        }
        let ghost m_fed = body_map(self.bodies);
        proof {
            assert(m_fed == applied_registrations(regs, generators, duration as int, m_start));
        }

        let handles = body_handles(&self.bodies);
        let handle_count = handles.len();
        let mut k: usize = 0;
        while k < handle_count
            invariant
                k <= handle_count,
                duration > 0,
                handle_count == handles@.len(),
                handles@.no_duplicates(),
                forall|h: Handle| #[trigger] handles@.contains(h) <==> m_fed.dom().contains(h),
                self.registrations@ == regs,
                self.force_generators == old(self).force_generators,
                body_map(self.bodies) == Map::new(
                    |h: Handle| m_fed.dom().contains(h),
                    |h: Handle|
                        if handles@.take(k as int).contains(h) {
                            integrated(m_fed[h], duration as int)
                        } else {
                            m_fed[h]
                        },
                ),
            decreases handle_count - k,
        {
            let h = handles[k];
            proof {
                assert(handles@.contains(h));
                assert(!handles@.take(k as int).contains(h)) by {
                    if handles@.take(k as int).contains(h) {
                        let idx = choose|idx: int|
                            0 <= idx < k && handles@.take(k as int)[idx] == h;
                        assert(handles@[idx] == handles@[k as int]);
                        assert(false);
                    }
                };
            }
            let body = match body_get(&self.bodies, h) {
                Some(b) => b,
                None => {
                    proof {
                        assert(false);
                    }
                    k = k + 1;
                    continue ;
                },
            };
            let mut updated = body;
            updated.integrate(duration);
            body_update(&mut self.bodies, h, updated);
            proof {
                let prev = Map::new(
                    |x: Handle| m_fed.dom().contains(x),
                    |x: Handle|
                        if handles@.take(k as int).contains(x) {
                            integrated(m_fed[x], duration as int)
                        } else {
                            m_fed[x]
                        },
                );
                let next = Map::new(
                    |x: Handle| m_fed.dom().contains(x),
                    |x: Handle|
                        if handles@.take(k as int + 1).contains(x) {
                            integrated(m_fed[x], duration as int)
                        } else {
                            m_fed[x]
                        },
                );
                assert(handles@.take(k as int + 1) =~= handles@.take(k as int).push(
                    handles@[k as int],
                ));
                assert forall|x: Handle|
                    handles@.take(k as int + 1).contains(x) <==> (handles@.take(
                        k as int,
                    ).contains(x) || x == h) by {
                    let taken = handles@.take(k as int);
                    if taken.push(h).contains(x) {
                        let idx = choose|idx: int|
                            0 <= idx < taken.push(h).len() && taken.push(h)[idx] == x;
                        if idx < taken.len() {
                            assert(taken[idx] == x);
                        } else {
                            assert(x == h);
                        }
                    }
                    if taken.contains(x) {
                        let idx = choose|idx: int| 0 <= idx < taken.len() && taken[idx] == x;
                        assert(taken.push(h)[idx] == x);
                    }
                    if x == h {
                        assert(taken.push(h)[taken.len() as int] == x);
                    }
                };
                assert(prev.insert(h, updated@) =~= next);
            }
            k = k + 1;
        }
        proof {
            assert(handles@.take(handle_count as int) =~= handles@);
            assert(body_map(self.bodies) =~= integrated_all(m_fed, duration as int));
        }
    }
}

} // verus!
