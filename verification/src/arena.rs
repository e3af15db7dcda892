//! Generation-checked storage for bodies and force generators.
//!
//! Bodies and generators live in arenas of the `generational_arena` crate and
//! are addressed by stable handles (slot index plus generation counter), so a
//! handle to a removed element never silently aliases a later insertion. The
//! arenas themselves are outside code; each one is modelled here by an
//! uninterpreted contents map from live handles to stored values, and every
//! operation the simulation uses goes through a trusted wrapper whose
//! contract states, over that map, what the crate's source does.

use crate::body::{Body, BodyView};
use crate::force::ForceGeneratorKind;
use vstd::prelude::*;

verus! {

/// A stable, generation-checked handle into an arena.
pub type Handle = generational_arena::Index;

/// The collection of bodies, addressed by stable handles.
pub type BodySet = generational_arena::Arena<Body>;

/// The collection of force generators, addressed by stable handles.
pub type ForceGeneratorSet = generational_arena::Arena<ForceGeneratorKind>;

#[verifier::external_type_specification]
#[verifier::external_body]
#[verifier::reject_recursive_types(T)]
pub struct ExArena<T>(generational_arena::Arena<T>);

#[verifier::external_type_specification]
#[verifier::external_body]
pub struct ExIndex(generational_arena::Index);

/// The contents of a body arena: a map from each live handle to the value of
/// the body stored under it.
pub uninterp spec fn body_map(arena: BodySet) -> Map<Handle, BodyView>;

/// The contents of a force-generator arena: a map from each live handle to
/// the generator stored under it.
pub uninterp spec fn generator_map(arena: ForceGeneratorSet) -> Map<Handle, ForceGeneratorKind>;

/// Relies on generational_arena::Arena::new: a fresh arena holds nothing.
#[verifier::external_body]
pub(crate) fn new_body_set() -> (r: BodySet)
    ensures
        forall|h: Handle| !body_map(r).dom().contains(h),
{
    generational_arena::Arena::new()
}

/// Relies on generational_arena::Arena::insert: the value is stored under a
/// handle that no live element uses, and nothing else changes.
#[verifier::external_body]
pub(crate) fn body_insert(arena: &mut BodySet, body: Body) -> (h: Handle)
    ensures
        !body_map(*old(arena)).dom().contains(h),
        body_map(*final(arena)) == body_map(*old(arena)).insert(h, body@),
{
    arena.insert(body)
}

/// Relies on generational_arena::Arena::get: a live handle yields the value
/// stored under it; a stale or foreign handle yields nothing.
#[verifier::external_body]
pub(crate) fn body_get(arena: &BodySet, h: Handle) -> (r: Option<Body>)
    ensures
        match r {
            Some(b) => body_map(*arena).dom().contains(h) && b@ == body_map(*arena)[h],
            None => !body_map(*arena).dom().contains(h),
        },
{
    arena.get(h).copied()
}

/// Relies on generational_arena::Arena::get_mut: a live handle reaches the
/// slot holding its value, so assigning replaces exactly that element.
#[verifier::external_body]
pub(crate) fn body_update(arena: &mut BodySet, h: Handle, body: Body) -> (ok: bool)
    ensures
        ok == body_map(*old(arena)).dom().contains(h),
        body_map(*final(arena)) == if ok {
            body_map(*old(arena)).insert(h, body@)
        } else {
            body_map(*old(arena))
        },
{
    match arena.get_mut(h) {
        Some(slot) => {
            *slot = body;
            true
        },
        None => false,
    }
}

/// Relies on generational_arena::Arena::remove: a live handle's element is
/// taken out and returned; a stale or foreign handle changes nothing.
#[verifier::external_body]
pub(crate) fn body_remove(arena: &mut BodySet, h: Handle) -> (r: Option<Body>)
    ensures
        match r {
            Some(b) => body_map(*old(arena)).dom().contains(h) && b@ == body_map(*old(arena))[h]
                && body_map(*final(arena)) == body_map(*old(arena)).remove(h),
            None => !body_map(*old(arena)).dom().contains(h) && body_map(*final(arena)) == body_map(
                *old(arena),
            ),
        },
{
    arena.remove(h)
}

/// Relies on generational_arena::Arena::iter: it visits each live element
/// exactly once, under its handle.
#[verifier::external_body]
pub(crate) fn body_handles(arena: &BodySet) -> (hs: Vec<Handle>)
    ensures
        hs@.no_duplicates(),
        forall|h: Handle| #[trigger] hs@.contains(h) <==> body_map(*arena).dom().contains(h),
{
    arena.iter().map(|(h, _)| h).collect()
}

/// Relies on generational_arena::Arena::new: a fresh arena holds nothing.
#[verifier::external_body]
pub(crate) fn new_generator_set() -> (r: ForceGeneratorSet)
    ensures
        forall|h: Handle| !generator_map(r).dom().contains(h),
{
    generational_arena::Arena::new()
}

/// Relies on generational_arena::Arena::insert: the value is stored under a
/// handle that no live element uses, and nothing else changes.
#[verifier::external_body]
pub(crate) fn generator_insert(arena: &mut ForceGeneratorSet, generator: ForceGeneratorKind) -> (h:
    Handle)
    ensures
        !generator_map(*old(arena)).dom().contains(h),
        generator_map(*final(arena)) == generator_map(*old(arena)).insert(h, generator),
{
    arena.insert(generator)
}

/// Relies on generational_arena::Arena::get: a live handle yields the value
/// stored under it; a stale or foreign handle yields nothing.
#[verifier::external_body]
pub(crate) fn generator_get(arena: &ForceGeneratorSet, h: Handle) -> (r: Option<ForceGeneratorKind>)
    ensures
        match r {
            Some(g) => generator_map(*arena).dom().contains(h) && g == generator_map(*arena)[h],
            None => !generator_map(*arena).dom().contains(h),
        },
{
    arena.get(h).copied()
}

/// Relies on generational_arena::Arena::remove: a live handle's element is
/// taken out and returned; a stale or foreign handle changes nothing.
#[verifier::external_body]
pub(crate) fn generator_remove(arena: &mut ForceGeneratorSet, h: Handle) -> (r: Option<
    ForceGeneratorKind>)
    ensures
        match r {
            Some(g) => generator_map(*old(arena)).dom().contains(h) && g == generator_map(
                *old(arena),
            )[h] && generator_map(*final(arena)) == generator_map(*old(arena)).remove(h),
            None => !generator_map(*old(arena)).dom().contains(h) && generator_map(*final(arena))
                == generator_map(*old(arena)),
        },
{
    arena.remove(h)
}

} // verus!
