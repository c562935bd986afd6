//! What holds of the registry, of resolution and of the two steps on an
//! actor, whatever the inputs are.

use crate::actor::{
    ActorState,
    DisplayedAtlas,
    DisplayedSprite,
    Notification,
    at_last_frame,
    emitted_by_tick,
    next_frame,
    sprite_after_tick,
    view_changed_spec,
};
use crate::angle::Angle;
use crate::registry::{
    FieldEntry,
    Registry,
    angle_or_default,
    register_all,
    register_entry,
    register_from,
    table_at,
};
use crate::resolve::{ACTION_ANY, ACTOR_ANY, resolve_spec, resolve_tier};
use crate::sheet::{AngleMap, ImageId, LayoutId, SpriteSheet, merge_entry};
use vstd::arithmetic::div_mod::{lemma_add_mod_noop_right, lemma_fundamental_div_mod, lemma_small_mod};
use vstd::prelude::*;

verus! {

/// Mirror symmetry. Where only one angle of a mirrored pair has a sheet in
/// the table of an actor and an action, resolving the other angle gives that
/// sheet, mirrored, and resolving the angle itself gives it as it is.
pub proof fn law_mirror_symmetry(
    registry: Registry,
    actor: u64,
    action: u64,
    registered: Angle,
    other: Angle,
)
    requires
        registered.mirror_spec() == Some(other),
        registry.contains_key(actor),
        registry[actor].contains_key(action),
        registry[actor][action].contains_key(registered),
        !registry[actor][action].contains_key(other),
    ensures
        resolve_spec(registry, actor, action, other) == Some(
            (registry[actor][action][registered], true),
        ),
        resolve_spec(registry, actor, action, registered) == Some(
            (registry[actor][action][registered], false),
        ),
{
}

/// Back-fill from `Any` works in either order. In a table that has a sheet
/// neither for `angle` nor for `Any`, registering an image for `angle` and a
/// layout for `Any` gives one and the same registry whichever comes first, and
/// in it the sheet of `angle` has both the image and the layout.
pub proof fn law_any_backfill_either_order(
    registry: Registry,
    actor: u64,
    action: u64,
    angle: Angle,
    image: ImageId,
    layout: LayoutId,
)
    requires
        angle != Angle::Any,
        !table_at(registry, actor, action).contains_key(angle),
        !table_at(registry, actor, action).contains_key(Angle::Any),
    ensures
        ({
            let own: FieldEntry = (Some(actor), Some(action), Some(angle), Some(image), None);
            let any: FieldEntry = (Some(actor), Some(action), Some(Angle::Any), None, Some(layout));
            let after = register_all(registry, seq![own, any]);
            &&& after == register_all(registry, seq![any, own])
            &&& table_at(after, actor, action)[angle] == SpriteSheet {
                layout: Some(layout),
                image: Some(image),
            }
            &&& resolve_spec(after, actor, action, angle) == Some(
                (SpriteSheet { layout: Some(layout), image: Some(image) }, false),
            )
        }),
{
    let own: FieldEntry = (Some(actor), Some(action), Some(angle), Some(image), None);
    let any: FieldEntry = (Some(actor), Some(action), Some(Angle::Any), None, Some(layout));
    let table = table_at(registry, actor, action);
    lemma_register_two(registry, own, any);
    lemma_register_two(registry, any, own);
    let first = register_entry(registry, actor, action, angle, Some(image), None);
    let own_any = register_entry(first, actor, action, Angle::Any, None, Some(layout));
    let second = register_entry(registry, actor, action, Angle::Any, None, Some(layout));
    let any_own = register_entry(second, actor, action, angle, Some(image), None);
    let table_own_any = merge_entry(
        merge_entry(table, angle, Some(image), None),
        Angle::Any,
        None,
        Some(layout),
    );
    let table_any_own = merge_entry(
        merge_entry(table, Angle::Any, None, Some(layout)),
        angle,
        Some(image),
        None,
    );
    assert(table_at(first, actor, action) == merge_entry(table, angle, Some(image), None));
    assert(table_at(second, actor, action) == merge_entry(table, Angle::Any, None, Some(layout)));
    assert(table_own_any =~= table_any_own);
    assert(own_any[actor] =~= any_own[actor]);
    assert(own_any =~= any_own);
}

/// Registering two entries is registering the first and then the second,
/// the second under the ids of the first where it names none.
proof fn lemma_register_two(registry: Registry, first: FieldEntry, second: FieldEntry)
    requires
        first.0 is Some,
        first.1 is Some,
        second.0 is Some,
        second.1 is Some,
    ensures
        register_all(registry, seq![first, second]) == register_entry(
            register_entry(
                registry,
                first.0->0,
                first.1->0,
                angle_or_default(first.2),
                first.3,
                first.4,
            ),
            second.0->0,
            second.1->0,
            angle_or_default(second.2),
            second.3,
            second.4,
        ),
{
    let entries = seq![first, second];
    let rest = entries.skip(1);
    assert(rest[0] == second);
    assert(rest.skip(1).len() == 0);
    reveal_with_fuel(register_from, 3);
}

/// Explicit values are never overwritten. Registering an entry for `Any`
/// leaves every image and every layout that a sheet of another angle in the
/// same table held before as it was; only what was absent is filled, and it
/// is filled from the new `Any` sheet.
pub proof fn law_explicit_never_overwritten(
    table: AngleMap,
    angle: Angle,
    image: Option<ImageId>,
    layout: Option<LayoutId>,
)
    requires
        angle != Angle::Any,
        table.contains_key(angle),
    ensures
        ({
            let after = merge_entry(table, Angle::Any, image, layout);
            &&& after.contains_key(angle)
            &&& table[angle].image is Some ==> after[angle].image == table[angle].image
            &&& table[angle].layout is Some ==> after[angle].layout == table[angle].layout
            &&& table[angle].image is None ==> after[angle].image == after[Angle::Any].image
            &&& table[angle].layout is None ==> after[angle].layout == after[Angle::Any].layout
        }),
{
}

/// Registering an image for an angle and then another image for `Any`
/// leaves the angle with its own image.
pub proof fn law_own_image_stays(
    registry: Registry,
    actor: u64,
    action: u64,
    angle: Angle,
    own: ImageId,
    other: ImageId,
)
    requires
        angle != Angle::Any,
    ensures
        ({
            let first: FieldEntry = (Some(actor), Some(action), Some(angle), Some(own), None);
            let any: FieldEntry = (Some(actor), Some(action), Some(Angle::Any), Some(other), None);
            let after = register_all(registry, seq![first, any]);
            &&& table_at(after, actor, action).contains_key(angle)
            &&& table_at(after, actor, action)[angle].image == Some(own)
            &&& resolve_spec(after, actor, action, angle) matches Some((sheet, mirrored))
                && sheet.image == Some(own) && !mirrored
        }),
{
    let first: FieldEntry = (Some(actor), Some(action), Some(angle), Some(own), None);
    let any: FieldEntry = (Some(actor), Some(action), Some(Angle::Any), Some(other), None);
    lemma_register_two(registry, first, any);
}

/// Registration is local. An entry changes the table of its own actor and
/// action and no other: every other table that was there is still there,
/// unchanged, and no other table has appeared.
pub proof fn law_registration_is_local(
    registry: Registry,
    actor: u64,
    action: u64,
    angle: Angle,
    image: Option<ImageId>,
    layout: Option<LayoutId>,
    other_actor: u64,
    other_action: u64,
)
    requires
        other_actor != actor || other_action != action,
    ensures
        ({
            let after = register_entry(registry, actor, action, angle, image, layout);
            let had = registry.contains_key(other_actor) && registry[other_actor].contains_key(
                other_action,
            );
            let has = after.contains_key(other_actor) && after[other_actor].contains_key(
                other_action,
            );
            &&& has == had
            &&& had ==> after[other_actor][other_action] == registry[other_actor][other_action]
        }),
{
}

/// The actor id under which the entry with index `i` is registered: its own,
/// or that of the nearest entry before it that names one, or 0.
pub open spec fn actor_at(entries: Seq<FieldEntry>, i: int) -> u64
    decreases i + 1,
{
    if i < 0 || i >= entries.len() {
        0
    } else {
        match entries[i].0 {
            Some(id) => id,
            None => actor_at(entries, i - 1),
        }
    }
}

/// The action id under which the entry with index `i` is registered: its
/// own, or that of the nearest entry before it that names one, or 0.
pub open spec fn action_at(entries: Seq<FieldEntry>, i: int) -> u64
    decreases i + 1,
{
    if i < 0 || i >= entries.len() {
        0
    } else {
        match entries[i].1 {
            Some(id) => id,
            None => action_at(entries, i - 1),
        }
    }
}

/// The registry after the first `n` entries, each registered under
/// `actor_at` and `action_at` of its index.
pub open spec fn registered_upto(registry: Registry, entries: Seq<FieldEntry>, n: int) -> Registry
    decreases n,
{
    if n <= 0 {
        registry
    } else {
        register_entry(
            registered_upto(registry, entries, n - 1),
            actor_at(entries, n - 1),
            action_at(entries, n - 1),
            angle_or_default(entries[n - 1].2),
            entries[n - 1].3,
            entries[n - 1].4,
        )
    }
}

/// Carry-forward. Registering a batch registers each entry, in order, under
/// the actor and the action that it names or, where it names none, under
/// those of the nearest entry before it that does; the ids are 0 where no
/// entry up to it names any.
pub proof fn law_carry_forward(registry: Registry, entries: Seq<FieldEntry>)
    ensures
        register_all(registry, entries) == registered_upto(registry, entries, entries.len() as int),
{
    assert(entries.skip(0) =~= entries);
    lemma_carry_forward_from(registry, entries, 0);
}

proof fn lemma_carry_forward_from(registry: Registry, entries: Seq<FieldEntry>, k: int)
    requires
        0 <= k <= entries.len(),
    ensures
        register_from(
            registered_upto(registry, entries, k),
            entries.skip(k),
            actor_at(entries, k - 1),
            action_at(entries, k - 1),
        ) == registered_upto(registry, entries, entries.len() as int),
    decreases entries.len() - k,
{
    if k < entries.len() {
        let rest = entries.skip(k);
        assert(rest[0] == entries[k]);
        assert(rest.skip(1) =~= entries.skip(k + 1));
        lemma_carry_forward_from(registry, entries, k + 1);
    }
}

/// An entry that names an actor and an action, followed by entries that
/// name neither: all of them are registered under that actor and action.
pub proof fn law_followers_share_ids(entries: Seq<FieldEntry>, i: int)
    requires
        entries.len() > 0,
        entries[0].0 is Some,
        entries[0].1 is Some,
        forall|j: int| 0 < j < entries.len() ==> (#[trigger] entries[j]).0 is None && entries[j].1
            is None,
        0 <= i < entries.len(),
    ensures
        actor_at(entries, i) == entries[0].0->0,
        action_at(entries, i) == entries[0].1->0,
    decreases i,
{
    if i > 0 {
        law_followers_share_ids(entries, i - 1);
    }
}

/// Unavailable is safe. Where nothing is registered for the actor, and the
/// tables of `ACTOR_ANY` offer nothing for the action and the angle either,
/// resolution finds nothing and a view change leaves the actor and its sprite
/// exactly as they were.
pub proof fn law_unavailable_is_safe(actor: ActorState, sprite: DisplayedSprite, registry: Registry)
    requires
        !registry.contains_key(actor.actor),
        resolve_tier(registry, ACTOR_ANY, actor.action, actor.angle) is None,
        resolve_tier(registry, ACTOR_ANY, ACTION_ANY, actor.angle) is None,
    ensures
        resolve_spec(registry, actor.actor, actor.action, actor.angle) is None,
        view_changed_spec(actor, sprite, registry) == (actor, sprite),
{
}

/// Whenever resolution finds nothing, a view change leaves the actor and
/// its sprite exactly as they were.
pub proof fn law_miss_changes_nothing(actor: ActorState, sprite: DisplayedSprite, registry: Registry)
    requires
        resolve_spec(registry, actor.actor, actor.action, actor.angle) is None,
    ensures
        view_changed_spec(actor, sprite, registry) == (actor, sprite),
{
}

/// Re-notification is idempotent. Processing a view change a second time,
/// with the actor's id, action and angle and the registry as they were, gives
/// the same sprite and the same `flipped` as the first time.
pub proof fn law_view_change_idempotent(
    actor: ActorState,
    sprite: DisplayedSprite,
    registry: Registry,
)
    ensures
        ({
            let once = view_changed_spec(actor, sprite, registry);
            view_changed_spec(once.0, once.1, registry) == once
        }),
{
}

/// The frame index after `ticks` advancing ticks, from `index`, in an atlas
/// of `frames` frames.
pub open spec fn frame_after(index: int, frames: int, ticks: nat) -> int
    decreases ticks,
{
    if ticks == 0 {
        index
    } else {
        next_frame(frame_after(index, frames, (ticks - 1) as nat), frames)
    }
}

/// Animation wrap. From a frame of the atlas, each advancing tick moves to
/// the next frame and from the last to the first, so that after `ticks` ticks
/// the index is the start plus `ticks`, modulo the number of frames.
pub proof fn law_animation_wraps(index: int, frames: int, ticks: nat)
    requires
        frames > 0,
        0 <= index < frames,
    ensures
        frame_after(index, frames, ticks) == (index + ticks) % frames,
        0 <= frame_after(index, frames, ticks) < frames,
        next_frame(index, frames) == if index == frames - 1 {
            0
        } else {
            index + 1
        },
    decreases ticks,
{
    lemma_fundamental_div_mod(index + ticks, frames);
    if ticks == 0 {
        lemma_small_mod(index as nat, frames as nat);
    } else {
        law_animation_wraps(index, frames, (ticks - 1) as nat);
        lemma_add_mod_noop_right(1, index + ticks - 1, frames);
    }
    if index == frames - 1 {
        vstd::arithmetic::div_mod::lemma_mod_self_0(frames);
    } else {
        lemma_small_mod((index + 1) as nat, frames as nat);
    }
}

/// Once per cycle. Among `frames` ticks in a row, from whatever frame of the
/// atlas, exactly one starts on the last frame: the one after which the index
/// is 0.
pub proof fn law_last_frame_once_per_cycle(index: int, frames: int, tick: nat)
    requires
        frames > 0,
        0 <= index < frames,
        tick < frames,
    ensures
        frame_after(index, frames, tick) == frames - 1 <==> tick == frames - 1 - index,
        frame_after(index, frames, tick) == frames - 1 <==> frame_after(index, frames, tick + 1)
            == 0,
{
    law_animation_wraps(index, frames, tick);
    law_animation_wraps(index, frames, tick + 1);
    let at = frame_after(index, frames, tick);
    law_animation_wraps(at, frames, 1);
    assert(frame_after(index, frames, tick + 1) == next_frame(at, frames));
    if index + tick < frames {
        lemma_small_mod((index + tick) as nat, frames as nat);
    } else {
        lemma_fundamental_div_mod(index + tick, frames);
        lemma_small_mod((index + tick - frames) as nat, frames as nat);
        vstd::arithmetic::div_mod::lemma_mod_add_multiples_vanish(index + tick - frames, frames);
    }
}

/// What one advancing tick does to a sprite that shows a frame of its atlas
/// and what it sends out: the index moves as `next_frame` says, and
/// `LastFrame` goes out exactly when the actor has asked for it and the tick
/// starts on the last frame.
pub proof fn law_tick_follows_frames(
    entity: u64,
    actor: ActorState,
    sprite: DisplayedSprite,
    frames: usize,
)
    requires
        frames > 0,
        sprite.texture_atlas matches Some(atlas) && atlas.index < frames,
    ensures
        ({
            let after = sprite_after_tick(sprite, Some(frames), true);
            let emitted = emitted_by_tick(entity, actor, sprite, Some(frames), true);
            let index = sprite.texture_atlas->0.index;
            &&& after.texture_atlas matches Some(atlas) && atlas.index == frame_after(
                index as int,
                frames as int,
                1,
            )
            &&& emitted.last_frame is Some <==> (index == frames - 1 && actor.notify.contains(
                Notification::LastFrame,
            ))
            &&& emitted.last_frame is Some ==> after.texture_atlas->0.index == 0
        }),
{
    let index = sprite.texture_atlas->0.index;
    law_animation_wraps(index as int, frames as int, 1);
    assert(frame_after(index as int, frames as int, 1) == next_frame(index as int, frames as int))
        by {
        reveal_with_fuel(frame_after, 2);
    }
}

} // verus!
