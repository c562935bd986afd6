//! The per-entity state of an actor, the sprite that shows it, and the two
//! steps that change them: a view change and an animation tick.

use crate::angle::Angle;
use crate::registry::{ActorSpriteSheets, Registry};
use crate::resolve::resolve_spec;
use crate::sheet::{ImageId, LayoutId, SpriteSheet};
use vstd::arithmetic::div_mod::lemma_add_mod_noop_right;
use vstd::prelude::*;

verus! {

/// What an actor can ask to be told about.
#[derive(Clone, Copy, Debug, PartialEq, Eq, Structural)]
pub enum Notification {
    LastFrame,
}

/// Notify that the view of an entity has changed.
#[derive(Clone, Copy, Debug, PartialEq, Eq)]
pub struct ViewChanged {
    pub entity: u64,
}

/// Sent when the animation of an entity has shown its last frame.
#[derive(Clone, Copy, Debug, PartialEq, Eq)]
pub struct LastFrame {
    pub entity: u64,
}

/// The state of one actor on screen.
#[derive(Debug)]
pub struct View2dActor {
    pub angle: Angle,
    pub action: u64,
    /// Next actions, taken one by one each time the last frame of the
    /// current action is done.
    pub next_action: Vec<u64>,
    pub actor: u64,
    pub flipped: bool,
    pub notify: Vec<Notification>,
}

/// The state of an actor as plain values.
pub struct ActorState {
    pub angle: Angle,
    pub action: u64,
    pub next_action: Seq<u64>,
    pub actor: u64,
    pub flipped: bool,
    pub notify: Seq<Notification>,
}

impl View for View2dActor {
    type V = ActorState;

    open spec fn view(&self) -> ActorState {
        ActorState {
            angle: self.angle,
            action: self.action,
            next_action: self.next_action@,
            actor: self.actor,
            flipped: self.flipped,
            notify: self.notify@,
        }
    }
}

impl Default for View2dActor {
    fn default() -> (actor: Self)
        ensures
            actor@ == (ActorState {
                angle: Angle::Front,
                action: 0,
                next_action: Seq::empty(),
                actor: 0,
                flipped: false,
                notify: Seq::empty(),
            }),
    {
        View2dActor {
            angle: Angle::default(),
            action: 0,
            next_action: Vec::new(),
            actor: 0,
            flipped: false,
            notify: Vec::new(),
        }
    }
}

/// The part of a texture atlas that a sprite shows: the layout and the
/// index of the frame.
#[derive(Clone, Copy, Debug, PartialEq, Eq)]
pub struct DisplayedAtlas {
    pub layout: LayoutId,
    pub index: usize,
}

/// What is on screen for an entity: the image, the atlas frame if the image
/// is a sheet of frames, and whether the image is mirrored.
#[derive(Clone, Copy, Debug, PartialEq, Eq)]
pub struct DisplayedSprite {
    pub image: ImageId,
    pub texture_atlas: Option<DisplayedAtlas>,
    pub flip_x: bool,
}

/// What an animation tick sends out.
#[derive(Clone, Copy, Debug, PartialEq, Eq)]
pub struct Emitted {
    pub last_frame: Option<LastFrame>,
    pub view_changed: Option<ViewChanged>,
}

/// The sprite after `sheet` has been applied to it. An image or a layout
/// that the sheet lacks leaves that part of the sprite as it is; a layout
/// goes nowhere if the sprite has no atlas. The sprite is mirrored if
/// `mirrored` says so; else a mirroring that an earlier view change made
/// (`was_flipped`) is undone.
pub open spec fn sheet_applied(
    sprite: DisplayedSprite,
    sheet: SpriteSheet,
    mirrored: bool,
    was_flipped: bool,
) -> DisplayedSprite {
    DisplayedSprite {
        image: match sheet.image {
            Some(image) => image,
            None => sprite.image,
        },
        texture_atlas: match sprite.texture_atlas {
            Some(atlas) => Some(
                DisplayedAtlas {
                    layout: match sheet.layout {
                        Some(layout) => layout,
                        None => atlas.layout,
                    },
                    index: atlas.index,
                },
            ),
            None => None,
        },
        flip_x: if mirrored {
            true
        } else if was_flipped {
            false
        } else {
            sprite.flip_x
        },
    }
}

/// The actor and its sprite after a view change has been processed. Where a
/// sheet is available it is applied and the actor remembers whether it is
/// shown mirrored. Where none is, nothing changes.
pub open spec fn view_changed_spec(
    actor: ActorState,
    sprite: DisplayedSprite,
    registry: Registry,
) -> (ActorState, DisplayedSprite) {
    match resolve_spec(registry, actor.actor, actor.action, actor.angle) {
        Some((sheet, mirrored)) => (
            ActorState { flipped: mirrored, ..actor },
            sheet_applied(sprite, sheet, mirrored, actor.flipped),
        ),
        None => (actor, sprite),
    }
}

/// The frame that follows `index` in an atlas of `frames` frames: the next
/// one, and the first after the last.
pub open spec fn next_frame(index: int, frames: int) -> int {
    (index + 1) % frames
}

/// Whether a tick of the animation has a frame to advance: the timer has
/// just finished, the sprite has an atlas and the number of its frames is
/// known.
pub open spec fn advances(
    sprite: DisplayedSprite,
    frame_count: Option<usize>,
    timer_just_finished: bool,
) -> bool {
    timer_just_finished && sprite.texture_atlas is Some && frame_count is Some
}

/// Whether the sprite shows the last frame of its atlas.
pub open spec fn at_last_frame(sprite: DisplayedSprite, frame_count: Option<usize>) -> bool {
    sprite.texture_atlas is Some && frame_count is Some && sprite.texture_atlas->0.index
        == frame_count->0 - 1
}

/// Whether a tick makes the actor go on to its next queued action: it
/// advances from the last frame and an action is queued.
pub open spec fn chains(
    actor: ActorState,
    sprite: DisplayedSprite,
    frame_count: Option<usize>,
    timer_just_finished: bool,
) -> bool {
    advances(sprite, frame_count, timer_just_finished) && at_last_frame(sprite, frame_count)
        && actor.next_action.len() > 0
}

/// The actor after a tick: where it chains, the first queued action has
/// become its action and has left the queue.
pub open spec fn actor_after_tick(
    actor: ActorState,
    sprite: DisplayedSprite,
    frame_count: Option<usize>,
    timer_just_finished: bool,
) -> ActorState {
    if chains(actor, sprite, frame_count, timer_just_finished) {
        ActorState {
            action: actor.next_action[0],
            next_action: actor.next_action.remove(0),
            ..actor
        }
    } else {
        actor
    }
}

/// The sprite after a tick: where it advances, the index has moved on to
/// the next frame, the first after the last.
pub open spec fn sprite_after_tick(
    sprite: DisplayedSprite,
    frame_count: Option<usize>,
    timer_just_finished: bool,
) -> DisplayedSprite {
    if advances(sprite, frame_count, timer_just_finished) {
        DisplayedSprite {
            texture_atlas: Some(
                DisplayedAtlas {
                    layout: sprite.texture_atlas->0.layout,
                    index: next_frame(
                        sprite.texture_atlas->0.index as int,
                        frame_count->0 as int,
                    ) as usize,
                },
            ),
            ..sprite
        }
    } else {
        sprite
    }
}

/// What a tick sends out: `LastFrame` where it advances from the last frame
/// and the actor has asked for it, `ViewChanged` where the actor goes on to
/// its next queued action.
pub open spec fn emitted_by_tick(
    entity: u64,
    actor: ActorState,
    sprite: DisplayedSprite,
    frame_count: Option<usize>,
    timer_just_finished: bool,
) -> Emitted {
    Emitted {
        last_frame: if advances(sprite, frame_count, timer_just_finished) && at_last_frame(
            sprite,
            frame_count,
        ) && actor.notify.contains(Notification::LastFrame) {
            Some(LastFrame { entity })
        } else {
            None
        },
        view_changed: if chains(actor, sprite, frame_count, timer_just_finished) {
            Some(ViewChanged { entity })
        } else {
            None
        },
    }
}

impl View2dActor {
    /// Whether the actor has asked to be told of `kind`.
    pub fn wants(&self, kind: Notification) -> (wanted: bool)
        ensures
            wanted == self@.notify.contains(kind),
    {
        let mut i: usize = 0;
        while i < self.notify.len()
            invariant
                i <= self.notify.len(),
                forall|j: int| 0 <= j < i ==> self.notify@[j] != kind,
            decreases self.notify.len() - i,
        {
            if self.notify[i] == kind {
                return true;
            }
            i += 1;
        }
        false
    }
}

/// Processes one "view changed" notification for an entity: looks up the
/// sheet for the actor's id, action and angle and applies it to the sprite.
/// If the sheet of an angle does not exist, the sheet of the opposite angle
/// is shown mirrored. If nothing is available, neither the actor nor the
/// sprite changes. Returns whether a sheet was applied.
pub fn view_changed_event(
    actor: &mut View2dActor,
    sprite: &mut DisplayedSprite,
    sheets: &ActorSpriteSheets,
) -> (applied: bool)
    ensures
        (final(actor)@, *final(sprite)) == view_changed_spec(old(actor)@, *old(sprite), sheets@),
        applied == resolve_spec(sheets@, old(actor).actor, old(actor).action, old(actor).angle)
            is Some,
{
    match sheets.resolve(actor.actor, actor.action, actor.angle) {
        Some((sheet, mirrored)) => {
            if actor.flipped {
                sprite.flip_x = false;
                actor.flipped = false;
            }
            if mirrored {
                sprite.flip_x = true;
                actor.flipped = true;
            }
            if let Some(image) = sheet.image {
                sprite.image = image;
            }
            if let Some(atlas) = sprite.texture_atlas {
                if let Some(layout) = sheet.layout {
                    sprite.texture_atlas = Some(DisplayedAtlas { layout, index: atlas.index });
                }
            }
            true
        },
        None => false,
    }
}

/// Advances the animation of an entity by one tick of its timer.
/// `frame_count` is the number of frames in the atlas layout that the sprite
/// shows, where that is known. Where the timer has just finished and there is
/// a frame to advance, the index moves to the next frame and wraps to 0 after
/// the last. On the last frame, `LastFrame` is sent if the actor has asked for
/// it, and the first queued action, if any, becomes the actor's action and
/// `ViewChanged` is sent for it.
pub fn dynamic_actor_animate(
    entity: u64,
    actor: &mut View2dActor,
    sprite: &mut DisplayedSprite,
    frame_count: Option<usize>,
    timer_just_finished: bool,
) -> (emitted: Emitted)
    requires
        frame_count matches Some(frames) ==> frames > 0,
    ensures
        final(actor)@ == actor_after_tick(
            old(actor)@,
            *old(sprite),
            frame_count,
            timer_just_finished,
        ),
        *final(sprite) == sprite_after_tick(*old(sprite), frame_count, timer_just_finished),
        emitted == emitted_by_tick(
            entity,
            old(actor)@,
            *old(sprite),
            frame_count,
            timer_just_finished,
        ),
{
    let mut emitted = Emitted { last_frame: None, view_changed: None };
    if !timer_just_finished {
        return emitted;
    }
    let atlas = match sprite.texture_atlas {
        Some(atlas) => atlas,
        None => {
            return emitted;
        },
    };
    let frames = match frame_count {
        Some(frames) => frames,
        None => {
            return emitted;
        },
    };
    if atlas.index == frames - 1 {
        if actor.wants(Notification::LastFrame) {
            emitted.last_frame = Some(LastFrame { entity });
        }
        if actor.next_action.len() > 0 {
            let next = actor.next_action.remove(0);
            actor.action = next;
            emitted.view_changed = Some(ViewChanged { entity });
        }
    }
    proof {
        lemma_add_mod_noop_right(1, atlas.index as int, frames as int);
    }
    let index = (atlas.index % frames + 1) % frames;
    sprite.texture_atlas = Some(DisplayedAtlas { layout: atlas.layout, index });
    emitted
}

} // verus!
