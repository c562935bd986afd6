//! Picking the sheet to display for an actor, an action and an angle, with
//! the fallbacks that apply where the exact one is missing.

use crate::angle::Angle;
use crate::registry::{ActorSpriteSheets, Registry};
use crate::sheet::{AngleMap, AngleSpriteSheets, SpriteSheet};
use vstd::prelude::*;

verus! {

/// The actor id whose tables stand in for an actor that has none of its own.
pub const ACTOR_ANY: u64 = 0;

/// The action id whose table stands in for an action that has none of its own.
pub const ACTION_ANY: u64 = 0;

/// The sheet of the mirror partner of `angle` in `table`, if the angle has a
/// partner and the partner has a sheet.
pub open spec fn opposite_view(table: AngleMap, angle: Angle) -> Option<SpriteSheet> {
    match angle.mirror_spec() {
        Some(partner) => if table.contains_key(partner) {
            Some(table[partner])
        } else {
            None
        },
        None => None,
    }
}

/// What one table offers for `angle`: the sheet and whether it has to be
/// shown mirrored. The angle's own sheet comes first, then its mirror
/// partner's, shown mirrored, then the one under `Any`.
pub open spec fn resolve_in_table(table: AngleMap, angle: Angle) -> Option<(SpriteSheet, bool)> {
    if table.contains_key(angle) {
        Some((table[angle], false))
    } else if opposite_view(table, angle) is Some {
        Some((opposite_view(table, angle)->0, true))
    } else if table.contains_key(Angle::Any) {
        Some((table[Angle::Any], false))
    } else {
        None
    }
}

/// What the table of `actor` and `action` offers for `angle`; nothing where
/// there is no such table.
pub open spec fn resolve_tier(registry: Registry, actor: u64, action: u64, angle: Angle) -> Option<
    (SpriteSheet, bool),
> {
    if registry.contains_key(actor) && registry[actor].contains_key(action) {
        resolve_in_table(registry[actor][action], angle)
    } else {
        None
    }
}

/// The sheet to display for `actor`, `action` and `angle`, and whether to
/// mirror it. Four tables are asked in turn and the first that offers
/// something wins: that of the actor and the action, that of the actor and
/// `ACTION_ANY`, that of `ACTOR_ANY` and the action, that of `ACTOR_ANY` and
/// `ACTION_ANY`. `None` where none of them offers anything.
pub open spec fn resolve_spec(registry: Registry, actor: u64, action: u64, angle: Angle) -> Option<
    (SpriteSheet, bool),
> {
    if resolve_tier(registry, actor, action, angle) is Some {
        resolve_tier(registry, actor, action, angle)
    } else if resolve_tier(registry, actor, ACTION_ANY, angle) is Some {
        resolve_tier(registry, actor, ACTION_ANY, angle)
    } else if resolve_tier(registry, ACTOR_ANY, action, angle) is Some {
        resolve_tier(registry, ACTOR_ANY, action, angle)
    } else {
        resolve_tier(registry, ACTOR_ANY, ACTION_ANY, angle)
    }
}

/// The sheet of the opposite angle: of `Right` for `Left`, of `FrontLeft`
/// for `FrontRight` and so on. `None` where `direction` has no opposite or the
/// opposite has no sheet.
pub fn get_opposite_view(texture: &AngleSpriteSheets, direction: Angle) -> (sheet: Option<
    &SpriteSheet,
>)
    ensures
        match sheet {
            Some(s) => opposite_view(texture@, direction) == Some(*s),
            None => opposite_view(texture@, direction) is None,
        },
{
    match direction.mirror() {
        Some(partner) => texture.get(partner),
        None => None,
    }
}

impl AngleSpriteSheets {
    /// The sheet that this table offers for `angle` and whether it has to
    /// be shown mirrored: the angle's own sheet, else its mirror partner's,
    /// mirrored, else the one under `Any`, else nothing.
    pub fn resolve(&self, angle: Angle) -> (found: Option<(SpriteSheet, bool)>)
        ensures
            found == resolve_in_table(self@, angle),
    {
        if let Some(sheet) = self.get(angle) {
            return Some((*sheet, false));
        }
        if let Some(sheet) = get_opposite_view(self, angle) {
            return Some((*sheet, true));
        }
        match self.get(Angle::Any) {
            Some(sheet) => Some((*sheet, false)),
            None => None,
        }
    }
}

impl ActorSpriteSheets {
    /// What the table of `actor` and `action` offers for `angle`.
    pub fn resolve_tier(&self, actor: u64, action: u64, angle: Angle) -> (found: Option<
        (SpriteSheet, bool),
    >)
        ensures
            found == resolve_tier(self@, actor, action, angle),
    {
        match self.get(actor, action) {
            Some(table) => table.resolve(angle),
            None => None,
        }
    }

    /// The sheet to display for `actor`, `action` and `angle`, and whether
    /// it has to be shown mirrored. `None` means that nothing is available:
    /// neither under the actor and action, nor under `ACTION_ANY` or
    /// `ACTOR_ANY` in their place, is there a sheet for the angle, its mirror
    /// partner or `Any`.
    pub fn resolve(&self, actor: u64, action: u64, angle: Angle) -> (found: Option<
        (SpriteSheet, bool),
    >)
        ensures
            found == resolve_spec(self@, actor, action, angle),
    {
        let exact = self.resolve_tier(actor, action, angle);
        if exact.is_some() {
            return exact;
        }
        let any_action = self.resolve_tier(actor, ACTION_ANY, angle);
        if any_action.is_some() {
            return any_action;
        }
        let any_actor = self.resolve_tier(ACTOR_ANY, action, angle);
        if any_actor.is_some() {
            return any_actor;
        }
        self.resolve_tier(ACTOR_ANY, ACTION_ANY, angle)
    }
}

} // verus!
