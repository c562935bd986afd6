//! The registry of sprite sheets, organised by actor id, action id and
//! angle, and the rules by which a sequence of entries is folded into it.

use crate::angle::Angle;
use crate::sheet::{AngleMap, AngleSpriteSheets, ImageId, LayoutId, merge_entry};
use std::collections::HashMap;
use vstd::prelude::*;
use vstd::std_specs::hash::*;

verus! {

broadcast use group_hash_axioms;

/// One entry to register: actor id, action id, angle, image and atlas
/// layout. Whatever is `None` is left out. An entry without actor or action
/// goes under those of the entry before it.
pub type FieldEntry = (Option<u64>, Option<u64>, Option<Angle>, Option<ImageId>, Option<LayoutId>);

/// The tables of one actor, by action id.
pub type ActionMap = Map<u64, AngleMap>;

/// The whole registry as a map: actor id, then action id, then angle.
pub type Registry = Map<u64, ActionMap>;

/// A collection of assets that can list its entries for the registry, in the
/// order in which its fields are declared.
pub trait View2dCollection {
    fn get_all(&self) -> Vec<FieldEntry>;
}

/// The table registered for `actor` and `action`, or the empty table.
pub open spec fn table_at(registry: Registry, actor: u64, action: u64) -> AngleMap {
    if registry.contains_key(actor) && registry[actor].contains_key(action) {
        registry[actor][action]
    } else {
        Map::empty()
    }
}

/// The tables registered for `actor`, or none.
pub open spec fn actions_at(registry: Registry, actor: u64) -> ActionMap {
    if registry.contains_key(actor) {
        registry[actor]
    } else {
        Map::empty()
    }
}

/// The registry after one entry has been merged into the table of `actor`
/// and `action`. The table is created if absent; no other table changes.
pub open spec fn register_entry(
    registry: Registry,
    actor: u64,
    action: u64,
    angle: Angle,
    image: Option<ImageId>,
    layout: Option<LayoutId>,
) -> Registry {
    registry.insert(
        actor,
        actions_at(registry, actor).insert(
            action,
            merge_entry(table_at(registry, actor, action), angle, image, layout),
        ),
    )
}

/// The id that an entry goes under: its own where it names one, else the
/// one carried forward from the entry before.
pub open spec fn carried(own: Option<u64>, carried: u64) -> u64 {
    match own {
        Some(id) => id,
        None => carried,
    }
}

/// The angle that an entry goes under: its own, or `Front`.
pub open spec fn angle_or_default(angle: Option<Angle>) -> Angle {
    match angle {
        Some(a) => a,
        None => Angle::Front,
    }
}

/// The registry after the entries have been registered in order, where
/// `actor` and `action` are the ids carried forward into the first of them.
pub open spec fn register_from(
    registry: Registry,
    entries: Seq<FieldEntry>,
    actor: u64,
    action: u64,
) -> Registry
    decreases entries.len(),
{
    if entries.len() == 0 {
        registry
    } else {
        let entry = entries[0];
        let actor = carried(entry.0, actor);
        let action = carried(entry.1, action);
        register_from(
            register_entry(registry, actor, action, angle_or_default(entry.2), entry.3, entry.4),
            entries.skip(1),
            actor,
            action,
        )
    }
}

/// The registry after a batch of entries has been registered in order. The
/// first entry goes under actor 0 and action 0 unless it says otherwise.
pub open spec fn register_all(registry: Registry, entries: Seq<FieldEntry>) -> Registry {
    register_from(registry, entries, 0, 0)
}

/// The resource that stores every sprite sheet, organised by actor id and
/// action id.
#[derive(Debug, PartialEq, Eq)]
pub struct ActorSpriteSheets {
    actors: HashMap<u64, HashMap<u64, AngleSpriteSheets>>,
}

impl View for ActorSpriteSheets {
    type V = Registry;

    closed spec fn view(&self) -> Registry {
        Map::new(
            |actor: u64| self.actors@.contains_key(actor),
            |actor: u64| actions_view(self.actors@[actor]),
        )
    }
}

/// The tables of one actor as a map of maps.
pub closed spec fn actions_view(actions: HashMap<u64, AngleSpriteSheets>) -> ActionMap {
    Map::new(|action: u64| actions@.contains_key(action), |action: u64| actions@[action]@)
}

impl Default for ActorSpriteSheets {
    fn default() -> (sheets: Self)
        ensures
            sheets@ == Map::<u64, ActionMap>::empty(),
    {
        ActorSpriteSheets::new()
    }
}

impl ActorSpriteSheets {
    /// A registry with nothing in it.
    pub fn new() -> (sheets: Self)
        ensures
            sheets@ == Map::<u64, ActionMap>::empty(),
    {
        let sheets = ActorSpriteSheets { actors: HashMap::new() };
        assert(sheets@ =~= Map::<u64, ActionMap>::empty());
        sheets
    }

    /// The table registered for `actor` and `action`, if there is one.
    pub fn get(&self, actor: u64, action: u64) -> (table: Option<&AngleSpriteSheets>)
        ensures
            match table {
                Some(t) => self@.contains_key(actor) && self@[actor].contains_key(action) && t@
                    == self@[actor][action],
                None => !(self@.contains_key(actor) && self@[actor].contains_key(action)),
            },
    {
        match self.actors.get(&actor) {
            Some(actions) => actions.get(&action),
            None => None,
        }
    }

    /// Stores `table` for `actor` and `action`, in place of the one that may
    /// stand there.
    pub fn insert(&mut self, actor: u64, action: u64, table: AngleSpriteSheets)
        ensures
            final(self)@ == old(self)@.insert(
                actor,
                actions_at(old(self)@, actor).insert(action, table@),
            ),
    {
        let mut actions = match self.actors.remove(&actor) {
            Some(actions) => actions,
            None => HashMap::new(),
        };
        let ghost before = actions_view(actions);
        assert(before =~= actions_at(old(self)@, actor));
        actions.insert(action, table);
        assert(actions_view(actions) =~= before.insert(action, table@));
        self.actors.insert(actor, actions);
        assert(self@ =~= old(self)@.insert(
            actor,
            actions_at(old(self)@, actor).insert(action, table@),
        ));
    }

    /// Registers one entry under `actor` and `action`: merges it into their
    /// table, which is created if absent.
    pub fn register_entry(
        &mut self,
        actor: u64,
        action: u64,
        angle: Angle,
        image: Option<ImageId>,
        layout: Option<LayoutId>,
    )
        ensures
            final(self)@ == register_entry(old(self)@, actor, action, angle, image, layout),
    {
        let mut actions = match self.actors.remove(&actor) {
            Some(actions) => actions,
            None => HashMap::new(),
        };
        let ghost actions_before = actions_view(actions);
        assert(actions_before =~= actions_at(old(self)@, actor));
        let mut table = match actions.remove(&action) {
            Some(table) => table,
            None => AngleSpriteSheets::new(),
        };
        assert(table@ =~= table_at(old(self)@, actor, action));
        table.merge(angle, image, layout);
        actions.insert(action, table);
        assert(actions_view(actions) =~= actions_before.insert(action, table@));
        self.actors.insert(actor, actions);
        assert(self@ =~= register_entry(old(self)@, actor, action, angle, image, layout));
    }

    /// Registers a batch of entries in the order given. An entry that names
    /// no actor or no action goes under those of the entry before it, the
    /// first one under actor 0 and action 0; one that names no angle goes under
    /// `Front`. Each entry is merged into the table of its actor and action as
    /// `AngleSpriteSheets::merge` describes.
    pub fn register(&mut self, entries: Vec<FieldEntry>)
        ensures
            final(self)@ == register_all(old(self)@, entries@),
    {
        let mut actor_id: u64 = 0;
        let mut action_id: u64 = 0;
        let mut i: usize = 0;
        assert(entries@.skip(0) =~= entries@);
        while i < entries.len()
            invariant
                i <= entries.len(),
                register_from(self@, entries@.skip(i as int), actor_id, action_id) == register_all(
                    old(self)@,
                    entries@,
                ),
            decreases entries.len() - i,
        {
            let (actor, action, angle, image, layout) = entries[i];
            proof {
                let rest = entries@.skip(i as int);
                assert(rest[0] == entries@[i as int]);
                assert(rest.skip(1) =~= entries@.skip(i + 1));
            }
            actor_id = match actor {
                Some(id) => id,
                None => actor_id,
            };
            action_id = match action {
                Some(id) => id,
                None => action_id,
            };
            let field_angle = match angle {
                Some(a) => a,
                None => Angle::default(),
            };
            self.register_entry(actor_id, action_id, field_angle, image, layout);
            i += 1;
        }
    }

    /// Stores the sprite sheets of a collection: asks it for its entries and
    /// registers them in order. What the registry holds afterwards is the
    /// result of `register` on whatever entries the collection listed.
    pub fn load_asset_loader<T: View2dCollection>(&mut self, loader: &T)
        ensures
            exists|entries: Seq<FieldEntry>| #[trigger]
                register_all(old(self)@, entries) == final(self)@,
    {
        let entries = loader.get_all();
        self.register(entries);
        assert(register_all(old(self)@, entries@) == self@);
    }
}

} // verus!
