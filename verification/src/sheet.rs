//! Sprite sheets and the table that holds one sheet per angle.

use crate::angle::{Angle, ANGLE_COUNT, lemma_code_injective};
use std::collections::HashMap;
use vstd::prelude::*;
use vstd::std_specs::hash::*;

verus! {

broadcast use group_hash_axioms;

/// An opaque reference to an image that an asset manager owns.
#[derive(Clone, Copy, Debug, PartialEq, Eq, Hash)]
pub struct ImageId(pub u64);

/// An opaque reference to a texture atlas layout that an asset manager owns.
#[derive(Clone, Copy, Debug, PartialEq, Eq, Hash)]
pub struct LayoutId(pub u64);

/// Sprite sheet for one angle: an image and an atlas layout, either of which
/// may be absent.
#[derive(Clone, Copy, Debug, PartialEq, Eq)]
pub struct SpriteSheet {
    pub layout: Option<LayoutId>,
    pub image: Option<ImageId>,
}

impl Default for SpriteSheet {
    fn default() -> (sheet: Self)
        ensures
            sheet == SpriteSheet::empty(),
    {
        SpriteSheet { layout: None, image: None }
    }
}

impl SpriteSheet {
    /// The sheet that holds nothing.
    pub open spec fn empty() -> SpriteSheet {
        SpriteSheet { layout: None, image: None }
    }

    /// This sheet, with each absent part taken from `other`. A part that is
    /// present is kept.
    pub open spec fn filled_from_spec(self, other: SpriteSheet) -> SpriteSheet {
        SpriteSheet {
            layout: if self.layout is None {
                other.layout
            } else {
                self.layout
            },
            image: if self.image is None {
                other.image
            } else {
                self.image
            },
        }
    }

    /// Fills the absent parts of this sheet from `other`, never replacing a
    /// part that is present.
    pub fn filled_from(self, other: &SpriteSheet) -> (filled: SpriteSheet)
        ensures
            filled == self.filled_from_spec(*other),
    {
        SpriteSheet {
            layout: if self.layout.is_none() {
                other.layout
            } else {
                self.layout
            },
            image: if self.image.is_none() {
                other.image
            } else {
                self.image
            },
        }
    }
}

/// The table of one actor's one action, as a map: at most one sheet per angle.
pub type AngleMap = Map<Angle, SpriteSheet>;

/// What a part of a sheet becomes when an entry is merged: the supplied
/// value where there is one, else the value inherited from the `Any` sheet
/// where that has one, else what the sheet held already.
pub open spec fn inherit<T>(supplied: Option<T>, inherited: Option<T>, current: Option<T>) -> Option<
    T,
> {
    if supplied is Some {
        supplied
    } else if inherited is Some {
        inherited
    } else {
        current
    }
}

/// The sheet stored under `angle` once an entry with the given image and
/// layout has been merged into `table`, before any propagation.
pub open spec fn merged_sheet(
    table: AngleMap,
    angle: Angle,
    image: Option<ImageId>,
    layout: Option<LayoutId>,
) -> SpriteSheet {
    let any = if table.contains_key(Angle::Any) {
        table[Angle::Any]
    } else {
        SpriteSheet::empty()
    };
    let current = if table.contains_key(angle) {
        table[angle]
    } else {
        SpriteSheet::empty()
    };
    SpriteSheet {
        layout: inherit(layout, any.layout, current.layout),
        image: inherit(image, any.image, current.image),
    }
}

/// `table` with the absent parts of every sheet in it filled from `source`.
pub open spec fn propagated(table: AngleMap, source: SpriteSheet) -> AngleMap {
    Map::new(|a: Angle| table.contains_key(a), |a: Angle| table[a].filled_from_spec(source))
}

/// The table after one entry has been merged into it. The sheet under
/// `angle` is created if absent and takes the entry's image and layout,
/// inheriting what the entry leaves out from the sheet that stood under `Any`
/// before. An entry for `Any` then fills the gaps of every sheet in the table.
pub open spec fn merge_entry(
    table: AngleMap,
    angle: Angle,
    image: Option<ImageId>,
    layout: Option<LayoutId>,
) -> AngleMap {
    let sheet = merged_sheet(table, angle, image, layout);
    let inserted = table.insert(angle, sheet);
    if angle == Angle::Any {
        propagated(inserted, sheet)
    } else {
        inserted
    }
}

/// The table built from a list of pairs, taken in order: a later pair
/// replaces an earlier one for the same angle.
pub open spec fn table_of_pairs(items: Seq<(Angle, SpriteSheet)>) -> AngleMap
    decreases items.len(),
{
    if items.len() == 0 {
        Map::empty()
    } else {
        table_of_pairs(items.drop_last()).insert(items.last().0, items.last().1)
    }
}

/// Map of angles to their sprite sheets, for one actor and one action.
#[derive(Debug, PartialEq, Eq)]
pub struct AngleSpriteSheets {
    sheets: HashMap<u8, SpriteSheet>,
}

impl View for AngleSpriteSheets {
    type V = AngleMap;

    closed spec fn view(&self) -> AngleMap {
        Map::new(
            |a: Angle| self.sheets@.contains_key(a.code_spec()),
            |a: Angle| self.sheets@[a.code_spec()],
        )
    }
}

impl Default for AngleSpriteSheets {
    fn default() -> (table: Self)
        ensures
            table@ == Map::<Angle, SpriteSheet>::empty(),
    {
        AngleSpriteSheets::new()
    }
}

impl AngleSpriteSheets {
    /// A table with no sheet in it.
    pub fn new() -> (table: Self)
        ensures
            table@ == Map::<Angle, SpriteSheet>::empty(),
    {
        let table = AngleSpriteSheets { sheets: HashMap::new() };
        assert(table@ =~= Map::<Angle, SpriteSheet>::empty());
        table
    }

    /// Stores sprite sheets from a list of angles and sheets. Where an angle
    /// occurs more than once, the last of its sheets stays.
    pub fn from(items: Vec<(Angle, SpriteSheet)>) -> (table: Self)
        ensures
            table@ == table_of_pairs(items@),
    {
        let mut table = AngleSpriteSheets::new();
        let mut i: usize = 0;
        while i < items.len()
            invariant
                i <= items.len(),
                table@ == table_of_pairs(items@.take(i as int)),
            decreases items.len() - i,
        {
            let (angle, sheet) = items[i];
            proof {
                let next = items@.take(i + 1);
                assert(next.drop_last() =~= items@.take(i as int));
                assert(next.last() == items@[i as int]);
            }
            table.insert(angle, sheet);
            i += 1;
        }
        assert(items@.take(items.len() as int) =~= items@);
        table
    }

    /// The sheet stored under `angle`, if there is one.
    pub fn get(&self, angle: Angle) -> (sheet: Option<&SpriteSheet>)
        ensures
            match sheet {
                Some(s) => self@.contains_key(angle) && *s == self@[angle],
                None => !self@.contains_key(angle),
            },
    {
        let code = angle.code();
        self.sheets.get(&code)
    }

    /// Whether a sheet is stored under `angle`.
    pub fn contains_key(&self, angle: Angle) -> (present: bool)
        ensures
            present == self@.contains_key(angle),
    {
        let code = angle.code();
        self.sheets.contains_key(&code)
    }

    /// Stores `sheet` under `angle` and returns the sheet that stood there.
    pub fn insert(&mut self, angle: Angle, sheet: SpriteSheet) -> (previous: Option<SpriteSheet>)
        ensures
            final(self)@ == old(self)@.insert(angle, sheet),
            match previous {
                Some(p) => old(self)@.contains_key(angle) && p == old(self)@[angle],
                None => !old(self)@.contains_key(angle),
            },
    {
        let code = angle.code();
        let previous = self.sheets.insert(code, sheet);
        proof {
            assert forall|a: Angle| #[trigger]
                self@.contains_key(a) == old(self)@.insert(angle, sheet).contains_key(a) by {
                lemma_code_injective(a, angle);
            }
            assert forall|a: Angle| #[trigger] self@.contains_key(a) implies self@[a] == old(
                self,
            )@.insert(angle, sheet)[a] by {
                lemma_code_injective(a, angle);
            }
            assert(self@ =~= old(self)@.insert(angle, sheet));
        }
        previous
    }

    /// Merges one entry into the table. The sheet under `angle` is created
    /// if absent, takes the image and layout that the entry supplies, and
    /// inherits what the entry leaves out from the sheet that stood under
    /// `Any` before the call. Where `angle` is `Any`, the absent parts of every
    /// sheet in the table are then filled from the new `Any` sheet; a part that
    /// was present stays as it was.
    pub fn merge(
        &mut self,
        angle: Angle,
        image: Option<ImageId>,
        layout: Option<LayoutId>,
    )
        ensures
            final(self)@ == merge_entry(old(self)@, angle, image, layout),
    {
        let any = match self.get(Angle::Any) {
            Some(s) => *s,
            None => SpriteSheet::default(),
        };
        let current = match self.get(angle) {
            Some(s) => *s,
            None => SpriteSheet::default(),
        };
        let sheet = SpriteSheet {
            layout: if layout.is_some() {
                layout
            } else if any.layout.is_some() {
                any.layout
            } else {
                current.layout
            },
            image: if image.is_some() {
                image
            } else if any.image.is_some() {
                any.image
            } else {
                current.image
            },
        };
        self.insert(angle, sheet);
        if angle == Angle::Any {
            self.fill_gaps(&sheet);
        }
    }

    /// Fills the absent parts of every sheet in the table from `source`.
    pub fn fill_gaps(&mut self, source: &SpriteSheet)
        ensures
            final(self)@ == propagated(old(self)@, *source),
    {
        let mut code: u8 = 0;
        while code < ANGLE_COUNT
            invariant
                code <= ANGLE_COUNT,
                forall|a: Angle| #[trigger] self@.contains_key(a) == old(self)@.contains_key(a),
                forall|a: Angle|
                    #![trigger self@[a]]
                    old(self)@.contains_key(a) ==> self@[a] == if a.code_spec() < code {
                        old(self)@[a].filled_from_spec(*source)
                    } else {
                        old(self)@[a]
                    },
            decreases ANGLE_COUNT - code,
        {
            if let Some(angle) = Angle::from_code(code) {
                let found = match self.get(angle) {
                    Some(s) => Some(*s),
                    None => None,
                };
                if let Some(sheet) = found {
                    let filled = sheet.filled_from(source);
                    self.insert(angle, filled);
                }
                proof {
                    assert forall|a: Angle| a.code_spec() == code implies a == angle by {
                        lemma_code_injective(a, angle);
                    }
                }
            }
            code += 1;
        }
        proof {
            assert forall|a: Angle| a.code_spec() < ANGLE_COUNT by {
                lemma_code_injective(a, a);
            }
            assert(self@ =~= propagated(old(self)@, *source));
        }
    }
}

} // verus!
