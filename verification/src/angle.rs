//! The nine symbolic view directions and their mirrored pairs.

use crate::ident::same_text;
use vstd::prelude::*;

verus! {

/// All supported angles. `Any` is the wildcard: a sheet stored under it
/// stands in for every angle that has none of its own.
#[derive(Clone, Copy, Debug, PartialEq, Eq, Hash, Structural)]
pub enum Angle {
    Any,
    Front,
    Back,
    Left,
    Right,
    FrontLeft,
    FrontRight,
    BackLeft,
    BackRight,
}

/// How many angles there are; every angle's code lies below it.
pub const ANGLE_COUNT: u8 = 9;

impl Default for Angle {
    fn default() -> (angle: Self)
        ensures
            angle == Angle::Front,
    {
        Angle::Front
    }
}

impl Angle {
    /// The angle on the other side of the vertical axis, where there is one.
    pub open spec fn mirror_spec(self) -> Option<Angle> {
        match self {
            Angle::Left => Some(Angle::Right),
            Angle::Right => Some(Angle::Left),
            Angle::FrontLeft => Some(Angle::FrontRight),
            Angle::FrontRight => Some(Angle::FrontLeft),
            Angle::BackLeft => Some(Angle::BackRight),
            Angle::BackRight => Some(Angle::BackLeft),
            _ => None,
        }
    }

    /// The position of the angle in the declaration order, from 0.
    pub open spec fn code_spec(self) -> u8 {
        match self {
            Angle::Any => 0,
            Angle::Front => 1,
            Angle::Back => 2,
            Angle::Left => 3,
            Angle::Right => 4,
            Angle::FrontLeft => 5,
            Angle::FrontRight => 6,
            Angle::BackLeft => 7,
            Angle::BackRight => 8,
        }
    }

    /// The angle that has the given code, if any.
    pub open spec fn from_code_spec(code: u8) -> Option<Angle> {
        if code == 0 {
            Some(Angle::Any)
        } else if code == 1 {
            Some(Angle::Front)
        } else if code == 2 {
            Some(Angle::Back)
        } else if code == 3 {
            Some(Angle::Left)
        } else if code == 4 {
            Some(Angle::Right)
        } else if code == 5 {
            Some(Angle::FrontLeft)
        } else if code == 6 {
            Some(Angle::FrontRight)
        } else if code == 7 {
            Some(Angle::BackLeft)
        } else if code == 8 {
            Some(Angle::BackRight)
        } else {
            None
        }
    }

    /// The mirror partner of this angle; `Any`, `Front` and `Back` have none.
    pub fn mirror(self) -> (partner: Option<Angle>)
        ensures
            partner == self.mirror_spec(),
    {
        match self {
            Angle::Left => Some(Angle::Right),
            Angle::Right => Some(Angle::Left),
            Angle::FrontLeft => Some(Angle::FrontRight),
            Angle::FrontRight => Some(Angle::FrontLeft),
            Angle::BackLeft => Some(Angle::BackRight),
            Angle::BackRight => Some(Angle::BackLeft),
            _ => None,
        }
    }

    /// A small integer that stands for the angle, below `ANGLE_COUNT`.
    pub fn code(self) -> (code: u8)
        ensures
            code == self.code_spec(),
            code < ANGLE_COUNT,
            Angle::from_code_spec(code) == Some(self),
    {
        match self {
            Angle::Any => 0,
            Angle::Front => 1,
            Angle::Back => 2,
            Angle::Left => 3,
            Angle::Right => 4,
            Angle::FrontLeft => 5,
            Angle::FrontRight => 6,
            Angle::BackLeft => 7,
            Angle::BackRight => 8,
        }
    }

    /// The angle with the given code: `Some` exactly for codes below
    /// `ANGLE_COUNT`.
    pub fn from_code(code: u8) -> (angle: Option<Angle>)
        ensures
            angle == Angle::from_code_spec(code),
            angle is Some <==> code < ANGLE_COUNT,
            angle matches Some(a) ==> a.code_spec() == code,
    {
        match code {
            0 => Some(Angle::Any),
            1 => Some(Angle::Front),
            2 => Some(Angle::Back),
            3 => Some(Angle::Left),
            4 => Some(Angle::Right),
            5 => Some(Angle::FrontLeft),
            6 => Some(Angle::FrontRight),
            7 => Some(Angle::BackLeft),
            8 => Some(Angle::BackRight),
            _ => None,
        }
    }
}

/// The angle whose variant is written `name`: `Any`, `Front`, `Back`, `Left`,
/// `Right`, `FrontLeft`, `FrontRight`, `BackLeft` or `BackRight`.
pub open spec fn angle_of_variant(name: Seq<char>) -> Option<Angle> {
    if name == "Any"@ {
        Some(Angle::Any)
    } else if name == "Front"@ {
        Some(Angle::Front)
    } else if name == "Back"@ {
        Some(Angle::Back)
    } else if name == "Left"@ {
        Some(Angle::Left)
    } else if name == "Right"@ {
        Some(Angle::Right)
    } else if name == "FrontLeft"@ {
        Some(Angle::FrontLeft)
    } else if name == "FrontRight"@ {
        Some(Angle::FrontRight)
    } else if name == "BackLeft"@ {
        Some(Angle::BackLeft)
    } else if name == "BackRight"@ {
        Some(Angle::BackRight)
    } else {
        None
    }
}

/// The angle whose lower-case name is `name`: `any`, `front`, `back`, `left`,
/// `right`, `front_left`, `front_right`, `back_left` or `back_right`.
pub open spec fn angle_of_name(name: Seq<char>) -> Option<Angle> {
    if name == "any"@ {
        Some(Angle::Any)
    } else if name == "front"@ {
        Some(Angle::Front)
    } else if name == "back"@ {
        Some(Angle::Back)
    } else if name == "left"@ {
        Some(Angle::Left)
    } else if name == "right"@ {
        Some(Angle::Right)
    } else if name == "front_left"@ {
        Some(Angle::FrontLeft)
    } else if name == "front_right"@ {
        Some(Angle::FrontRight)
    } else if name == "back_left"@ {
        Some(Angle::BackLeft)
    } else if name == "back_right"@ {
        Some(Angle::BackRight)
    } else {
        None
    }
}

impl Angle {
    /// The angle whose variant is written `name`, letter for letter; `None`
    /// for every other string.
    pub fn from_variant_name(name: &str) -> (angle: Option<Angle>)
        ensures
            angle == angle_of_variant(name@),
    {
        if same_text(name, "Any") {
            Some(Angle::Any)
        } else if same_text(name, "Front") {
            Some(Angle::Front)
        } else if same_text(name, "Back") {
            Some(Angle::Back)
        } else if same_text(name, "Left") {
            Some(Angle::Left)
        } else if same_text(name, "Right") {
            Some(Angle::Right)
        } else if same_text(name, "FrontLeft") {
            Some(Angle::FrontLeft)
        } else if same_text(name, "FrontRight") {
            Some(Angle::FrontRight)
        } else if same_text(name, "BackLeft") {
            Some(Angle::BackLeft)
        } else if same_text(name, "BackRight") {
            Some(Angle::BackRight)
        } else {
            None
        }
    }

    /// The angle whose lower-case name is `name`, letter for letter; `None`
    /// for every other string.
    pub fn from_name(name: &str) -> (angle: Option<Angle>)
        ensures
            angle == angle_of_name(name@),
    {
        if same_text(name, "any") {
            Some(Angle::Any)
        } else if same_text(name, "front") {
            Some(Angle::Front)
        } else if same_text(name, "back") {
            Some(Angle::Back)
        } else if same_text(name, "left") {
            Some(Angle::Left)
        } else if same_text(name, "right") {
            Some(Angle::Right)
        } else if same_text(name, "front_left") {
            Some(Angle::FrontLeft)
        } else if same_text(name, "front_right") {
            Some(Angle::FrontRight)
        } else if same_text(name, "back_left") {
            Some(Angle::BackLeft)
        } else if same_text(name, "back_right") {
            Some(Angle::BackRight)
        } else {
            None
        }
    }
}

/// Mirroring is an involution on the six sideways angles and is undefined on
/// the rest: the partner of an angle's partner is the angle itself, a partner
/// is never the angle itself, and `Any`, `Front` and `Back` are nobody's
/// partner.
pub proof fn lemma_mirror_involution(angle: Angle)
    ensures
        angle.mirror_spec() matches Some(partner) ==> {
            &&& partner != angle
            &&& partner.mirror_spec() == Some(angle)
            &&& partner != Angle::Any && partner != Angle::Front && partner != Angle::Back
        },
        angle.mirror_spec() is None <==> (angle == Angle::Any || angle == Angle::Front || angle
            == Angle::Back),
{
}

/// Codes tell angles apart: two angles with one code are one angle, and
/// every angle is found again from its code.
pub proof fn lemma_code_injective(a: Angle, b: Angle)
    ensures
        a.code_spec() < ANGLE_COUNT,
        Angle::from_code_spec(a.code_spec()) == Some(a),
        a.code_spec() == b.code_spec() ==> a == b,
{
}

} // verus!
