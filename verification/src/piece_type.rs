//! The seven tetromino identities and their display colours.

use vstd::prelude::*;
use crate::random::random_below;

verus! {

/// Number of tetromino identities.
pub const PIECE_TYPE_COUNT: u32 = 7;

/// One of the seven tetromino identities.
#[derive(Clone, Copy, Debug, PartialEq, Eq, Structural)]
pub enum PieceType {
    I,
    J,
    L,
    O,
    S,
    T,
    Z,
}

/// The named display colour of a tetromino. The frontend decides how each
/// name is rendered.
#[derive(Clone, Copy, Debug, PartialEq, Eq, Structural)]
pub enum PieceColor {
    SkyBlue,
    Blue,
    Orange,
    Yellow,
    Green,
    Purple,
    Red,
}

impl PieceType {
    /// The display colour of each identity.
    pub open spec fn color(self) -> PieceColor {
        match self {
            PieceType::I => PieceColor::SkyBlue,
            PieceType::J => PieceColor::Blue,
            PieceType::L => PieceColor::Orange,
            PieceType::O => PieceColor::Yellow,
            PieceType::S => PieceColor::Green,
            PieceType::T => PieceColor::Purple,
            PieceType::Z => PieceColor::Red,
        }
    }

    /// Position of the identity in the order I, J, L, O, S, T, Z.
    pub open spec fn index(self) -> int {
        match self {
            PieceType::I => 0,
            PieceType::J => 1,
            PieceType::L => 2,
            PieceType::O => 3,
            PieceType::S => 4,
            PieceType::T => 5,
            PieceType::Z => 6,
        }
    }

    /// The identity at position `i`, if `i` is below seven.
    pub open spec fn at_index(i: int) -> Option<PieceType> {
        if i == 0 {
            Some(PieceType::I)
        } else if i == 1 {
            Some(PieceType::J)
        } else if i == 2 {
            Some(PieceType::L)
        } else if i == 3 {
            Some(PieceType::O)
        } else if i == 4 {
            Some(PieceType::S)
        } else if i == 5 {
            Some(PieceType::T)
        } else if i == 6 {
            Some(PieceType::Z)
        } else {
            None
        }
    }

    pub fn get_color(&self) -> (c: PieceColor)
        ensures
            c == self.color(),
    {
        match self {
            PieceType::I => PieceColor::SkyBlue,
            PieceType::J => PieceColor::Blue,
            PieceType::L => PieceColor::Orange,
            PieceType::O => PieceColor::Yellow,
            PieceType::S => PieceColor::Green,
            PieceType::T => PieceColor::Purple,
            PieceType::Z => PieceColor::Red,
        }
    }

    /// Maps a drawn number to an identity: `Some` exactly for 0 to 6.
    pub fn from_index(i: u32) -> (r: Option<PieceType>)
        ensures
            r == PieceType::at_index(i as int),
            r is Some <==> i < PIECE_TYPE_COUNT,
            r matches Some(t) ==> t.index() == i,
    {
        match i {
            0 => Some(PieceType::I),
            1 => Some(PieceType::J),
            2 => Some(PieceType::L),
            3 => Some(PieceType::O),
            4 => Some(PieceType::S),
            5 => Some(PieceType::T),
            6 => Some(PieceType::Z),
            _ => None,
        }
    }

    /// Draws one of the seven identities from the thread's random source.
    /// Which one comes is left open.
    pub fn random() -> PieceType {
        let n: u32 = random_below(PIECE_TYPE_COUNT);
        PieceType::from_index(n).unwrap()
    }
}

/// Every identity is found again from its own index.
pub proof fn index_round_trip(t: PieceType)
    ensures
        0 <= t.index() < PIECE_TYPE_COUNT,
        PieceType::at_index(t.index()) == Some(t),
{
}

} // verus!
