use vstd::prelude::*;

pub mod pipeline;

verus! {

/// Cardinal directions in 3D space.
#[derive(Copy, Clone, Debug, PartialEq, Eq, Structural)]
pub enum CardinalDirection {
    /// East direction (+X axis)
    East,
    /// West direction (-X axis)
    West,
    /// Up direction (+Y axis)
    Up,
    /// Down direction (-Y axis)
    Down,
    /// South direction (+Z axis)
    South,
    /// North direction (-Z axis)
    North,
}

impl CardinalDirection {
    /// The unit step along the direction, by axis.
    pub open spec fn spec_normal(self) -> (int, int, int) {
        match self {
            CardinalDirection::North => (0, 0, -1),
            CardinalDirection::South => (0, 0, 1),
            CardinalDirection::East => (1, 0, 0),
            CardinalDirection::West => (-1, 0, 0),
            CardinalDirection::Up => (0, 1, 0),
            CardinalDirection::Down => (0, -1, 0),
        }
    }

    /// The three-bit code of the direction.
    pub open spec fn spec_bits(self) -> u8 {
        match self {
            CardinalDirection::North => 0,
            CardinalDirection::South => 1,
            CardinalDirection::East => 2,
            CardinalDirection::West => 3,
            CardinalDirection::Up => 4,
            CardinalDirection::Down => 5,
        }
    }

    /// The directions in the order in which they are listed: the order of their
    /// codes.
    pub open spec fn all() -> Seq<CardinalDirection> {
        seq![
            CardinalDirection::North,
            CardinalDirection::South,
            CardinalDirection::East,
            CardinalDirection::West,
            CardinalDirection::Up,
            CardinalDirection::Down,
        ]
    }

    /// Returns the normal vector as i64 components.
    pub fn normal_i64(&self) -> (normal: (i64, i64, i64))
        ensures
            (normal.0 as int, normal.1 as int, normal.2 as int) == self.spec_normal(),
    {
        match self {
            CardinalDirection::North => (0, 0, -1),
            CardinalDirection::South => (0, 0, 1),
            CardinalDirection::East => (1, 0, 0),
            CardinalDirection::West => (-1, 0, 0),
            CardinalDirection::Up => (0, 1, 0),
            CardinalDirection::Down => (0, -1, 0),
        }
    }

    /// The six directions, each once.
    pub fn iter() -> (directions: [CardinalDirection; 6])
        ensures
            directions@ == Self::all(),
    {
        let directions = [
            CardinalDirection::North,
            CardinalDirection::South,
            CardinalDirection::East,
            CardinalDirection::West,
            CardinalDirection::Up,
            CardinalDirection::Down,
        ];
        assert(directions@ =~= Self::all());
        directions
    }

    /// Creates a `CardinalDirection` from the given bit representation.
    pub fn from_bits(bits: u8) -> (direction: Option<CardinalDirection>)
        ensures
            direction.is_some() <==> bits <= 5,
            direction.is_some() ==> direction.unwrap().spec_bits() == bits,
    {
        match bits {
            0b000 => Some(CardinalDirection::North),
            0b001 => Some(CardinalDirection::South),
            0b010 => Some(CardinalDirection::East),
            0b011 => Some(CardinalDirection::West),
            0b100 => Some(CardinalDirection::Up),
            0b101 => Some(CardinalDirection::Down),
            _ => None,
        }
    }

    /// Returns the bit representation of the cardinal direction.
    pub fn to_bits(&self) -> (bits: u8)
        ensures
            bits == self.spec_bits(),
    {
        match self {
            CardinalDirection::North => 0b000,
            CardinalDirection::South => 0b001,
            CardinalDirection::East => 0b010,
            CardinalDirection::West => 0b011,
            CardinalDirection::Up => 0b100,
            CardinalDirection::Down => 0b101,
        }
    }
}

/// The code of a direction names that direction alone: two directions with the
/// same code are the same, every code is at most five, and the list of all
/// directions holds the direction with code `i` at place `i`.
pub proof fn lemma_bits_name_directions(a: CardinalDirection, b: CardinalDirection)
    ensures
        a.spec_bits() <= 5,
        a.spec_bits() == b.spec_bits() ==> a == b,
        CardinalDirection::all().len() == 6,
        CardinalDirection::all()[a.spec_bits() as int] == a,
{
}

} // verus!
