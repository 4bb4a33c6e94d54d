use vstd::prelude::*;

verus! {

/// One of the 64 squares of the board, listed rank by rank from a1 to h8.
///
/// The position of a square in this list is its index: a1 is 0, b1 is 1,
/// a2 is 8 and h8 is 63. The file of a square is its index modulo 8, its
/// rank the index divided by 8.
#[derive(Copy, Clone, Debug, PartialEq, Eq, Structural)]
pub enum Space {
    A1, B1, C1, D1, E1, F1, G1, H1,
    A2, B2, C2, D2, E2, F2, G2, H2,
    A3, B3, C3, D3, E3, F3, G3, H3,
    A4, B4, C4, D4, E4, F4, G4, H4,
    A5, B5, C5, D5, E5, F5, G5, H5,
    A6, B6, C6, D6, E6, F6, G6, H6,
    A7, B7, C7, D7, E7, F7, G7, H7,
    A8, B8, C8, D8, E8, F8, G8, H8,
}

/// The physical offset of a square from the centre of the board, in units
/// of one square's width.
#[derive(Copy, Clone, Debug, PartialEq, Eq, Structural)]
pub struct Offset {
    pub x: i32,
    pub y: i32,
}

/// The square at `i` in the list of squares; meaningful for `0 <= i < 64`.
pub open spec fn space_at(i: int) -> Space {
    if i == 0 {
        Space::A1
    } else if i == 1 {
        Space::B1
    } else if i == 2 {
        Space::C1
    } else if i == 3 {
        Space::D1
    } else if i == 4 {
        Space::E1
    } else if i == 5 {
        Space::F1
    } else if i == 6 {
        Space::G1
    } else if i == 7 {
        Space::H1
    } else if i == 8 {
        Space::A2
    } else if i == 9 {
        Space::B2
    } else if i == 10 {
        Space::C2
    } else if i == 11 {
        Space::D2
    } else if i == 12 {
        Space::E2
    } else if i == 13 {
        Space::F2
    } else if i == 14 {
        Space::G2
    } else if i == 15 {
        Space::H2
    } else if i == 16 {
        Space::A3
    } else if i == 17 {
        Space::B3
    } else if i == 18 {
        Space::C3
    } else if i == 19 {
        Space::D3
    } else if i == 20 {
        Space::E3
    } else if i == 21 {
        Space::F3
    } else if i == 22 {
        Space::G3
    } else if i == 23 {
        Space::H3
    } else if i == 24 {
        Space::A4
    } else if i == 25 {
        Space::B4
    } else if i == 26 {
        Space::C4
    } else if i == 27 {
        Space::D4
    } else if i == 28 {
        Space::E4
    } else if i == 29 {
        Space::F4
    } else if i == 30 {
        Space::G4
    } else if i == 31 {
        Space::H4
    } else if i == 32 {
        Space::A5
    } else if i == 33 {
        Space::B5
    } else if i == 34 {
        Space::C5
    } else if i == 35 {
        Space::D5
    } else if i == 36 {
        Space::E5
    } else if i == 37 {
        Space::F5
    } else if i == 38 {
        Space::G5
    } else if i == 39 {
        Space::H5
    } else if i == 40 {
        Space::A6
    } else if i == 41 {
        Space::B6
    } else if i == 42 {
        Space::C6
    } else if i == 43 {
        Space::D6
    } else if i == 44 {
        Space::E6
    } else if i == 45 {
        Space::F6
    } else if i == 46 {
        Space::G6
    } else if i == 47 {
        Space::H6
    } else if i == 48 {
        Space::A7
    } else if i == 49 {
        Space::B7
    } else if i == 50 {
        Space::C7
    } else if i == 51 {
        Space::D7
    } else if i == 52 {
        Space::E7
    } else if i == 53 {
        Space::F7
    } else if i == 54 {
        Space::G7
    } else if i == 55 {
        Space::H7
    } else if i == 56 {
        Space::A8
    } else if i == 57 {
        Space::B8
    } else if i == 58 {
        Space::C8
    } else if i == 59 {
        Space::D8
    } else if i == 60 {
        Space::E8
    } else if i == 61 {
        Space::F8
    } else if i == 62 {
        Space::G8
    } else {
        Space::H8
    }
}

impl Space {
    /// The index of this square, between 0 and 63.
    pub open spec fn index(self) -> int {
        match self {
            Space::A1 => 0, Space::B1 => 1, Space::C1 => 2, Space::D1 => 3, Space::E1 => 4, Space::F1 => 5, Space::G1 => 6, Space::H1 => 7,
            Space::A2 => 8, Space::B2 => 9, Space::C2 => 10, Space::D2 => 11, Space::E2 => 12, Space::F2 => 13, Space::G2 => 14, Space::H2 => 15,
            Space::A3 => 16, Space::B3 => 17, Space::C3 => 18, Space::D3 => 19, Space::E3 => 20, Space::F3 => 21, Space::G3 => 22, Space::H3 => 23,
            Space::A4 => 24, Space::B4 => 25, Space::C4 => 26, Space::D4 => 27, Space::E4 => 28, Space::F4 => 29, Space::G4 => 30, Space::H4 => 31,
            Space::A5 => 32, Space::B5 => 33, Space::C5 => 34, Space::D5 => 35, Space::E5 => 36, Space::F5 => 37, Space::G5 => 38, Space::H5 => 39,
            Space::A6 => 40, Space::B6 => 41, Space::C6 => 42, Space::D6 => 43, Space::E6 => 44, Space::F6 => 45, Space::G6 => 46, Space::H6 => 47,
            Space::A7 => 48, Space::B7 => 49, Space::C7 => 50, Space::D7 => 51, Space::E7 => 52, Space::F7 => 53, Space::G7 => 54, Space::H7 => 55,
            Space::A8 => 56, Space::B8 => 57, Space::C8 => 58, Space::D8 => 59, Space::E8 => 60, Space::F8 => 61, Space::G8 => 62, Space::H8 => 63,
        }
    }

    /// The file of this square, 0 for file a up to 7 for file h.
    pub open spec fn file(self) -> int {
        self.index() % 8
    }

    /// The rank of this square, 0 for the first rank up to 7 for the eighth.
    pub open spec fn rank(self) -> int {
        self.index() / 8
    }

    /// Whether this square is a dark one: a1 is dark, and the squares
    /// beside a dark square are light.
    pub open spec fn dark(self) -> bool {
        (self.file() + self.rank()) % 2 == 0
    }

    /// Where this square lies relative to the centre of the board.
    pub open spec fn offset(self) -> Offset {
        Offset { x: (self.file() - 4) as i32, y: (self.rank() - 4) as i32 }
    }

    /// The square with the given index, or `None` where the index is not
    /// below 64.
    pub fn from_index(i: usize) -> (r: Option<Space>)
        ensures
            i < 64 ==> r == Some(space_at(i as int)),
            i >= 64 ==> r is None,
            r matches Some(s) ==> s.index() == i,
    {
        match i {
            0 => Some(Space::A1),
            1 => Some(Space::B1),
            2 => Some(Space::C1),
            3 => Some(Space::D1),
            4 => Some(Space::E1),
            5 => Some(Space::F1),
            6 => Some(Space::G1),
            7 => Some(Space::H1),
            8 => Some(Space::A2),
            9 => Some(Space::B2),
            10 => Some(Space::C2),
            11 => Some(Space::D2),
            12 => Some(Space::E2),
            13 => Some(Space::F2),
            14 => Some(Space::G2),
            15 => Some(Space::H2),
            16 => Some(Space::A3),
            17 => Some(Space::B3),
            18 => Some(Space::C3),
            19 => Some(Space::D3),
            20 => Some(Space::E3),
            21 => Some(Space::F3),
            22 => Some(Space::G3),
            23 => Some(Space::H3),
            24 => Some(Space::A4),
            25 => Some(Space::B4),
            26 => Some(Space::C4),
            27 => Some(Space::D4),
            28 => Some(Space::E4),
            29 => Some(Space::F4),
            30 => Some(Space::G4),
            31 => Some(Space::H4),
            32 => Some(Space::A5),
            33 => Some(Space::B5),
            34 => Some(Space::C5),
            35 => Some(Space::D5),
            36 => Some(Space::E5),
            37 => Some(Space::F5),
            38 => Some(Space::G5),
            39 => Some(Space::H5),
            40 => Some(Space::A6),
            41 => Some(Space::B6),
            42 => Some(Space::C6),
            43 => Some(Space::D6),
            44 => Some(Space::E6),
            45 => Some(Space::F6),
            46 => Some(Space::G6),
            47 => Some(Space::H6),
            48 => Some(Space::A7),
            49 => Some(Space::B7),
            50 => Some(Space::C7),
            51 => Some(Space::D7),
            52 => Some(Space::E7),
            53 => Some(Space::F7),
            54 => Some(Space::G7),
            55 => Some(Space::H7),
            56 => Some(Space::A8),
            57 => Some(Space::B8),
            58 => Some(Space::C8),
            59 => Some(Space::D8),
            60 => Some(Space::E8),
            61 => Some(Space::F8),
            62 => Some(Space::G8),
            63 => Some(Space::H8),
            _ => None,
        }
    }

    /// The index of this square.
    pub fn to_index(&self) -> (i: usize)
        ensures
            i == self.index(),
            i < 64,
            space_at(i as int) == *self,
    {
        match self {
            Space::A1 => 0, Space::B1 => 1, Space::C1 => 2, Space::D1 => 3, Space::E1 => 4, Space::F1 => 5, Space::G1 => 6, Space::H1 => 7,
            Space::A2 => 8, Space::B2 => 9, Space::C2 => 10, Space::D2 => 11, Space::E2 => 12, Space::F2 => 13, Space::G2 => 14, Space::H2 => 15,
            Space::A3 => 16, Space::B3 => 17, Space::C3 => 18, Space::D3 => 19, Space::E3 => 20, Space::F3 => 21, Space::G3 => 22, Space::H3 => 23,
            Space::A4 => 24, Space::B4 => 25, Space::C4 => 26, Space::D4 => 27, Space::E4 => 28, Space::F4 => 29, Space::G4 => 30, Space::H4 => 31,
            Space::A5 => 32, Space::B5 => 33, Space::C5 => 34, Space::D5 => 35, Space::E5 => 36, Space::F5 => 37, Space::G5 => 38, Space::H5 => 39,
            Space::A6 => 40, Space::B6 => 41, Space::C6 => 42, Space::D6 => 43, Space::E6 => 44, Space::F6 => 45, Space::G6 => 46, Space::H6 => 47,
            Space::A7 => 48, Space::B7 => 49, Space::C7 => 50, Space::D7 => 51, Space::E7 => 52, Space::F7 => 53, Space::G7 => 54, Space::H7 => 55,
            Space::A8 => 56, Space::B8 => 57, Space::C8 => 58, Space::D8 => 59, Space::E8 => 60, Space::F8 => 61, Space::G8 => 62, Space::H8 => 63,
        }
    }

    /// Whether this square is a dark one.
    pub fn is_dark(&self) -> (d: bool)
        ensures
            d == self.dark(),
    {
        let i: usize = self.to_index();
        (i % 8 + i / 8) % 2 == 0
    }

    /// The offset of this square from the centre of the board: the file
    /// less four, and the rank less four.
    pub fn physical_position(&self) -> (p: Offset)
        ensures
            p == self.offset(),
            p.x == self.index() % 8 - 4,
            p.y == self.index() / 8 - 4,
            -4 <= p.x < 4,
            -4 <= p.y < 4,
    {
        let i: usize = self.to_index();
        let file: i32 = (i % 8) as i32;
        let rank: i32 = (i / 8) as i32;
        Offset { x: file - 4, y: rank - 4 }
    }
}

/// Every index below 64 is the index of the square that stands at it in
/// the list of squares.
pub proof fn index_of_space_at(i: int)
    requires
        0 <= i < 64,
    ensures
        space_at(i).index() == i,
{
}

/// Every square stands in the list of squares at its own index, which is
/// below 64. With `index_of_space_at`, squares and the indices 0 to 63
/// match one to one.
pub proof fn space_at_index(space: Space)
    ensures
        0 <= space.index() < 64,
        space_at(space.index()) == space,
{
}

/// The offset of every square lies on the grid of eight by eight offsets
/// around the centre: from -4 to 3 either way.
pub proof fn offset_is_on_grid(space: Space)
    ensures
        -4 <= space.offset().x < 4,
        -4 <= space.offset().y < 4,
        space.offset().x == space.index() % 8 - 4,
        space.offset().y == space.index() / 8 - 4,
{
}

/// No two squares share an offset.
pub proof fn offset_is_injective(a: Space, b: Space)
    requires
        a.offset() == b.offset(),
    ensures
        a == b,
{
    space_at_index(a);
    space_at_index(b);
    assert(a.index() % 8 == b.index() % 8);
    assert(a.index() / 8 == b.index() / 8);
    assert(a.index() == b.index());
}

/// Every offset on the grid is the offset of a square: of the one whose
/// file is `x + 4` and whose rank is `y + 4`.
pub proof fn offset_is_surjective(x: int, y: int)
    requires
        -4 <= x < 4,
        -4 <= y < 4,
    ensures
        space_at((y + 4) * 8 + (x + 4)).offset() == (Offset { x: x as i32, y: y as i32 }),
{
    let i = (y + 4) * 8 + (x + 4);
    index_of_space_at(i);
}

} // verus!
