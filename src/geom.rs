use vstd::prelude::*;

verus! {

/// One of the six axis-aligned directions of a block face.
#[derive(Clone, Copy, Debug, PartialEq, Eq, Structural)]
pub enum Direction {
    Down,
    Up,
    North,
    South,
    West,
    East,
}

/// An integer triple: a block position, a unit normal or a corner offset.
#[derive(Clone, Copy, Debug, PartialEq, Eq, Structural)]
pub struct BlockPos {
    pub x: i32,
    pub y: i32,
    pub z: i32,
}

/// A texture rectangle on a block face, in sixteenths of a texel: the
/// 16×16-texel texture spans 0..256, so half and quarter texels are kept.
#[derive(Clone, Copy, Debug, PartialEq, Eq, Structural)]
pub struct UvRect {
    pub u0: i32,
    pub v0: i32,
    pub u1: i32,
    pub v1: i32,
}

/// Number of directions, and of faces the mesher visits per element.
pub const FACE_COUNT: usize = 6;

/// The order in which the mesher visits the faces of an element.
pub open spec fn spec_mesh_direction(k: int) -> Direction {
    if k == 0 {
        Direction::Up
    } else if k == 1 {
        Direction::Down
    } else if k == 2 {
        Direction::South
    } else if k == 3 {
        Direction::North
    } else if k == 4 {
        Direction::East
    } else {
        Direction::West
    }
}

pub fn mesh_direction(k: usize) -> (d: Direction)
    requires
        k < FACE_COUNT,
    ensures
        d == spec_mesh_direction(k as int),
{
    match k {
        0 => Direction::Up,
        1 => Direction::Down,
        2 => Direction::South,
        3 => Direction::North,
        4 => Direction::East,
        _ => Direction::West,
    }
}

pub open spec fn spec_normal(d: Direction) -> BlockPos {
    match d {
        Direction::Down => BlockPos { x: 0, y: -1i32, z: 0 },
        Direction::Up => BlockPos { x: 0, y: 1, z: 0 },
        Direction::North => BlockPos { x: 0, y: 0, z: -1i32 },
        Direction::South => BlockPos { x: 0, y: 0, z: 1 },
        Direction::West => BlockPos { x: -1i32, y: 0, z: 0 },
        Direction::East => BlockPos { x: 1, y: 0, z: 0 },
    }
}

pub open spec fn spec_opposite(d: Direction) -> Direction {
    match d {
        Direction::Down => Direction::Up,
        Direction::Up => Direction::Down,
        Direction::North => Direction::South,
        Direction::South => Direction::North,
        Direction::West => Direction::East,
        Direction::East => Direction::West,
    }
}

impl Direction {
    /// The unit vector pointing out of a face in this direction.
    pub fn normal(self) -> (n: BlockPos)
        ensures
            n == spec_normal(self),
    {
        match self {
            Direction::Down => BlockPos { x: 0, y: -1, z: 0 },
            Direction::Up => BlockPos { x: 0, y: 1, z: 0 },
            Direction::North => BlockPos { x: 0, y: 0, z: -1 },
            Direction::South => BlockPos { x: 0, y: 0, z: 1 },
            Direction::West => BlockPos { x: -1, y: 0, z: 0 },
            Direction::East => BlockPos { x: 1, y: 0, z: 0 },
        }
    }

    pub fn opposite(self) -> (o: Direction)
        ensures
            o == spec_opposite(self),
    {
        match self {
            Direction::Down => Direction::Up,
            Direction::Up => Direction::Down,
            Direction::North => Direction::South,
            Direction::South => Direction::North,
            Direction::West => Direction::East,
            Direction::East => Direction::West,
        }
    }
}

pub open spec fn offset3(x: i32, y: i32, z: i32) -> BlockPos {
    BlockPos { x, y, z }
}

/// Corner `c` (0..4) of the face in direction `d`, as 0/1 offsets within the
/// unit cube. The four corners wind counter-clockwise seen from outside.
pub open spec fn spec_corner(d: Direction, c: int) -> BlockPos {
    match d {
        Direction::Up => if c == 0 {
            offset3(0, 1, 0)
        } else if c == 1 {
            offset3(0, 1, 1)
        } else if c == 2 {
            offset3(1, 1, 1)
        } else {
            offset3(1, 1, 0)
        },
        Direction::Down => if c == 0 {
            offset3(0, 0, 0)
        } else if c == 1 {
            offset3(1, 0, 0)
        } else if c == 2 {
            offset3(1, 0, 1)
        } else {
            offset3(0, 0, 1)
        },
        Direction::South => if c == 0 {
            offset3(0, 0, 1)
        } else if c == 1 {
            offset3(1, 0, 1)
        } else if c == 2 {
            offset3(1, 1, 1)
        } else {
            offset3(0, 1, 1)
        },
        Direction::North => if c == 0 {
            offset3(0, 0, 0)
        } else if c == 1 {
            offset3(0, 1, 0)
        } else if c == 2 {
            offset3(1, 1, 0)
        } else {
            offset3(1, 0, 0)
        },
        Direction::East => if c == 0 {
            offset3(1, 0, 0)
        } else if c == 1 {
            offset3(1, 1, 0)
        } else if c == 2 {
            offset3(1, 1, 1)
        } else {
            offset3(1, 0, 1)
        },
        Direction::West => if c == 0 {
            offset3(0, 0, 0)
        } else if c == 1 {
            offset3(0, 0, 1)
        } else if c == 2 {
            offset3(0, 1, 1)
        } else {
            offset3(0, 1, 0)
        },
    }
}

pub fn face_corner(d: Direction, c: usize) -> (o: BlockPos)
    requires
        c < 4,
    ensures
        o == spec_corner(d, c as int),
        0 <= o.x <= 1 && 0 <= o.y <= 1 && 0 <= o.z <= 1,
{
    let (x, y, z): (i32, i32, i32) = match d {
        Direction::Up => match c {
            0 => (0, 1, 0),
            1 => (0, 1, 1),
            2 => (1, 1, 1),
            _ => (1, 1, 0),
        },
        Direction::Down => match c {
            0 => (0, 0, 0),
            1 => (1, 0, 0),
            2 => (1, 0, 1),
            _ => (0, 0, 1),
        },
        Direction::South => match c {
            0 => (0, 0, 1),
            1 => (1, 0, 1),
            2 => (1, 1, 1),
            _ => (0, 1, 1),
        },
        Direction::North => match c {
            0 => (0, 0, 0),
            1 => (0, 1, 0),
            2 => (1, 1, 0),
            _ => (1, 0, 0),
        },
        Direction::East => match c {
            0 => (1, 0, 0),
            1 => (1, 1, 0),
            2 => (1, 1, 1),
            _ => (1, 0, 1),
        },
        Direction::West => match c {
            0 => (0, 0, 0),
            1 => (0, 0, 1),
            2 => (0, 1, 1),
            _ => (0, 1, 0),
        },
    };
    BlockPos { x, y, z }
}

/// The rectangle used when a face declares none: the whole texture.
pub open spec fn full_uv() -> UvRect {
    UvRect { u0: 0, v0: 0, u1: 256, v1: 256 }
}

/// Texture coordinate of corner `c` of a face in direction `d`. Each
/// direction has a fixed orientation so that textures line up across blocks.
pub open spec fn spec_uv(d: Direction, uv: Option<UvRect>, c: int) -> (i32, i32) {
    let r = match uv {
        Some(r) => r,
        None => full_uv(),
    };
    match d {
        Direction::Up | Direction::Down => if c == 0 {
            (r.u0, r.v0)
        } else if c == 1 {
            (r.u1, r.v0)
        } else if c == 2 {
            (r.u1, r.v1)
        } else {
            (r.u0, r.v1)
        },
        Direction::North | Direction::East => if c == 0 {
            (r.u0, r.v1)
        } else if c == 1 {
            (r.u0, r.v0)
        } else if c == 2 {
            (r.u1, r.v0)
        } else {
            (r.u1, r.v1)
        },
        Direction::South | Direction::West => if c == 0 {
            (r.u0, r.v1)
        } else if c == 1 {
            (r.u1, r.v1)
        } else if c == 2 {
            (r.u1, r.v0)
        } else {
            (r.u0, r.v0)
        },
    }
}

/// Texture coordinate, in sixteenths of a texel, of corner `c` of a face; a
/// face without a rectangle of its own is textured with the whole image.
pub fn generate_uv(d: Direction, uv: Option<UvRect>, c: usize) -> (r: (i32, i32))
    requires
        c < 4,
    ensures
        r == spec_uv(d, uv, c as int),
{
    let r = match uv {
        Some(r) => r,
        None => UvRect { u0: 0, v0: 0, u1: 256, v1: 256 },
    };
    match d {
        Direction::Up | Direction::Down => match c {
            0 => (r.u0, r.v0),
            1 => (r.u1, r.v0),
            2 => (r.u1, r.v1),
            _ => (r.u0, r.v1),
        },
        Direction::North | Direction::East => match c {
            0 => (r.u0, r.v1),
            1 => (r.u0, r.v0),
            2 => (r.u1, r.v0),
            _ => (r.u1, r.v1),
        },
        Direction::South | Direction::West => match c {
            0 => (r.u0, r.v1),
            1 => (r.u1, r.v1),
            2 => (r.u1, r.v0),
            _ => (r.u0, r.v0),
        },
    }
}

} // verus!
