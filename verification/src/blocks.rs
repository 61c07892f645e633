//! Block positions, directions and the world-edit rules shared by block
//! placement and block breaking: the build height limits, spawn protection
//! and the halves of double blocks (doors, beds, tall plants).

use vstd::prelude::*;

verus! {

/// Lowest Y a block can be placed or broken at in the overworld (inclusive).
pub const MIN_BUILD_HEIGHT: i32 = -64;

/// Highest Y a block can be placed or broken at in the overworld
/// (inclusive); the overworld's exclusive top is 320.
pub const MAX_BUILD_HEIGHT: i32 = 319;

/// The exclusive top of the overworld, shown in the "too high" message.
pub const OVERWORLD_MAX_Y: i32 = 320;

/// A block position in the world.
#[derive(Clone, Copy, Debug, PartialEq, Eq, Structural)]
pub struct BlockPos {
    pub x: i32,
    pub y: i32,
    pub z: i32,
}

/// One of the six block faces.
#[derive(Clone, Copy, Debug, PartialEq, Eq, Structural)]
pub enum Direction {
    Down,
    Up,
    North,
    South,
    West,
    East,
}

/// The axis a direction runs along.
#[derive(Clone, Copy, Debug, PartialEq, Eq, Structural)]
pub enum Axis {
    X,
    Y,
    Z,
}

/// A player's game mode.
#[derive(Clone, Copy, Debug, PartialEq, Eq, Structural)]
pub enum GameMode {
    Survival,
    Creative,
    Adventure,
    Spectator,
}

/// The unit step of a direction as `(dx, dy, dz)`: north is `-z`, east is
/// `+x`, up is `+y`.
pub open spec fn step(d: Direction) -> (int, int, int) {
    match d {
        Direction::Down => (0, -1, 0),
        Direction::Up => (0, 1, 0),
        Direction::North => (0, 0, -1),
        Direction::South => (0, 0, 1),
        Direction::West => (-1, 0, 0),
        Direction::East => (1, 0, 0),
    }
}

/// The direction pointing the other way.
pub open spec fn spec_opposite(d: Direction) -> Direction {
    match d {
        Direction::Down => Direction::Up,
        Direction::Up => Direction::Down,
        Direction::North => Direction::South,
        Direction::South => Direction::North,
        Direction::West => Direction::East,
        Direction::East => Direction::West,
    }
}

/// `true` when `p` moved one step in `d` stays inside the `i32` range.
pub open spec fn can_step(p: BlockPos, d: Direction) -> bool {
    let (dx, dy, dz) = step(d);
    &&& i32::MIN <= p.x + dx <= i32::MAX
    &&& i32::MIN <= p.y + dy <= i32::MAX
    &&& i32::MIN <= p.z + dz <= i32::MAX
}

/// `p` moved one step in `d`.
pub open spec fn spec_relative(p: BlockPos, d: Direction) -> BlockPos {
    let (dx, dy, dz) = step(d);
    BlockPos { x: (p.x + dx) as i32, y: (p.y + dy) as i32, z: (p.z + dz) as i32 }
}

impl Direction {
    /// The direction pointing the other way.
    pub fn opposite(self) -> (r: Direction)
        ensures
            r == spec_opposite(self),
    {
        match self {
            Direction::Down => Direction::Up,
            Direction::Up => Direction::Down,
            Direction::North => Direction::South,
            Direction::South => Direction::North,
            Direction::West => Direction::East,
            Direction::East => Direction::West,
        }
    }

    /// `true` for the four compass directions.
    pub fn is_horizontal(self) -> (r: bool)
        ensures
            r == (step(self).1 == 0),
    {
        !matches!(self, Direction::Down | Direction::Up)
    }

    /// The axis this direction runs along.
    pub fn axis(self) -> (r: Axis)
        ensures
            r == (if step(self).0 != 0 {
                Axis::X
            } else if step(self).1 != 0 {
                Axis::Y
            } else {
                Axis::Z
            }),
    {
        match self {
            Direction::Down | Direction::Up => Axis::Y,
            Direction::North | Direction::South => Axis::Z,
            Direction::West | Direction::East => Axis::X,
        }
    }
}

impl BlockPos {
    /// A position from its coordinates.
    pub fn new(x: i32, y: i32, z: i32) -> (r: BlockPos)
        ensures
            r == (BlockPos { x, y, z }),
    {
        BlockPos { x, y, z }
    }

    /// This position moved one step in `d`.
    pub fn relative(self, d: Direction) -> (r: BlockPos)
        requires
            can_step(self, d),
        ensures
            r == spec_relative(self, d),
    {
        match d {
            Direction::Down => BlockPos { x: self.x, y: self.y - 1, z: self.z },
            Direction::Up => BlockPos { x: self.x, y: self.y + 1, z: self.z },
            Direction::North => BlockPos { x: self.x, y: self.y, z: self.z - 1 },
            Direction::South => BlockPos { x: self.x, y: self.y, z: self.z + 1 },
            Direction::West => BlockPos { x: self.x - 1, y: self.y, z: self.z },
            Direction::East => BlockPos { x: self.x + 1, y: self.y, z: self.z },
        }
    }

    /// The position directly above.
    pub fn above(self) -> (r: BlockPos)
        requires
            self.y < i32::MAX,
        ensures
            r == spec_relative(self, Direction::Up),
    {
        self.relative(Direction::Up)
    }

    /// The position directly below.
    pub fn below(self) -> (r: BlockPos)
        requires
            self.y > i32::MIN,
        ensures
            r == spec_relative(self, Direction::Down),
    {
        self.relative(Direction::Down)
    }
}

/// Stepping in a direction and then in the opposite one returns to the start.
pub proof fn lemma_relative_opposite(p: BlockPos, d: Direction)
    requires
        can_step(p, d),
    ensures
        can_step(spec_relative(p, d), spec_opposite(d)),
        spec_relative(spec_relative(p, d), spec_opposite(d)) == p,
        spec_opposite(spec_opposite(d)) == d,
{
}

/// `true` when `y` lies within the overworld build limits.
pub open spec fn spec_within_build_height(y: int) -> bool {
    MIN_BUILD_HEIGHT <= y <= MAX_BUILD_HEIGHT
}

/// Returns `true` if the position is within valid overworld build limits.
pub fn is_within_build_height(pos: BlockPos) -> (r: bool)
    ensures
        r == spec_within_build_height(pos.y as int),
{
    pos.y >= MIN_BUILD_HEIGHT && pos.y <= MAX_BUILD_HEIGHT
}

/// `|a|`.
pub open spec fn abs(a: int) -> int {
    if a < 0 {
        -a
    } else {
        a
    }
}

/// The Chebyshev distance between two columns.
pub open spec fn chebyshev(x1: int, z1: int, x2: int, z2: int) -> int {
    let dx = abs(x1 - x2);
    let dz = abs(z1 - z2);
    if dx < dz {
        dz
    } else {
        dx
    }
}

/// `true` when `pos` lies inside the spawn protection square of the given
/// radius around the spawn column; radius 0 turns the protection off.
pub open spec fn spec_spawn_protected(radius: int, spawn_x: int, spawn_z: int, pos: BlockPos) -> bool {
    radius != 0 && chebyshev(pos.x as int, pos.z as int, spawn_x, spawn_z) < radius
}

/// Returns `true` if the position is inside the spawn protection zone: its
/// Chebyshev distance `max(|x - spawn_x|, |z - spawn_z|)` from the spawn
/// column is below `radius`. A radius of 0 disables spawn protection.
pub fn is_spawn_protected(radius: u32, spawn_x: i32, spawn_z: i32, pos: BlockPos) -> (r: bool)
    ensures
        r == spec_spawn_protected(radius as int, spawn_x as int, spawn_z as int, pos),
{
    if radius == 0 {
        return false;
    }
    let dx: i64 = pos.x as i64 - spawn_x as i64;
    let dz: i64 = pos.z as i64 - spawn_z as i64;
    let adx: i64 = if dx < 0 {
        -dx
    } else {
        dx
    };
    let adz: i64 = if dz < 0 {
        -dz
    } else {
        dz
    };
    let dist: i64 = if adx < adz {
        adz
    } else {
        adx
    };
    dist < radius as i64
}

/// Spawn protection is a square: a position is protected exactly when the
/// mirrored position (reflected through the spawn column) is, and the spawn
/// column itself is protected whenever protection is on.
pub proof fn lemma_spawn_protection_square(radius: int, sx: int, sz: int, pos: BlockPos, mirrored: BlockPos)
    requires
        mirrored.x - sx == sx - pos.x,
        mirrored.z - sz == sz - pos.z,
    ensures
        spec_spawn_protected(radius, sx, sz, pos) == spec_spawn_protected(radius, sx, sz, mirrored),
        radius > 0 && pos.x == sx && pos.z == sz ==> spec_spawn_protected(radius, sx, sz, pos),
        radius == 0 ==> !spec_spawn_protected(radius, sx, sz, pos),
{
}

/// Parses a direction name (`north`, `south`, `east`, `west`, `up`,
/// `down`).
pub fn direction_from_name(name: &str) -> (r: Option<Direction>)
    ensures
        r == spec_direction_from_name(name@),
{
    proof {
        reveal_strlit("north");
        reveal_strlit("south");
        reveal_strlit("east");
        reveal_strlit("west");
        reveal_strlit("up");
        reveal_strlit("down");
        assert("north"@ =~= seq!['n', 'o', 'r', 't', 'h']);
        assert("south"@ =~= seq!['s', 'o', 'u', 't', 'h']);
        assert("east"@ =~= seq!['e', 'a', 's', 't']);
        assert("west"@ =~= seq!['w', 'e', 's', 't']);
        assert("up"@ =~= seq!['u', 'p']);
        assert("down"@ =~= seq!['d', 'o', 'w', 'n']);
    }
    if crate::text::str_eq(name, "north") {
        Some(Direction::North)
    } else if crate::text::str_eq(name, "south") {
        Some(Direction::South)
    } else if crate::text::str_eq(name, "east") {
        Some(Direction::East)
    } else if crate::text::str_eq(name, "west") {
        Some(Direction::West)
    } else if crate::text::str_eq(name, "up") {
        Some(Direction::Up)
    } else if crate::text::str_eq(name, "down") {
        Some(Direction::Down)
    } else {
        None
    }
}

/// The direction named `name`, if any.
pub open spec fn spec_direction_from_name(name: Seq<char>) -> Option<Direction> {
    if name == seq!['n', 'o', 'r', 't', 'h'] {
        Some(Direction::North)
    } else if name == seq!['s', 'o', 'u', 't', 'h'] {
        Some(Direction::South)
    } else if name == seq!['e', 'a', 's', 't'] {
        Some(Direction::East)
    } else if name == seq!['w', 'e', 's', 't'] {
        Some(Direction::West)
    } else if name == seq!['u', 'p'] {
        Some(Direction::Up)
    } else if name == seq!['d', 'o', 'w', 'n'] {
        Some(Direction::Down)
    } else {
        None
    }
}

/// `true` when a block placed against `face`, with the cursor in the upper
/// half of that face when `cursor_in_upper_half`, goes in the top half of
/// its cell: clicking the underside always does, clicking the top never
/// does, and on a side face the cursor decides.
pub open spec fn spec_top_half(cursor_in_upper_half: bool, face: Direction) -> bool {
    match face {
        Direction::Down => true,
        Direction::Up => false,
        _ => cursor_in_upper_half,
    }
}

/// The `half` property value (`top` or `bottom`) of a placed block;
/// `cursor_in_upper_half` is whether the cursor's Y on the face is at least
/// one half.
pub fn half_from_cursor(cursor_in_upper_half: bool, clicked_face: Direction) -> (r: &'static str)
    ensures
        r@ == (if spec_top_half(cursor_in_upper_half, clicked_face) {
            "top"@
        } else {
            "bottom"@
        }),
{
    if clicked_face == Direction::Down {
        "top"
    } else if clicked_face == Direction::Up {
        "bottom"
    } else if cursor_in_upper_half {
        "top"
    } else {
        "bottom"
    }
}

/// The slab `type` property value (`top` or `bottom`), by the same rule as
/// [`half_from_cursor`].
pub fn slab_type_from_cursor(cursor_in_upper_half: bool, clicked_face: Direction) -> (r: &'static str)
    ensures
        r@ == (if spec_top_half(cursor_in_upper_half, clicked_face) {
            "top"@
        } else {
            "bottom"@
        }),
{
    half_from_cursor(cursor_in_upper_half, clicked_face)
}

/// What the block registry says of a block that is being broken: which
/// double-block family it belongs to and the values of its `half`, `part`
/// and `facing` properties (`None` when it has no such property).
pub struct DoubleBlockInfo {
    /// The block is a door or a tall plant (split into `upper`/`lower`).
    pub is_door_or_tall_plant: bool,
    /// The block is a bed (split into `head`/`foot`).
    pub is_bed: bool,
    /// The value of the `half` property.
    pub half: Option<String>,
    /// The value of the `part` property.
    pub part: Option<String>,
    /// The value of the `facing` property.
    pub facing: Option<String>,
}

/// Where the other half of a double block lies, when `pos` holds the half
/// described by `info`: below an upper half, above a lower half, behind a
/// bed head, in front of a bed foot.
pub open spec fn spec_break_companion(info: DoubleBlockInfo, pos: BlockPos) -> Option<BlockPos> {
    if info.is_door_or_tall_plant {
        match info.half {
            Some(h) => if h@ == seq!['u', 'p', 'p', 'e', 'r'] {
                Some(spec_relative(pos, Direction::Down))
            } else if h@ == seq!['l', 'o', 'w', 'e', 'r'] {
                Some(spec_relative(pos, Direction::Up))
            } else {
                None
            },
            None => None,
        }
    } else if info.is_bed {
        match (info.part, info.facing) {
            (Some(p), Some(f)) => match spec_direction_from_name(f@) {
                Some(d) => if p@ == seq!['h', 'e', 'a', 'd'] {
                    Some(spec_relative(pos, spec_opposite(d)))
                } else if p@ == seq!['f', 'o', 'o', 't'] {
                    Some(spec_relative(pos, d))
                } else {
                    None
                },
                None => None,
            },
            _ => None,
        }
    } else {
        None
    }
}

/// `pos` is at least one block away from the edges of the `i32` range, so
/// that every neighbour exists.
pub open spec fn interior(pos: BlockPos) -> bool {
    &&& i32::MIN < pos.x < i32::MAX
    &&& i32::MIN < pos.y < i32::MAX
    &&& i32::MIN < pos.z < i32::MAX
}

/// Computes the position of the other half of a double block (door, bed,
/// tall plant) that must be removed together with the half at `pos`.
pub fn double_block_break_companion(info: &DoubleBlockInfo, pos: BlockPos) -> (r: Option<BlockPos>)
    requires
        interior(pos),
    ensures
        r == spec_break_companion(*info, pos),
{
    proof {
        reveal_strlit("upper");
        reveal_strlit("lower");
        reveal_strlit("head");
        reveal_strlit("foot");
        assert("upper"@ =~= seq!['u', 'p', 'p', 'e', 'r']);
        assert("lower"@ =~= seq!['l', 'o', 'w', 'e', 'r']);
        assert("head"@ =~= seq!['h', 'e', 'a', 'd']);
        assert("foot"@ =~= seq!['f', 'o', 'o', 't']);
    }
    if info.is_door_or_tall_plant {
        match &info.half {
            Some(h) => {
                if crate::text::str_eq(h.as_str(), "upper") {
                    Some(pos.below())
                } else if crate::text::str_eq(h.as_str(), "lower") {
                    Some(pos.above())
                } else {
                    None
                }
            },
            None => None,
        }
    } else if info.is_bed {
        match (&info.part, &info.facing) {
            (Some(p), Some(f)) => match direction_from_name(f.as_str()) {
                Some(d) => {
                    if crate::text::str_eq(p.as_str(), "head") {
                        Some(pos.relative(d.opposite()))
                    } else if crate::text::str_eq(p.as_str(), "foot") {
                        Some(pos.relative(d))
                    } else {
                        None
                    }
                },
                None => None,
            },
            _ => None,
        }
    } else {
        None
    }
}

} // verus!
