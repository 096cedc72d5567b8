use vstd::prelude::*;

verus! {

/// A compass direction for one step of movement.
pub enum Direction {
    North,
    South,
    East,
    West,
}

/// The change a step in the given direction makes to the x coordinate.
pub open spec fn step_dx(dir: Direction) -> int {
    match dir {
        Direction::East => 1,
        Direction::West => -1,
        Direction::North => 0,
        Direction::South => 0,
    }
}

/// The change a step in the given direction makes to the y coordinate.
pub open spec fn step_dy(dir: Direction) -> int {
    match dir {
        Direction::North => 1,
        Direction::South => -1,
        Direction::East => 0,
        Direction::West => 0,
    }
}

/// A position on the integer grid.
pub struct Point {
    pub x: i32,
    pub y: i32,
}

impl Point {
    /// Moves the point one unit in the given direction.
    pub fn move_point(&mut self, dir: Direction)
        requires
            dir is East ==> old(self).x < i32::MAX,
            dir is West ==> old(self).x > i32::MIN,
            dir is North ==> old(self).y < i32::MAX,
            dir is South ==> old(self).y > i32::MIN,
        ensures
            final(self).x == old(self).x + step_dx(dir),
            final(self).y == old(self).y + step_dy(dir),
    {
        match dir {
            Direction::East => self.x = self.x + 1,
            Direction::North => self.y = self.y + 1,
            Direction::West => self.x = self.x - 1,
            Direction::South => self.y = self.y - 1,
        }
    }
}

} // verus!
