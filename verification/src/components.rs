//! The data attached to the entities of the simulation.

use vstd::prelude::*;

verus! {

/// A point or an extent on the road plane, in thousandths of a distance unit.
#[derive(Clone, Copy, Debug, PartialEq, Eq, Structural)]
pub struct Vec2 {
    pub x: i64,
    pub y: i64,
}

impl Vec2 {
    pub fn new(x: i64, y: i64) -> (v: Vec2)
        ensures
            v == (Vec2 { x, y }),
    {
        Vec2 { x, y }
    }
}

/// Speed of an entity, in whole distance units per second.
#[derive(Clone, Copy, Debug, PartialEq, Eq, Structural)]
pub struct Velocity {
    pub speed: u32,
}

/// Width and height of the axis-aligned rectangle that stands for an entity
/// in collision tests, centred on the entity's position.
#[derive(Clone, Copy, Debug, PartialEq, Eq, Structural)]
pub struct CollisionBounds {
    pub size: Vec2,
}

/// The car models; the tag selects the footprint and the picture.
#[derive(Clone, Copy, Debug, PartialEq, Eq, Structural)]
pub enum CarType {
    GreyPickupTruck,
    TealSedan,
    YellowTaxi,
    RedConvertible,
    GreenHatchback,
    RedSportscar,
    Player,
}

impl CarType {
    /// The footprint of each car model.
    pub open spec fn spec_collision_bounds(self) -> Vec2 {
        match self {
            CarType::GreyPickupTruck => Vec2 { x: 56_000, y: 110_000 },
            CarType::TealSedan => Vec2 { x: 48_000, y: 95_000 },
            CarType::YellowTaxi => Vec2 { x: 48_000, y: 95_000 },
            CarType::RedConvertible => Vec2 { x: 44_000, y: 105_000 },
            CarType::GreenHatchback => Vec2 { x: 46_000, y: 85_000 },
            CarType::RedSportscar => Vec2 { x: 47_000, y: 100_000 },
            CarType::Player => Vec2 { x: 50_000, y: 120_000 },
        }
    }

    /// The car model that an enemy index selects; an index that names no
    /// enemy selects the teal sedan.
    pub open spec fn spec_from_enemy_index(index: u32) -> CarType {
        if index == 1 {
            CarType::GreyPickupTruck
        } else if index == 2 {
            CarType::TealSedan
        } else if index == 3 {
            CarType::YellowTaxi
        } else if index == 4 {
            CarType::RedConvertible
        } else if index == 5 {
            CarType::GreenHatchback
        } else if index == 6 {
            CarType::RedSportscar
        } else {
            CarType::TealSedan
        }
    }

    /// Where the picture of each car model is found among the assets.
    pub open spec fn spec_asset_path(self) -> Seq<char> {
        match self {
            CarType::GreyPickupTruck => "enemies/enemy1.png"@,
            CarType::TealSedan => "enemies/enemy2.png"@,
            CarType::YellowTaxi => "enemies/enemy3.png"@,
            CarType::RedConvertible => "enemies/enemy4.png"@,
            CarType::GreenHatchback => "enemies/enemy5.png"@,
            CarType::RedSportscar => "enemies/enemy6.png"@,
            CarType::Player => "player.png"@,
        }
    }

    pub fn collision_bounds(&self) -> (size: Vec2)
        ensures
            size == self.spec_collision_bounds(),
            size.x > 0,
            size.y > 0,
    {
        match self {
            CarType::GreyPickupTruck => Vec2::new(56_000, 110_000),
            CarType::TealSedan => Vec2::new(48_000, 95_000),
            CarType::YellowTaxi => Vec2::new(48_000, 95_000),
            CarType::RedConvertible => Vec2::new(44_000, 105_000),
            CarType::GreenHatchback => Vec2::new(46_000, 85_000),
            CarType::RedSportscar => Vec2::new(47_000, 100_000),
            CarType::Player => Vec2::new(50_000, 120_000),
        }
    }

    pub fn asset_path(&self) -> (path: &'static str)
        ensures
            path@ == self.spec_asset_path(),
    {
        match self {
            CarType::GreyPickupTruck => "enemies/enemy1.png",
            CarType::TealSedan => "enemies/enemy2.png",
            CarType::YellowTaxi => "enemies/enemy3.png",
            CarType::RedConvertible => "enemies/enemy4.png",
            CarType::GreenHatchback => "enemies/enemy5.png",
            CarType::RedSportscar => "enemies/enemy6.png",
            CarType::Player => "player.png",
        }
    }

    pub fn from_enemy_index(index: u32) -> (car_type: CarType)
        ensures
            car_type == CarType::spec_from_enemy_index(index),
            car_type != CarType::Player,
    {
        match index {
            1 => CarType::GreyPickupTruck,
            2 => CarType::TealSedan,
            3 => CarType::YellowTaxi,
            4 => CarType::RedConvertible,
            5 => CarType::GreenHatchback,
            6 => CarType::RedSportscar,
            _ => CarType::TealSedan,
        }
    }
}

/// The player's car.
#[derive(Clone, Copy, Debug, PartialEq, Eq, Structural)]
pub struct Player {
    pub position: Vec2,
    pub velocity: Velocity,
    pub car_type: CarType,
    pub bounds: CollisionBounds,
}

/// An oncoming car. `id` names it for as long as it lives.
#[derive(Clone, Copy, Debug, PartialEq, Eq, Structural)]
pub struct Enemy {
    pub id: u64,
    pub position: Vec2,
    pub velocity: Velocity,
    pub car_type: CarType,
    pub bounds: CollisionBounds,
}

/// A lane marker that scrolls down the road.
#[derive(Clone, Copy, Debug, PartialEq, Eq, Structural)]
pub struct RoadLine {
    pub position: Vec2,
    pub speed: u32,
}

} // verus!
