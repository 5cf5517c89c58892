//! The typed values a configuration holds.

use crate::scalar::Scalar;
use vstd::prelude::*;

verus! {

/// How a scalar parameter is drawn.
#[derive(Debug, Clone, Copy, PartialEq, Eq, Structural)]
pub enum DistributionValue {
    UniformDistributionValue { from: Scalar, to: Scalar },
    NormalDistributionValue { mean: Scalar, std_deviation: Scalar },
    TimeInfiniteDistributionValue { avg_rate: Scalar, rate_deviation: Scalar },
}

/// Whether people keep arriving until the end time, or one crowd leaves.
#[derive(Debug, Clone, Copy, PartialEq, Eq, Structural)]
pub enum SimType {
    Flow,
    Escape,
}

#[derive(Debug, Clone, Copy)]
pub struct SceneWidth(pub u16);

#[derive(Debug, Clone, Copy)]
pub struct SceneHeight(pub u16);

#[derive(Debug, Clone, Copy)]
pub struct SceneScale(pub Scalar);

/// An obstacle segment, in grid units.
#[derive(Debug, Clone, Copy, PartialEq, Eq, Structural)]
pub struct SceneWall {
    pub x0: u16,
    pub y0: u16,
    pub x1: u16,
    pub y1: u16,
}

#[derive(Debug, Clone)]
pub struct SceneWalls(pub Vec<SceneWall>);

/// The rectangle in which the people of path `id` appear.
#[derive(Debug, Clone, Copy, PartialEq, Eq, Structural)]
pub struct SceneSpawnArea {
    pub x0: u16,
    pub y0: u16,
    pub x1: u16,
    pub y1: u16,
    pub id: u8,
}

#[derive(Debug, Clone)]
pub struct SceneSpawnAreas(pub Vec<SceneSpawnArea>);

/// A rectangle that the people of path `id` walk to, the areas of one path
/// in the order of `sequence_no`. A target area that comes from the
/// stream has the id 0: the stream names no path for it.
#[derive(Debug, Clone, Copy, PartialEq, Eq, Structural)]
pub struct SceneTargetArea {
    pub x0: u16,
    pub y0: u16,
    pub x1: u16,
    pub y1: u16,
    pub id: u8,
    pub sequence_no: u8,
    pub last: bool,
}

#[derive(Debug, Clone)]
pub struct SceneTargetAreas(pub Vec<SceneTargetArea>);

#[derive(Debug, Clone)]
pub struct SceneFilename(pub String);

#[derive(Debug, Clone, Copy)]
pub struct TimeEndTime(pub u32);

#[derive(Debug, Clone, Copy)]
pub struct TimeTick(pub Scalar);

#[derive(Debug, Clone, Copy)]
pub struct SpawnTime(pub DistributionValue);

#[derive(Debug, Clone, Copy)]
pub struct SpawnRate(pub Scalar);

#[derive(Debug, Clone, Copy)]
pub struct ForcesTargetSpeed(pub DistributionValue);

#[derive(Debug, Clone, Copy)]
pub struct ForcesRepulsionCoeff(pub DistributionValue);

#[derive(Debug, Clone, Copy)]
pub struct FovForward(pub DistributionValue);

#[derive(Debug, Clone, Copy)]
pub struct FovBackward(pub DistributionValue);

#[derive(Debug, Clone, Copy)]
pub struct SimTypeCfgWrap(pub SimType);

#[derive(Debug, Clone, Copy)]
pub struct DensityMapEnabled(pub bool);

#[derive(Debug, Clone, Copy)]
pub struct DensityMapMinThreshold(pub Scalar);

#[derive(Debug, Clone, Copy)]
pub struct DensityMapMaxThreshold(pub Scalar);

} // verus!
