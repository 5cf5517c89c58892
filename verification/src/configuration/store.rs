//! The store that holds at most one value of each setting type.

use super::items::{
    DensityMapEnabled, DensityMapMaxThreshold, DensityMapMinThreshold, DistributionValue,
    ForcesRepulsionCoeff, ForcesTargetSpeed, FovBackward, FovForward, SceneFilename, SceneHeight,
    SceneScale, SceneSpawnArea, SceneSpawnAreas, SceneTargetArea, SceneTargetAreas, SceneWall,
    SceneWalls, SceneWidth, SimType, SimTypeCfgWrap, SpawnRate, SpawnTime, TimeEndTime, TimeTick,
};
use super::sealed::Sealed;
use crate::scalar::Scalar;
use vstd::prelude::*;

verus! {

/// Names the setting types, one key for each.
#[derive(Debug, Clone, Copy, PartialEq, Eq, Structural)]
pub enum Key {
    SceneWidth,
    SceneHeight,
    SceneScale,
    SceneWalls,
    SceneSpawnAreas,
    SceneTargetAreas,
    SceneFilename,
    TimeEndTime,
    TimeTick,
    SpawnTime,
    SpawnRate,
    ForcesTargetSpeed,
    ForcesRepulsionCoeff,
    FovForward,
    FovBackward,
    SimType,
    DensityMapEnabled,
    DensityMapMinThreshold,
    DensityMapMaxThreshold,
}

/// What a setting holds, as contracts speak of it.
pub enum Entry {
    SceneWidth(u16),
    SceneHeight(u16),
    SceneScale(Scalar),
    SceneWalls(Seq<SceneWall>),
    SceneSpawnAreas(Seq<SceneSpawnArea>),
    SceneTargetAreas(Seq<SceneTargetArea>),
    SceneFilename(Seq<char>),
    TimeEndTime(u32),
    TimeTick(Scalar),
    SpawnTime(DistributionValue),
    SpawnRate(Scalar),
    ForcesTargetSpeed(DistributionValue),
    ForcesRepulsionCoeff(DistributionValue),
    FovForward(DistributionValue),
    FovBackward(DistributionValue),
    SimType(SimType),
    DensityMapEnabled(bool),
    DensityMapMinThreshold(Scalar),
    DensityMapMaxThreshold(Scalar),
}

/// A type of which a configuration holds at most one value.
///
/// The types that implement it are those of this module's list, and each
/// of them has a key of its own: no two share one. What is said of the
/// store below rests on that.
pub trait Setting: Sized + Sealed + 'static {
    /// The key under which values of this type are held.
    spec fn key() -> Key;

    /// This value, as contracts speak of it.
    spec fn entry(&self) -> Entry;
}

/// The configuration value set: at most one value of each setting type.
///
/// The values lie in an `anymap::Map`, by their type. Nothing is proved
/// of that map: what it holds is known by `settings`, and through the
/// four functions below that reach into it.
#[verifier::external_body]
pub struct Configuration {
    map: anymap::AnyMap,
}

/// The settings that a configuration holds, by key: under the key of a
/// setting type, the value that the map holds for that type.
pub uninterp spec fn settings(c: Configuration) -> Map<Key, Entry>;

/// The settings of a configuration that holds nothing.
pub open spec fn no_settings() -> Map<Key, Entry> {
    Map::empty()
}

/// `anymap::Map::new`: a map that holds no value of any type.
#[verifier::external_body]
fn map_new() -> (created: Configuration)
    ensures
        settings(created) == no_settings(),
{
    Configuration { map: anymap::AnyMap::new() }
}

/// `anymap::Map::insert`: the value takes the place kept for its type,
/// whether or not a value was there; the places of other types are left
/// as they were.
#[verifier::external_body]
fn map_insert<T: Setting>(c: &mut Configuration, item: T)
    ensures
        settings(*final(c)) == settings(*old(c)).insert(T::key(), item.entry()),
{
    c.map.insert(item);
}

/// `anymap::Map::get`: a reference to the value held for the type, if
/// there is one; that is the value that was last put in for the type and
/// not taken out since.
#[verifier::external_body]
fn map_get<T: Setting>(c: &Configuration) -> (found: Option<&T>)
    ensures
        found is Some <==> settings(*c).dom().contains(T::key()),
        found is Some ==> found.unwrap().entry() == settings(*c)[T::key()],
{
    c.map.get::<T>()
}

/// `anymap::Map::remove`: takes out and returns the value held for the
/// type, if there is one; the places of other types are left as they were.
#[verifier::external_body]
fn map_remove<T: Setting>(c: &mut Configuration) -> (taken: Option<T>)
    ensures
        taken is Some <==> settings(*old(c)).dom().contains(T::key()),
        taken is Some ==> taken.unwrap().entry() == settings(*old(c))[T::key()],
        settings(*final(c)) == settings(*old(c)).remove(T::key()),
{
    c.map.remove::<T>()
}

impl Configuration {
    /// The settings held, by key.
    pub open spec fn view(&self) -> Map<Key, Entry> {
        settings(*self)
    }

    /// A configuration that holds nothing.
    pub fn empty() -> (created: Configuration)
        ensures
            created@ == no_settings(),
    {
        map_new()
    }

    /// Sets the value held for `T`, replacing the one that was there.
    pub fn insert<T: Setting>(&mut self, item: T)
        ensures
            final(self)@ == old(self)@.insert(T::key(), item.entry()),
    {
        map_insert(self, item)
    }

    /// The value held for `T`, if there is one.
    pub fn get<T: Setting>(&self) -> (found: Option<&T>)
        ensures
            found is Some <==> self@.dom().contains(T::key()),
            found is Some ==> found.unwrap().entry() == self@[T::key()],
    {
        map_get(self)
    }

    /// Takes out the value held for `T`, if there is one.
    pub fn remove<T: Setting>(&mut self) -> (taken: Option<T>)
        ensures
            taken is Some <==> old(self)@.dom().contains(T::key()),
            taken is Some ==> taken.unwrap().entry() == old(self)@[T::key()],
            final(self)@ == old(self)@.remove(T::key()),
    {
        map_remove(self)
    }
}

impl Sealed for SceneWidth {

}

impl Setting for SceneWidth {
    open spec fn key() -> Key {
        Key::SceneWidth
    }

    open spec fn entry(&self) -> Entry {
        Entry::SceneWidth(self.0)
    }
}

impl Sealed for SceneHeight {

}

impl Setting for SceneHeight {
    open spec fn key() -> Key {
        Key::SceneHeight
    }

    open spec fn entry(&self) -> Entry {
        Entry::SceneHeight(self.0)
    }
}

impl Sealed for SceneScale {

}

impl Setting for SceneScale {
    open spec fn key() -> Key {
        Key::SceneScale
    }

    open spec fn entry(&self) -> Entry {
        Entry::SceneScale(self.0)
    }
}

impl Sealed for SceneWalls {

}

impl Setting for SceneWalls {
    open spec fn key() -> Key {
        Key::SceneWalls
    }

    open spec fn entry(&self) -> Entry {
        Entry::SceneWalls(self.0@)
    }
}

impl Sealed for SceneSpawnAreas {

}

impl Setting for SceneSpawnAreas {
    open spec fn key() -> Key {
        Key::SceneSpawnAreas
    }

    open spec fn entry(&self) -> Entry {
        Entry::SceneSpawnAreas(self.0@)
    }
}

impl Sealed for SceneTargetAreas {

}

impl Setting for SceneTargetAreas {
    open spec fn key() -> Key {
        Key::SceneTargetAreas
    }

    open spec fn entry(&self) -> Entry {
        Entry::SceneTargetAreas(self.0@)
    }
}

impl Sealed for SceneFilename {

}

impl Setting for SceneFilename {
    open spec fn key() -> Key {
        Key::SceneFilename
    }

    open spec fn entry(&self) -> Entry {
        Entry::SceneFilename(self.0@)
    }
}

impl Sealed for TimeEndTime {

}

impl Setting for TimeEndTime {
    open spec fn key() -> Key {
        Key::TimeEndTime
    }

    open spec fn entry(&self) -> Entry {
        Entry::TimeEndTime(self.0)
    }
}

impl Sealed for TimeTick {

}

impl Setting for TimeTick {
    open spec fn key() -> Key {
        Key::TimeTick
    }

    open spec fn entry(&self) -> Entry {
        Entry::TimeTick(self.0)
    }
}

impl Sealed for SpawnTime {

}

impl Setting for SpawnTime {
    open spec fn key() -> Key {
        Key::SpawnTime
    }

    open spec fn entry(&self) -> Entry {
        Entry::SpawnTime(self.0)
    }
}

impl Sealed for SpawnRate {

}

impl Setting for SpawnRate {
    open spec fn key() -> Key {
        Key::SpawnRate
    }

    open spec fn entry(&self) -> Entry {
        Entry::SpawnRate(self.0)
    }
}

impl Sealed for ForcesTargetSpeed {

}

impl Setting for ForcesTargetSpeed {
    open spec fn key() -> Key {
        Key::ForcesTargetSpeed
    }

    open spec fn entry(&self) -> Entry {
        Entry::ForcesTargetSpeed(self.0)
    }
}

impl Sealed for ForcesRepulsionCoeff {

}

impl Setting for ForcesRepulsionCoeff {
    open spec fn key() -> Key {
        Key::ForcesRepulsionCoeff
    }

    open spec fn entry(&self) -> Entry {
        Entry::ForcesRepulsionCoeff(self.0)
    }
}

impl Sealed for FovForward {

}

impl Setting for FovForward {
    open spec fn key() -> Key {
        Key::FovForward
    }

    open spec fn entry(&self) -> Entry {
        Entry::FovForward(self.0)
    }
}

impl Sealed for FovBackward {

}

impl Setting for FovBackward {
    open spec fn key() -> Key {
        Key::FovBackward
    }

    open spec fn entry(&self) -> Entry {
        Entry::FovBackward(self.0)
    }
}

impl Sealed for SimTypeCfgWrap {

}

impl Setting for SimTypeCfgWrap {
    open spec fn key() -> Key {
        Key::SimType
    }

    open spec fn entry(&self) -> Entry {
        Entry::SimType(self.0)
    }
}

impl Sealed for DensityMapEnabled {

}

impl Setting for DensityMapEnabled {
    open spec fn key() -> Key {
        Key::DensityMapEnabled
    }

    open spec fn entry(&self) -> Entry {
        Entry::DensityMapEnabled(self.0)
    }
}

impl Sealed for DensityMapMinThreshold {

}

impl Setting for DensityMapMinThreshold {
    open spec fn key() -> Key {
        Key::DensityMapMinThreshold
    }

    open spec fn entry(&self) -> Entry {
        Entry::DensityMapMinThreshold(self.0)
    }
}

impl Sealed for DensityMapMaxThreshold {

}

impl Setting for DensityMapMaxThreshold {
    open spec fn key() -> Key {
        Key::DensityMapMaxThreshold
    }

    open spec fn entry(&self) -> Entry {
        Entry::DensityMapMaxThreshold(self.0)
    }
}

} // verus!
