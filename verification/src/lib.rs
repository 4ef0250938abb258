use vstd::prelude::*;

pub mod episode;
pub mod floatbits;
pub mod physics;
pub mod policy;
pub mod render;
pub mod state;
pub mod track;
pub mod values;

verus! {

/// Why loading one of the two data blobs was rejected: either the track
/// buffer had the wrong length, the track buffer held a byte that names no
/// cell classification, or the value-table buffer had the wrong length.
#[derive(Copy, Clone, PartialEq, Eq, Structural, Debug)]
pub enum LoadError {
    TrackLength,
    TrackByte,
    ValueLength,
}

} // verus!
