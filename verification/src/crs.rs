//! Coordinate reference systems.
//!
//! Real numbers of the metadata are carried as the bit patterns of their
//! binary64 encoding: this crate stores them and computes nothing with them.

use vstd::prelude::*;

verus! {

/// Whether a scene is laid out on the globe or in a local plane.
#[derive(Debug, Clone, Copy, PartialEq, Eq, Structural)]
pub enum Mode {
    Local,
    Global,
}

/// Whether `epsg` is the code of a geographic (global) reference system.
pub open spec fn is_global_epsg(epsg: int) -> bool {
    epsg == 4326 || epsg == 4490
}

impl Mode {
    /// The mode of the reference system with the code `epsg`.
    pub fn from_epsg(epsg: i32) -> (mode: Self)
        ensures
            mode == if is_global_epsg(epsg as int) {
                Mode::Global
            } else {
                Mode::Local
            },
    {
        if epsg == 4326 || epsg == 4490 {
            Mode::Global
        } else {
            Mode::Local
        }
    }
}

/// Elevation info.
#[derive(Debug, Clone, PartialEq, Eq)]
pub struct ElevationInfo {
    pub mode: String,
    /// Bit pattern of the offset.
    pub offset: Option<u64>,
    pub unit: Option<String>,
}

/// Height model info.
#[derive(Debug, Clone, PartialEq, Eq)]
pub struct HeightModelInfo {
    pub height_model: String,
    pub vertical_crs: Option<String>,
    pub height_unit: String,
}

/// An axis-aligned extent; each bound is the bit pattern of a coordinate.
#[derive(Debug, Clone, Copy, PartialEq, Eq)]
pub struct Extent {
    pub xmin: u64,
    pub ymin: u64,
    pub zmin: u64,
    pub xmax: u64,
    pub ymax: u64,
    pub zmax: u64,
    pub spatial_reference: Option<SpatialReference>,
}

/// Spatial reference.
#[derive(Debug, Clone, Copy, PartialEq, Eq)]
pub struct SpatialReference {
    pub wkid: i32,
    pub latest_wkid: Option<i32>,
    pub vcs_wkid: Option<i32>,
    pub latest_vcs_wkid: Option<i32>,
}

impl SpatialReference {
    /// Whether the reference names a vertical coordinate system.
    pub fn has_z(&self) -> (r: bool)
        ensures
            r == (self.vcs_wkid is Some || self.latest_vcs_wkid is Some),
    {
        self.vcs_wkid.is_some() || self.latest_vcs_wkid.is_some()
    }

    /// The code of the vertical coordinate system: the current one, else the
    /// latest one.
    pub fn z(&self) -> (r: Option<i32>)
        ensures
            r == if self.vcs_wkid is Some {
                self.vcs_wkid
            } else {
                self.latest_vcs_wkid
            },
    {
        match self.vcs_wkid {
            Some(code) => Some(code),
            None => self.latest_vcs_wkid,
        }
    }

    /// The code of the horizontal coordinate system.
    pub fn xy(&self) -> (r: i32)
        ensures
            r == self.wkid,
    {
        self.wkid
    }

    /// The mode that the horizontal code gives.
    pub fn mode(&self) -> (mode: Mode)
        ensures
            mode == if is_global_epsg(self.wkid as int) {
                Mode::Global
            } else {
                Mode::Local
            },
    {
        Mode::from_epsg(self.wkid)
    }
}

} // verus!
