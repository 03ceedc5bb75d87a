//! Staged synchronisation of a shader material with its uniform buffer.
//!
//! A frame has two stages. Extraction moves every record of the store on by one frame and
//! leaves a copy of it for the render side. Preparation gives every material that has a
//! copy its uniform buffer and binding set, once, and has the copy written into the
//! buffer. The graphics backend is the host's: the stages say what to ask of it.

pub mod error;
pub mod extract;
pub mod gpu;
pub mod layout;
pub mod material;
pub mod prepare;
pub mod store;

pub use crate::error::MaterialError;
pub use crate::extract::{extract_material, Snapshots};
pub use crate::gpu::ShaderMaterialGpu;
pub use crate::material::{LinearRgba, ShaderMaterial};
pub use crate::prepare::{prepare_material, PrepareStage, Residency};
pub use crate::store::{setup, MaterialId, MaterialStore};
