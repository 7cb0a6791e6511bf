//! A streaming decoder for the PMX binary model-interchange format.
//!
//! The format is a sequence of count-prefixed sections (vertices, surfaces,
//! textures, materials, bones, morphs, display frames, rigid bodies and
//! joints) that must be consumed in file order. Each section gets a reader
//! that is constructed from the exhausted previous reader; constructing the
//! next reader automatically drains whatever records of the current section
//! the caller did not read.
//!
//! The decoder works on an in-memory byte buffer. Four-byte floating-point
//! fields are carried as their raw little-endian IEEE-754 bit patterns
//! (`u32`), so the caller decides how to interpret them.

pub mod bone;
pub mod cursor;
pub mod display;
pub mod error;
pub mod joint;
pub mod material;
pub mod morph;
pub mod parse;
pub mod reader;
pub mod rigid_body;
pub mod settings;
pub mod text;
pub mod types;
pub mod vertex;
pub mod weight_deform;

pub use crate::error::Error;
pub use crate::bone::Bone;
pub use crate::display::DisplayFrame;
pub use crate::joint::Joint;
pub use crate::material::Material;
pub use crate::morph::Morph;
pub use crate::rigid_body::RigidBody;
pub use crate::reader::{
    BoneReader, DisplayReader, HeaderReader, JointReader, MaterialReader, MorphReader,
    RigidBodyReader, SurfaceReader, TextureReader, VertexReader,
};
pub use crate::vertex::Vertex;
pub use crate::weight_deform::WeightDeform;
pub use crate::settings::Settings;
pub use crate::types::{Index, IndexSize, TextEncoding, Vec2, Vec3, Vec4, VertexIndex};
