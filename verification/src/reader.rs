//! The chained section readers, in file order. Each reader is constructed
//! from the previous one; construction drains whatever records of the
//! previous section the caller did not read, then reads this section's
//! count prefix.

pub mod bone;
pub mod display;
pub mod header;
pub mod joint;
pub mod material;
pub mod morph;
pub mod rigid_body;
pub mod surface;
pub mod texture;
pub mod vertex;

pub use bone::BoneReader;
pub use display::DisplayReader;
pub use header::HeaderReader;
pub use joint::JointReader;
pub use material::MaterialReader;
pub use morph::MorphReader;
pub use rigid_body::RigidBodyReader;
pub use surface::SurfaceReader;
pub use texture::TextureReader;
pub use vertex::VertexReader;
