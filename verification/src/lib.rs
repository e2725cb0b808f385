//! Frame planning for painting a tessellated user interface with an explicit
//! graphics API.
//!
//! Each frame a toolkit hands over a list of clipped meshes and a delta of
//! textures to upload and to free. The [`painter::Painter`] keeps track of
//! what is resident on the device (textures by identifier, vertex and index
//! buffers by draw position) and turns one frame's input into the ordered
//! work for the device: texture uploads, buffer writes that reuse a buffer
//! where the data fits, scissored indexed draws, and texture frees. Carrying
//! the work out on a device is left to the caller.

pub mod buffer;
pub mod bytes;
pub mod clip;
pub mod frame;
pub mod painter;
pub mod pipeline;
pub mod registry;
pub mod texture;
