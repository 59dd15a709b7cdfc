//! Frame batching for a small real-time renderer: per-frame geometry and
//! per-draw transform records are staged against fixed-capacity GPU buffers,
//! flushed once per frame with dynamic uniform offsets, and the swapchain
//! and depth attachment are sized and recovered together.

pub mod bytes;
pub mod content;
pub mod draw;
pub mod input;
pub mod loadable;
pub mod model;
pub mod result;
pub mod sound;
pub mod staging;
pub mod submit;
pub mod surface;
pub mod texture;
pub mod uniform;
pub mod window;

pub use content::Content;
pub use input::Input;
pub use loadable::Loadable;
pub use model::Mesh;
pub use model::Model;
pub use model::ObjMesh;
pub use model::Vertex;
pub use result::GearError;
pub use result::Result;
pub use result::StagingKind;
pub use sound::Sound;
pub use draw::DrawCall;
pub use draw::RenderCommand;
pub use staging::FramePlan;
pub use staging::FrameStaging;
pub use submit::AcquireEvent;
pub use submit::SubmitPhase;
pub use surface::SurfaceTargets;
pub use texture::Texture;
pub use uniform::Locals;
pub use window::WindowEvent;
