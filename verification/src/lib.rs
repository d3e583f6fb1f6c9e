//! Declarative construction of storyboard sprites: timed transformation
//! events (move, fade, rotate, scale), per-sprite aggregation of the active
//! time window, and rendering into the line-oriented script text that the
//! storyboard renderer consumes.

pub mod easing;
pub mod layer;
pub mod origin;
pub mod sprite;
pub mod event;
pub mod text;

pub use easing::Easing;
pub use event::Fade;
pub use event::Move;
pub use event::Rotate;
pub use event::Scale;
pub use event::Vec2;
pub use layer::Layer;
pub use origin::Origin;
pub use sprite::EventCollection;
pub use sprite::Sprite;
pub use sprite::SpriteConfig;
