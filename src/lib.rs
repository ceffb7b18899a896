//! A minimal desktop shell core: window configuration, GPU context negotiation,
//! framebuffer binding across resizes, an event-driven frame scheduler and an
//! ordered registry of paintable layers.
//!
//! Everything here works on plain values. The platform (windowing, GL, the
//! rasterizer) is driven by the caller, which hands each outcome back to the
//! state machines of this crate and performs the actions they return.

pub mod config;
pub mod pixel_format;
pub mod negotiate;
pub mod dispatch;
pub mod surface;
pub mod layers;
pub mod context;
