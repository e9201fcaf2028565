//! The decisions of a real-time Vulkan renderer, verified.
//!
//! Everything here works on plain values. The code around the library owns the
//! device, the window and the files; it hands in what it measured and carries
//! out what it gets back.

pub mod assets;
pub mod culling;
pub mod draws;
pub mod extents;
pub mod frame;
pub mod library;
pub mod occlusion;
pub mod parallel;
pub mod passes;
pub mod pipeline_cache;
pub mod pipelines;
pub mod recording;
pub mod renderer;
pub mod rendering;
pub mod resources;
pub mod scene;
pub mod scene_choice;
pub mod settings;
pub mod showcase;
pub mod steps;
pub mod stress;
pub mod submission;
pub mod swapchain;
pub mod text;
pub mod textures;
pub mod timestamps;
pub mod transitions;
pub mod vendor;
