//! A small application framework for windowed OpenGL programs.
//!
//! The library holds the decisions: how a window is configured, what the run
//! loop does next, how events change the context, how textures, shaders and
//! vertex data are described. The host program owns the window and the
//! graphics driver, carries out what the library asks for and reports back.

pub mod anim2d;
pub mod app;
pub mod buffer;
pub mod demo;
pub mod error;
pub mod event;
pub mod framework;
pub mod mesh;
pub mod run_loop;
pub mod shader;
pub mod texture;
pub mod vertex;
