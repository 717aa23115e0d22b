//! The decision core of a small textured-quad renderer.
//!
//! The library never talks to the window system or the graphics driver. It
//! decides which commands are to be issued, in which order, and what follows
//! from each reply; the program around it carries the commands out.

pub mod build_laws;
pub mod command;
pub mod frame_loop;
pub mod geometry;
pub mod objects;
pub mod projection;
pub mod renderer;
pub mod texture;
pub mod window;
