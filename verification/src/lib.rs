//! The decisions behind a windowed full-screen-triangle renderer: the uniform
//! block that the shader reads, byte for byte, and what the event loop does
//! with each event it is handed. Opening the window and driving the GPU is
//! left to the program that embeds this library.

pub mod frame;
pub mod uniform;
