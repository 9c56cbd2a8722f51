//! A cooperative single-consumer task scheduler, its timer-based suspension
//! primitive, and the small helpers of the web stack around it.
pub mod executor;
pub mod delay;
pub mod text;
pub mod mime_type;
pub mod mime;
pub mod html;
pub mod error;
pub mod utils;
pub mod todos;
