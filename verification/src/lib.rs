//! Verified core of the Axo UI framework: permissions, colours and style
//! keywords, the UI tree diff, pointer and text input, hot-reload rules,
//! device models, the development server's texts, ids and CLI arguments.

pub mod args;
pub mod callbacks;
pub mod color;
pub mod dev;
pub mod device;
pub mod diff;
pub mod hot_reload;
pub mod ids;
pub mod input;
pub mod paths;
pub mod permissions;
pub mod platform;
pub mod render;
pub mod style;
pub mod text;
