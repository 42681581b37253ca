//! Verified core of a small desktop tool set: the byte relay between a child
//! shell and an interactive display, and the text and layout rules of a
//! process monitor.

pub mod buffer;
pub mod capture;
pub mod event_loop;
pub mod geometry;
pub mod graph;
pub mod history;
pub mod input;
pub mod layout;
pub mod memory;
pub mod process_info;
pub mod session;
pub mod std_specs;
pub mod task_manager;
pub mod text;
