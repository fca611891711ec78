//! A small entity-component-system runtime: components stored in dense and
//! sparse per-kind containers, systems that join two containers by entity
//! index, and a world that assembles entities across its containers.

pub mod bits;
pub mod command;
pub mod component;
pub mod execution;
pub mod input;
pub mod schedule;
pub mod storage;
pub mod system;
pub mod time;
pub mod world;
