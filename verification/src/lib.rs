//! A modal terminal front end for a version-control tool: the widgets every
//! screen is built from, the screens themselves, the router that moves between
//! them, and the rules by which backend output becomes typed records.

pub mod application;
pub mod backend;
pub mod job;
pub mod mode;
pub mod order;
pub mod platform;
pub mod text;
pub mod ui;
pub mod widget;
