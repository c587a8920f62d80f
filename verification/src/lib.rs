//! Verified core of the detaxine-ui tooling: the text that the project
//! scaffolder writes, the manifest edit that bumps the component library's
//! version, and the class and attribute decisions of the button components.

pub mod text;
pub mod manifest;
pub mod tailwind;
pub mod scaffold;
pub mod class_parse;
pub mod button;
