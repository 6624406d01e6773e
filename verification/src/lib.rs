//! Naming of icon assets found in third-party icon package trees.
//!
//! Every icon file of a package gets one feature name, made of the package's
//! short name, the icon's own name, the categories it belongs to and its size.
//! The crate holds the rules that take a file name apart, the synthesis of the
//! feature name, and the decisions of the walk through a package's directory
//! tree. Reading directories and files is left to the caller.

pub mod category;
pub mod icon;
pub mod name;
pub mod package;
pub mod reader;
pub mod size;
pub mod text;
