//! What the user interface decides without drawing: file types and size units.
pub mod icon;
