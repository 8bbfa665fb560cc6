//! Discrete rules behind a swept axis-aligned-box collision sandbox: which
//! Minkowski-sum points are drawn and joined, which points bound the swept
//! region for each heading, how a contact is resolved, and how keys move the
//! world origin and the two boxes.

pub mod contact;
pub mod controls;
pub mod sweep;
pub mod wireframe;
