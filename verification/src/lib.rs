//! A small catalogue of creatures: validated entities, repositories that store
//! them, and the use cases that create and fetch them.

pub mod domain;
pub mod repositories;
