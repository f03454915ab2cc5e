//! A small to-do list service: the records it stores, the requests it
//! answers, and the editing logic of its web front end.
pub mod number;
pub mod model;
pub mod json;
pub mod service;
pub mod editor;
pub mod card;
