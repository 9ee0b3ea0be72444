//! Editors that sit in the tabs of a request view.

pub mod headers;
