//! A CSS selection engine: selector matching against a node capability
//! interface, cascade ordering of the matched declarations and composition
//! of computed styles from a parent's style.

pub mod fixed;
pub mod types;
pub mod properties;
pub mod selector;
pub mod handler;
pub mod matcher;
pub mod dom;
pub mod stylesheet;
pub mod select;
pub mod cascade;
pub mod computed;
