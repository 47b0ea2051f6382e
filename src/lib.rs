//! Marshaling logic between a JVM caller and a version manager for the
//! Unity editor: which Java enum constant stands for an installed component,
//! which install variant a Java component code selects, how large a Java
//! array may be, and what is reported when a call fails.

pub mod component;
pub mod marshal;
pub mod variant;
