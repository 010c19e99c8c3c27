//! A verified model of a pair of minimal single-page applications: a
//! reactive counter page and a static site shell.
//!
//! The library holds everything the two applications decide or compute:
//! the counter and its click handlers, resolution of navigation paths
//! against the declared routes, and the markup each page renders. The
//! GUI runtime that delivers clicks and mounts the pages lives outside
//! the library.

pub mod counter;
pub mod markup;
pub mod route;
