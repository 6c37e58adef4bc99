use vstd::prelude::*;

pub mod common;
pub mod error;
pub mod repo;
pub mod repository;
pub mod tags;
pub mod ui;
pub mod widget;

verus! {

/// What the program was asked on its command line.
#[derive(Debug, PartialEq)]
pub struct Opt {
    /// A custom path to a docker-compose file
    pub file: Option<String>,
    /// Give a Repository identifier, e.g. library/nginx
    pub repo: Option<String>,
}

} // verus!
