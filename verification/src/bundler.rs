//! Handle on a project that an external bundling tool is run against.
//!
//! Running the tool is a process boundary and stays outside the library;
//! the handle only records which project directory the tool works on.

use vstd::prelude::*;

verus! {

/// Identifies the project directory that bundling commands operate on.
pub struct Bundler {
    project_path: String,
}

impl Bundler {
    /// The project directory this handle points at.
    pub closed spec fn view(&self) -> Seq<char> {
        self.project_path@
    }

    pub fn new(project_path: String) -> (r: Self)
        ensures
            r@ == project_path@,
    {
        Bundler { project_path }
    }

    /// The project directory, for the layer that runs the external tool.
    pub fn project_path(&self) -> (r: &String)
        ensures
            r@ == self@,
    {
        &self.project_path
    }
}

} // verus!
