//! What the command line resolved to: the files the editor should open.
use vstd::prelude::*;

verus! {

#[derive(Debug)]
pub struct Config {
    pub file_names: Vec<String>,
}

impl Config {
    pub fn new() -> (r: Config)
        ensures
            r.file_names@.len() == 0,
    {
        Config { file_names: Vec::new() }
    }
}

} // verus!
