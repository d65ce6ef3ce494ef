//! The runtime configuration that an OCI image carries.
use vstd::prelude::*;

use crate::text::clone_strings;

verus! {

/// Entrypoint, arguments, environment and working directory of an image.
#[derive(Debug, Clone)]
pub struct OciImageConfig {
    pub entrypoint: Option<Vec<String>>,
    pub cmd: Option<Vec<String>>,
    pub env: Option<Vec<String>>,
    pub working_dir: Option<String>,
}

/// The words of an optional list, none when it is absent.
pub open spec fn words(o: Option<Vec<String>>) -> Seq<String> {
    match o {
        Some(v) => v@,
        None => Seq::empty(),
    }
}

impl OciImageConfig {
    /// The command the image runs: the entrypoint followed by the arguments.
    pub fn full_command(&self) -> (r: Vec<String>)
        ensures
            r@ == words(self.entrypoint) + words(self.cmd),
    {
        let mut r: Vec<String> = match &self.entrypoint {
            Some(e) => clone_strings(e),
            None => Vec::new(),
        };
        match &self.cmd {
            Some(c) => {
                let mut tail = clone_strings(c);
                r.append(&mut tail);
            },
            None => {},
        }
        assert(r@ =~= words(self.entrypoint) + words(self.cmd));
        r
    }
}

impl Default for OciImageConfig {
    fn default() -> (c: Self)
        ensures
            c.entrypoint is None,
            c.cmd is None,
            c.env is None,
            c.working_dir is None,
    {
        OciImageConfig { entrypoint: None, cmd: None, env: None, working_dir: None }
    }
}

} // verus!
