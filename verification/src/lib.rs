//! Insight into a directory tree: a scan–filter–analyze pipeline.
//!
//! A scan walks a rooted directory tree, drops entries matching ignore
//! patterns, and collects per-entry metadata with aggregate counts.
//! The analyzer derives from such a file list the dominant project
//! ecosystem, a per-language breakdown, the dependency and config
//! manifests present, and a size-based estimate of the lines of code.

use vstd::prelude::*;

pub mod analyzer;
pub mod classify;
pub mod filter;
pub mod model;
pub mod report;
pub mod scanner;
pub mod text;

verus! {

/// The hello-world call a host uses to check the library is reachable.
pub fn greet(name: String) -> (r: String)
    ensures
        r@ == "Hello from Rust, "@ + name@ + "! 🦀"@,
{
    let mut r = "Hello from Rust, ".to_owned();
    r.append(name.as_str());
    r.append("! 🦀");
    r
}

} // verus!
