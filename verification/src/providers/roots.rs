//! Where the server looks for a root directory to serve.

use crate::text::concat;
use vstd::prelude::*;

verus! {

/// The home directory that is assumed where none is known.
pub open spec fn default_home() -> Seq<char> {
    "/home/atlantispleb"@
}

/// The home directory to go by: the one that is known, or the default.
pub open spec fn home_or_default(home: Option<String>) -> Seq<char> {
    match home {
        Some(h) => h@,
        None => default_home(),
    }
}

/// A directory that may serve as a root, and whether the file system holds a
/// directory there.
#[derive(Debug, PartialEq, Eq)]
pub struct RootProbe {
    pub path: String,
    pub is_directory: bool,
}

/// The directories that may serve as a root, in the order of preference:
/// two project directories under the home directory.
pub fn root_candidates(home: Option<String>) -> (r: Vec<String>)
    ensures
        r.len() == 2,
        r[0]@ == home_or_default(home) + "/code/pylon"@,
        r[1]@ == home_or_default(home) + "/code/onyx"@,
{
    let base = match home {
        Some(h) => h,
        None => "/home/atlantispleb".to_owned(),
    };
    let mut out: Vec<String> = Vec::new();
    out.push(concat(base.as_str(), "/code/pylon"));
    out.push(concat(base.as_str(), "/code/onyx"));
    out
}

/// The paths among `probes` at which there is a directory, in order.
pub open spec fn existing_roots(probes: Seq<RootProbe>) -> Seq<String> {
    probes.filter(|p: RootProbe| p.is_directory).map_values(|p: RootProbe| p.path)
}

/// The candidates that can serve as a root: those at which the file system
/// holds a directory, in the order of preference.
pub fn get_root_paths(probes: Vec<RootProbe>) -> (r: Vec<String>)
    ensures
        r@ == existing_roots(probes@),
{
    let mut valid: Vec<String> = Vec::new();
    let mut i: usize = 0;
    assert(probes@.subrange(0, 0) =~= Seq::<RootProbe>::empty());
    assert(existing_roots(Seq::<RootProbe>::empty()) =~= Seq::<String>::empty());
    while i < probes.len()
        invariant
            i <= probes.len(),
            valid@ == existing_roots(probes@.subrange(0, i as int)),
        decreases probes.len() - i,
    {
        proof {
            reveal(Seq::filter);
            assert(probes@.subrange(0, i + 1).drop_last() =~= probes@.subrange(0, i as int));
        }
        if probes[i].is_directory {
            valid.push(probes[i].path.clone());
        }
        assert(valid@ =~= existing_roots(probes@.subrange(0, i + 1)));
        i = i + 1;
    }
    assert(probes@.subrange(0, probes.len() as int) =~= probes@);
    valid
}

/// The root to serve: the first of `valid`, or the current directory where
/// there is none.
pub fn default_root(valid: &Vec<String>) -> (r: String)
    ensures
        r@ == if valid.len() > 0 {
            valid[0]@
        } else {
            "."@
        },
{
    if valid.len() > 0 {
        valid[0].clone()
    } else {
        ".".to_owned()
    }
}

} // verus!
