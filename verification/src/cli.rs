//! The copy front end's argument planning: which directory must exist
//! before the operation starts, and which `(from, to)` pair each source
//! becomes.
//!
//! With several sources, or a destination written as a directory (`b/`,
//! `.`, `..`, `b/.`, `b/..`), each source is copied *into* the destination
//! under its own basename; otherwise the single source is copied *to* the
//! destination name.

use vstd::prelude::*;

use crate::path::{
    clone_bytes, file_name_of, is_into_directory, join_path, parent_of, spec_file_name,
    spec_is_into_directory, spec_join, spec_parent,
};

verus! {

/// The front end's plan: what to create, and the pairs to copy.
#[derive(Debug)]
pub struct CopyArgsPlan {
    /// The directory to create (with its missing ancestors) before the copy
    /// runs: the destination itself when the sources are copied into it,
    /// otherwise the destination's parent; absent when there is none.
    pub create_dir: Option<Vec<u8>>,
    /// The destination argument after any argument reversal.
    pub to: Vec<u8>,
    /// The `(from, to)` pair for each source.
    pub pairs: Vec<(Vec<u8>, Vec<u8>)>,
}

/// The destination a single source is copied to when several sources are
/// given: into `to` under the source's basename, or onto `to` itself when
/// the source has no basename.
pub open spec fn spec_pair_destination(to: Seq<u8>, from: Seq<u8>) -> Seq<u8> {
    match spec_file_name(from) {
        Some(name) => spec_join(to, name),
        None => to,
    }
}

/// Plans the copy front end's arguments. With `reverse_args` the
/// destination and the first source trade places first.
pub fn plan_copy_args(from: Vec<Vec<u8>>, to: Vec<u8>, reverse_args: bool) -> (r: CopyArgsPlan)
    requires
        from@.len() >= 1,
    ensures
        ({
            let f = if reverse_args {
                from@.update(0, to)
            } else {
                from@
            };
            let t = if reverse_args {
                from@[0]@
            } else {
                to@
            };
            let into_dir = spec_is_into_directory(t);
            &&& r.to@ == t
            &&& (if f.len() > 1 || (into_dir && spec_file_name(f[0]@) is Some) {
                r.create_dir matches Some(d) && d@ == t
            } else {
                match spec_parent(t) {
                    Some(p) => r.create_dir matches Some(d) && d@ == p,
                    None => r.create_dir is None,
                }
            })
            &&& r.pairs@.len() == f.len()
            &&& (f.len() > 1 ==> forall|i: int|
                0 <= i < f.len() ==> (#[trigger] r.pairs@[i]).0@ == f[i]@ && r.pairs@[i].1@
                    == spec_pair_destination(t, f[i]@))
            &&& (f.len() == 1 ==> r.pairs@[0].0@ == f[0]@ && r.pairs@[0].1@ == (if into_dir
                && spec_file_name(f[0]@) is Some {
                spec_join(t, spec_file_name(f[0]@)->Some_0)
            } else {
                t
            }))
        }),
{
    let ghost f0 = from@;
    let ghost t0 = to;
    let mut from = from;
    let mut to = to;
    if reverse_args {
        let first = from.remove(0);
        from.insert(0, to);
        to = first;
        proof {
            assert(from@ =~= f0.update(0, t0));
        }
    }
    let ghost f = from@;
    let ghost t = to@;
    let into_dir = is_into_directory(&to);
    let first_name = file_name_of(&from[0]);
    let create_dir = if from.len() > 1 || (into_dir && first_name.is_some()) {
        Some(clone_bytes(&to))
    } else {
        parent_of(&to)
    };
    let mut pairs: Vec<(Vec<u8>, Vec<u8>)> = Vec::new();
    if from.len() > 1 {
        let n = from.len();
        let mut i: usize = 0;
        while i < n
            invariant
                n == from@.len(),
                i <= n,
                from@ == f,
                to@ == t,
                pairs@.len() == i,
                forall|j: int|
                    0 <= j < i ==> (#[trigger] pairs@[j]).0@ == f[j]@ && pairs@[j].1@
                        == spec_pair_destination(t, f[j]@),
            decreases n - i,
        {
            let source = clone_bytes(&from[i]);
            let dest = match file_name_of(&from[i]) {
                Some(name) => join_path(&to, &name),
                None => clone_bytes(&to),
            };
            pairs.push((source, dest));
            i += 1;
        }
    } else {
        let source = clone_bytes(&from[0]);
        let dest = if into_dir {
            match first_name {
                Some(name) => join_path(&to, &name),
                None => clone_bytes(&to),
            }
        } else {
            clone_bytes(&to)
        };
        pairs.push((source, dest));
    }
    CopyArgsPlan { create_dir, to, pairs }
}

} // verus!
