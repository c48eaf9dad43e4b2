use vstd::prelude::*;

use crate::config::ServiceConfig;

verus! {

/// Entry `i` is the first one of `services` whose path is `path`.
pub open spec fn is_first_match(services: Seq<ServiceConfig>, path: Seq<char>, i: int) -> bool {
    &&& 0 <= i < services.len()
    &&& services[i].path@ == path
    &&& forall|j: int| 0 <= j < i ==> services[j].path@ != path
}

/// No entry of `services` has the path `path`.
pub open spec fn has_no_match(services: Seq<ServiceConfig>, path: Seq<char>) -> bool {
    forall|j: int| 0 <= j < services.len() ==> services[j].path@ != path
}

/// The routing decision: the index of the first entry, in declaration order,
/// whose path equals `path` exactly; `None` when there is none.
pub open spec fn route_index(services: Seq<ServiceConfig>, path: Seq<char>) -> Option<int> {
    if exists|i: int| is_first_match(services, path, i) {
        Some(choose|i: int| is_first_match(services, path, i))
    } else {
        None
    }
}

/// At most one entry is the first match for a path.
pub proof fn lemma_first_match_unique(services: Seq<ServiceConfig>, path: Seq<char>, i: int, k: int)
    requires
        is_first_match(services, path, i),
        is_first_match(services, path, k),
    ensures
        i == k,
{
    if i < k {
        assert(services[i].path@ != path);
    } else if k < i {
        assert(services[k].path@ != path);
    }
}

/// A path that some entry has has a first match.
proof fn lemma_some_first_match(services: Seq<ServiceConfig>, path: Seq<char>, j: int)
    requires
        0 <= j < services.len(),
        services[j].path@ == path,
    ensures
        exists|i: int| is_first_match(services, path, i),
    decreases j,
{
    if exists|t: int| 0 <= t < j && services[t].path@ == path {
        let t = choose|t: int| 0 <= t < j && services[t].path@ == path;
        lemma_some_first_match(services, path, t);
    } else {
        assert(is_first_match(services, path, j));
    }
}

/// `route_index` names the first match exactly when there is one.
pub proof fn lemma_route_index(services: Seq<ServiceConfig>, path: Seq<char>)
    ensures
        match route_index(services, path) {
            Some(i) => is_first_match(services, path, i),
            None => has_no_match(services, path),
        },
{
    if !exists|i: int| is_first_match(services, path, i) {
        assert forall|j: int| 0 <= j < services.len() implies services[j].path@ != path by {
            if services[j].path@ == path {
                lemma_some_first_match(services, path, j);
            }
        }
    }
}

/// Scans `services` in declaration order for the first entry whose path
/// equals `path` exactly and returns its index.
pub fn find_route(services: &Vec<ServiceConfig>, path: &String) -> (r: Option<usize>)
    ensures
        r matches Some(i) ==> is_first_match(services@, path@, i as int),
        r is None ==> has_no_match(services@, path@),
        match r {
            Some(i) => route_index(services@, path@) == Some(i as int),
            None => route_index(services@, path@) is None,
        },
{
    let mut i: usize = 0;
    while i < services.len()
        invariant
            0 <= i <= services@.len(),
            forall|j: int| 0 <= j < i ==> services@[j].path@ != path@,
        decreases services@.len() - i,
    {
        if services[i].path == *path {
            proof {
                assert(is_first_match(services@, path@, i as int));
                lemma_route_index(services@, path@);
                let k = route_index(services@, path@)->Some_0;
                lemma_first_match_unique(services@, path@, i as int, k);
            }
            return Some(i);
        }
        i = i + 1;
    }
    proof {
        lemma_route_index(services@, path@);
        if route_index(services@, path@) is Some {
            let k = route_index(services@, path@)->Some_0;
            assert(services@[k].path@ != path@);
        }
    }
    None
}

} // verus!
