//! Flavors, flavor groups and cloud usage.
pub mod flavor;
pub mod flavor_group;
pub mod usage;

use crate::common::{pairs_view, push_pair, push_u32, opt_u32_pair};
use vstd::prelude::*;

verus! {

/// The query of a usage report: the most specific scope given (user, else project,
/// else everything), then whether to aggregate.
pub open spec fn usage_pairs(user: Option<u32>, project: Option<u32>, all: bool, aggregate: bool) -> Seq<
    (Seq<char>, Seq<char>),
> {
    (if user is Some {
        opt_u32_pair("user"@, user)
    } else if project is Some {
        opt_u32_pair("project"@, project)
    } else if all {
        seq![("all"@, "1"@)]
    } else {
        Seq::empty()
    }) + (if aggregate {
        seq![("aggregate"@, "1"@)]
    } else {
        Seq::empty()
    })
}

/// The query pairs of a usage report.
pub fn usage_params(user: Option<u32>, project: Option<u32>, all: bool, aggregate: bool) -> (r: Vec<
    (String, String),
>)
    ensures
        pairs_view(r@) == usage_pairs(user, project, all, aggregate),
{
    let mut v: Vec<(String, String)> = Vec::new();
    assert(pairs_view(v@) =~= Seq::empty());
    if user.is_some() {
        push_u32(&mut v, "user", user);
    } else if project.is_some() {
        push_u32(&mut v, "project", project);
    } else if all {
        push_pair(&mut v, "all", "1".to_owned());
    }
    if aggregate {
        push_pair(&mut v, "aggregate", "1".to_owned());
    }
    assert(pairs_view(v@) =~= usage_pairs(user, project, all, aggregate));
    v
}

/// A usage report asks for the most specific scope given (a user, else a project, else
/// everything), then `aggregate=1` when aggregated; nothing else.
pub proof fn lemma_usage_query(user: Option<u32>, project: Option<u32>, all: bool, aggregate: bool)
    ensures
        ({
            let ps = usage_pairs(user, project, all, aggregate);
            let ns: int = if user is Some || project is Some || all { 1 } else { 0 };
            &&& ps.len() == ns + (if aggregate { 1int } else { 0int })
            &&& (user matches Some(u) ==> ps[0] == ("user"@, crate::text::dec(u as nat)))
            &&& ((user is None && project is Some) ==> ps[0] == (
                "project"@,
                crate::text::dec(project->0 as nat),
            ))
            &&& ((user is None && project is None && all) ==> ps[0] == ("all"@, "1"@))
            &&& (aggregate ==> ps.last() == ("aggregate"@, "1"@))
        }),
{
}

} // verus!
