//! Which discovered task environments the environment-setup tool prebuilds:
//! every one when no name is given, else exactly the named ones, each of
//! which must have been discovered.
use crate::sets::{chars_lt, string_views, StringSet};
use crate::text::{chars_eq, chars_of};
use vstd::prelude::*;

verus! {

/// Why no environments can be prebuilt.
pub enum EnvironmentSelectionError {
    /// A name was asked for that no environment under `envs/` has.
    NotDiscovered { name: String, project_root: String },
    /// Nothing is left to prebuild.
    NoneSelected,
}

pub open spec fn environment_selection_message(e: EnvironmentSelectionError) -> Seq<char> {
    match e {
        EnvironmentSelectionError::NotDiscovered { name, project_root } => "environment `"@ + name@
            + "` was not discovered under "@ + project_root@ + "/envs"@,
        EnvironmentSelectionError::NoneSelected => "no task environments were selected"@,
    }
}

impl EnvironmentSelectionError {
    pub fn message(&self) -> (s: String)
        ensures
            s@ == environment_selection_message(*self),
    {
        match self {
            EnvironmentSelectionError::NotDiscovered { name, project_root } => {
                let mut s = "environment `".to_owned();
                s.append(name.as_str());
                s.append("` was not discovered under ");
                s.append(project_root.as_str());
                s.append("/envs");
                s
            },
            EnvironmentSelectionError::NoneSelected => "no task environments were selected".to_owned(),
        }
    }
}

fn contains_string(v: &Vec<String>, x: &str) -> (r: bool)
    ensures
        r == string_views(v@).contains(x@),
{
    let xc = chars_of(x);
    for i in 0..v.len()
        invariant
            xc@ == x@,
            forall|k: int| 0 <= k < i ==> string_views(v@)[k] != x@,
    {
        let ic = chars_of(v[i].as_str());
        if chars_eq(&ic, &xc) {
            assert(string_views(v@)[i as int] == x@);
            return true;
        }
    }
    proof {
        if string_views(v@).contains(x@) {
            let k = choose|k: int| 0 <= k < string_views(v@).len() && string_views(v@)[k] == x@;
            assert(string_views(v@)[k] != x@);
        }
    }
    false
}

/// Whether the environment named `name` is prebuilt.
pub open spec fn wanted(selected: Seq<Seq<char>>, name: Seq<char>) -> bool {
    selected.len() == 0 || selected.contains(name)
}

/// What a selection of environments comes to, over the discovered names
/// `d` and the selected names `sel`.
pub open spec fn selection_outcome(
    project_root: Seq<char>,
    d: Seq<Seq<char>>,
    sel: Seq<Seq<char>>,
    r: Result<Vec<bool>, EnvironmentSelectionError>,
) -> bool {
    let all_found = forall|k: int| 0 <= k < sel.len() ==> d.contains(#[trigger] sel[k]);
    match r {
        Ok(mask) => {
            &&& all_found
            &&& mask@.len() == d.len()
            &&& forall|i: int| 0 <= i < d.len() ==> mask@[i] == wanted(sel, #[trigger] d[i])
            &&& exists|i: int| 0 <= i < d.len() && #[trigger] mask@[i]
        },
        Err(EnvironmentSelectionError::NotDiscovered { name, project_root: root }) => {
            &&& root@ == project_root
            &&& sel.contains(name@)
            &&& !d.contains(name@)
            &&& forall|k: int|
                0 <= k < sel.len() && !d.contains(#[trigger] sel[k]) ==> sel[k] == name@ || chars_lt(
                    name@,
                    sel[k],
                )
        },
        Err(EnvironmentSelectionError::NoneSelected) => {
            &&& all_found
            &&& forall|i: int| 0 <= i < d.len() ==> !wanted(sel, #[trigger] d[i])
        },
    }
}

/// The environments to prebuild, as one flag per discovered environment in
/// discovery order. A selected name that was not discovered is refused
/// (the first such name in string order), and so is a selection that
/// leaves nothing to prebuild.
#[verifier::loop_isolation(false)]
pub fn select_environments(project_root: &str, discovered: &Vec<String>, selected: Vec<String>) -> (r:
    Result<Vec<bool>, EnvironmentSelectionError>)
    ensures
        selection_outcome(project_root@, string_views(discovered@), string_views(selected@), r),
{
    let ghost d = string_views(discovered@);
    let ghost sel = string_views(selected@);
    let select_all = selected.len() == 0;
    let set = StringSet::from_strings(selected);
    let n = set.len();
    for i in 0..n
        invariant
            n == set@.len(),
            d == string_views(discovered@),
            set@.to_set() == sel.to_set(),
            forall|a: int, b: int| 0 <= a < b < set@.len() ==> chars_lt(set@[a], set@[b]),
            forall|k: int| 0 <= k < i ==> d.contains(#[trigger] set@[k]),
    {
        let name = set.get(i);
        if !contains_string(discovered, name.as_str()) {
            proof {
                assert(set@.to_set().contains(name@));
                assert(sel.to_set().contains(name@));
                assert(sel.contains(name@));
                assert(!d.contains(name@));
                assert forall|k: int|
                    0 <= k < sel.len() && !d.contains(#[trigger] sel[k]) implies sel[k] == name@
                        || chars_lt(name@, sel[k]) by {
                    assert(sel.to_set().contains(sel[k]));
                    assert(set@.to_set().contains(sel[k]));
                    let j = choose|j: int| 0 <= j < set@.len() && set@[j] == sel[k];
                    if j < i {
                        assert(d.contains(set@[j]));
                    } else if j > i {
                        assert(chars_lt(set@[i as int], set@[j]));
                    }
                }
            }
            let missing = EnvironmentSelectionError::NotDiscovered {
                name: name.clone(),
                project_root: project_root.to_owned(),
            };
            assert(selection_outcome(project_root@, d, sel, Err(missing)));
            return Err(missing);
        }
    }
    proof {
        assert forall|k: int| 0 <= k < sel.len() implies d.contains(#[trigger] sel[k]) by {
            assert(sel.to_set().contains(sel[k]));
            assert(set@.to_set().contains(sel[k]));
            let j = choose|j: int| 0 <= j < set@.len() && set@[j] == sel[k];
            assert(d.contains(set@[j]));
        }
    }
    let mut mask: Vec<bool> = Vec::new();
    let mut any = false;
    for i in 0..discovered.len()
        invariant
            d == string_views(discovered@),
            select_all == (sel.len() == 0),
            set@.to_set() == sel.to_set(),
            mask@.len() == i,
            forall|j: int| 0 <= j < i ==> mask@[j] == wanted(sel, #[trigger] d[j]),
            any <==> exists|j: int| 0 <= j < i && #[trigger] mask@[j],
            forall|k: int| 0 <= k < sel.len() ==> d.contains(#[trigger] sel[k]),
    {
        let w = select_all || set.contains(discovered[i].as_str());
        proof {
            assert(d[i as int] == discovered@[i as int]@);
            assert(set@.contains(d[i as int]) == set@.to_set().contains(d[i as int]));
            assert(sel.contains(d[i as int]) == sel.to_set().contains(d[i as int]));
        }
        let ghost before = mask@;
        mask.push(w);
        assert(forall|j: int| 0 <= j < i ==> mask@[j] == before[j]);
        if w {
            any = true;
            assert(mask@[i as int]);
        } else {
            assert((exists|j: int| 0 <= j < i + 1 && #[trigger] mask@[j]) ==> (exists|j: int|
                0 <= j < i && #[trigger] before[j])) by {
                if exists|j: int| 0 <= j < i + 1 && #[trigger] mask@[j] {
                    let j = choose|j: int| 0 <= j < i + 1 && #[trigger] mask@[j];
                    assert(before[j]);
                }
            }
            assert((exists|j: int| 0 <= j < i && #[trigger] before[j]) ==> (exists|j: int|
                0 <= j < i + 1 && #[trigger] mask@[j])) by {
                if exists|j: int| 0 <= j < i && #[trigger] before[j] {
                    let j = choose|j: int| 0 <= j < i && #[trigger] before[j];
                    assert(mask@[j]);
                }
            }
        }
    }
    if !any {
        return Err(EnvironmentSelectionError::NoneSelected);
    }
    let ghost flags = mask@;
    let r: Result<Vec<bool>, EnvironmentSelectionError> = Ok(mask);
    assert(r matches Ok(m) && m@ == flags);
    r
}

/// With no names selected, every discovered environment is prebuilt (and
/// nothing discovered is an error); a selected name that was not
/// discovered always refuses the selection.
pub proof fn selection_follows_the_names(
    project_root: Seq<char>,
    d: Seq<Seq<char>>,
    sel: Seq<Seq<char>>,
    r: Result<Vec<bool>, EnvironmentSelectionError>,
    missing: int,
)
    requires
        selection_outcome(project_root, d, sel, r),
    ensures
        sel.len() == 0 && d.len() > 0 ==> (r matches Ok(mask) && forall|i: int|
            0 <= i < d.len() ==> #[trigger] mask@[i]),
        sel.len() == 0 && d.len() == 0 ==> r matches Err(EnvironmentSelectionError::NoneSelected),
        0 <= missing < sel.len() && !d.contains(sel[missing]) ==> r matches Err(
            EnvironmentSelectionError::NotDiscovered { .. },
        ),
        r matches Ok(mask) ==> forall|i: int|
            0 <= i < d.len() && sel.contains(d[i]) ==> #[trigger] mask@[i],
{
    if sel.len() == 0 && d.len() == 0 {
        if r is Ok {
            assert(false);
        }
    }
    if sel.len() == 0 && d.len() > 0 {
        assert(wanted(sel, d[0]));
        match r {
            Err(EnvironmentSelectionError::NotDiscovered { name, .. }) => {
                assert(!sel.contains(name@));
            },
            Ok(mask) => {
                assert forall|i: int| 0 <= i < d.len() implies #[trigger] mask@[i] by {
                    assert(wanted(sel, d[i]));
                }
            },
            _ => {},
        }
    }
}

} // verus!
