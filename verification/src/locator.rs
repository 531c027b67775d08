//! Where a rendering engine is looked for. The places are ranked: what the
//! registry names, then the usual installation paths, then the paths below
//! the user's profile. The first place that holds a file wins.

use crate::naming::names;
use vstd::prelude::*;

verus! {

/// A root of the registry.
#[derive(Clone, Copy, Debug, PartialEq, Eq, Structural)]
pub enum RegistryRoot {
    LocalMachine,
    CurrentUser,
}

/// The key under which Edge registers its executable.
pub const EDGE_KEY: &'static str = r"SOFTWARE\Microsoft\Windows\CurrentVersion\App Paths\msedge.exe";

/// The key under which Chrome registers its executable.
pub const CHROME_KEY: &'static str = r"SOFTWARE\Microsoft\Windows\CurrentVersion\App Paths\chrome.exe";

/// Edge, installed for all users, 32 bit.
pub const EDGE_X86_PATH: &'static str = r"C:\Program Files (x86)\Microsoft\Edge\Application\msedge.exe";

/// Edge, installed for all users.
pub const EDGE_PATH: &'static str = r"C:\Program Files\Microsoft\Edge\Application\msedge.exe";

/// Chrome, installed for all users.
pub const CHROME_PATH: &'static str = r"C:\Program Files\Google\Chrome\Application\chrome.exe";

/// Edge below a user's local application data.
pub const EDGE_PROFILE_TAIL: &'static str = r"\Microsoft\Edge\Application\msedge.exe";

/// Chrome below a user's local application data.
pub const CHROME_PROFILE_TAIL: &'static str = r"\Google\Chrome\Application\chrome.exe";

/// The environment variable that names a user's local application data.
pub const PROFILE_VARIABLE: &'static str = "LOCALAPPDATA";

/// One default value to read from the registry.
#[derive(Clone, Copy, Debug, PartialEq, Eq)]
pub struct RegistryQuery {
    pub root: RegistryRoot,
    pub key: &'static str,
}

/// The registry values to read, in the order in which they rank: both keys
/// under the machine's root, then both under the user's, Edge before Chrome.
pub fn registry_queries() -> (queries: Vec<RegistryQuery>)
    ensures
        queries.len() == 4,
        queries[0].root == RegistryRoot::LocalMachine && queries[0].key@ == EDGE_KEY@,
        queries[1].root == RegistryRoot::LocalMachine && queries[1].key@ == CHROME_KEY@,
        queries[2].root == RegistryRoot::CurrentUser && queries[2].key@ == EDGE_KEY@,
        queries[3].root == RegistryRoot::CurrentUser && queries[3].key@ == CHROME_KEY@,
{
    let mut queries: Vec<RegistryQuery> = Vec::new();
    queries.push(RegistryQuery { root: RegistryRoot::LocalMachine, key: EDGE_KEY });
    queries.push(RegistryQuery { root: RegistryRoot::LocalMachine, key: CHROME_KEY });
    queries.push(RegistryQuery { root: RegistryRoot::CurrentUser, key: EDGE_KEY });
    queries.push(RegistryQuery { root: RegistryRoot::CurrentUser, key: CHROME_KEY });
    queries
}

/// The usual installation paths, in rank order.
pub open spec fn well_known() -> Seq<Seq<char>> {
    seq![EDGE_X86_PATH@, EDGE_PATH@, CHROME_PATH@]
}

/// The paths below a user's profile, in rank order; none where the profile
/// is not known.
pub open spec fn profile_paths(local_app_data: Option<Seq<char>>) -> Seq<Seq<char>> {
    match local_app_data {
        Some(base) => seq![base + EDGE_PROFILE_TAIL@, base + CHROME_PROFILE_TAIL@],
        None => Seq::empty(),
    }
}

/// All places to look at, best first.
pub open spec fn ranked(
    registry_values: Seq<Seq<char>>,
    local_app_data: Option<Seq<char>>,
) -> Seq<Seq<char>> {
    registry_values + well_known() + profile_paths(local_app_data)
}

/// Lists the places where an engine may be, best first: the paths that the
/// registry gave, in the order of `registry_queries`, then the usual
/// installation paths, then those below `local_app_data`.
pub fn engine_candidates(registry_values: &Vec<String>, local_app_data: Option<&str>) -> (list:
    Vec<String>)
    ensures
        names(list@) == ranked(
            names(registry_values@),
            match local_app_data {
                Some(base) => Some(base@),
                None => None,
            },
        ),
{
    let mut list: Vec<String> = Vec::new();
    let mut i: usize = 0;
    while i < registry_values.len()
        invariant
            i <= registry_values.len(),
            names(list@) == names(registry_values@).take(i as int),
        decreases registry_values.len() - i,
    {
        let ghost before = list@;
        let copy = registry_values[i].clone();
        list.push(copy);
        assert(names(list@) =~= names(before).push(copy@));
        assert(names(registry_values@).take(i + 1) =~= names(registry_values@).take(i as int).push(
            registry_values@[i as int]@,
        ));
        i += 1;
    }
    assert(names(registry_values@).take(i as int) =~= names(registry_values@));
    let ghost head = names(list@);
    list.push(String::from_str(EDGE_X86_PATH));
    list.push(String::from_str(EDGE_PATH));
    list.push(String::from_str(CHROME_PATH));
    assert(names(list@) =~= head + well_known());
    match local_app_data {
        Some(base) => {
            let mut edge = String::from_str(base);
            edge.append(EDGE_PROFILE_TAIL);
            let mut chrome = String::from_str(base);
            chrome.append(CHROME_PROFILE_TAIL);
            list.push(edge);
            list.push(chrome);
            assert(names(list@) =~= head + well_known() + profile_paths(Some(base@)));
        },
        None => {
            assert(names(list@) =~= head + well_known() + profile_paths(None));
        },
    }
    list
}

/// Whether place `i` was found to hold a file. A place without a report
/// counts as empty.
pub open spec fn present_at(present: Seq<bool>, i: int) -> bool {
    0 <= i < present.len() && present[i]
}

/// `i` is the best place of `count` that holds a file.
pub open spec fn is_best(present: Seq<bool>, count: int, i: int) -> bool {
    &&& 0 <= i < count
    &&& present_at(present, i)
    &&& forall|j: int| 0 <= j < i ==> !present_at(present, j)
}

/// Picks the engine: the first of `candidates` that `present` reports as an
/// existing file, or none where no candidate exists. Nothing is started.
pub fn locate(candidates: &Vec<String>, present: &Vec<bool>) -> (found: Option<String>)
    ensures
        match found {
            Some(path) => exists|i: int|
                is_best(present@, candidates.len() as int, i) && path@ == candidates[i]@,
            None => forall|i: int| 0 <= i < candidates.len() ==> !present_at(present@, i),
        },
{
    let mut i: usize = 0;
    while i < candidates.len()
        invariant
            i <= candidates.len(),
            forall|j: int| 0 <= j < i ==> !present_at(present@, j),
        decreases candidates.len() - i,
    {
        if i < present.len() && present[i] {
            assert(is_best(present@, candidates.len() as int, i as int));
            return Some(candidates[i].clone());
        }
        i += 1;
    }
    None
}

} // verus!
