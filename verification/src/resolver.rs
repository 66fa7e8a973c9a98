//! Finding the backend's installation root among the places where the
//! different packagings put it.

use vstd::prelude::*;

verus! {

/// Where the backend's entry point lies under its root.
pub const ENTRY_POINT: &'static str = "bin/rails";

/// A directory that a candidate root is named after.
#[derive(Clone, Copy, Debug, PartialEq, Eq, Structural)]
pub enum RootBase {
    /// The directory of bundled resources.
    ResourceDir,
    /// The directory that holds the running executable.
    ExecutableDir,
    /// The directory the shell was built in.
    ProjectDir,
}

/// A place to look for the backend: `relative` is resolved against `base`,
/// and an empty `relative` stands for `base` itself.
#[derive(Clone, Copy, Debug, PartialEq, Eq)]
pub struct CandidateSpot {
    pub base: RootBase,
    pub relative: &'static str,
}

/// A candidate root, with what a look at the file system found there.
#[derive(Clone, Debug, PartialEq, Eq)]
pub struct Candidate {
    pub root: String,
    pub has_entry_point: bool,
}

/// What the contracts see of a `Candidate`.
pub struct CandidateView {
    pub root: Seq<char>,
    pub has_entry_point: bool,
}

/// The root the backend runs from. It is fixed when it is resolved.
#[derive(Clone, Debug, PartialEq, Eq)]
pub struct ResourceRoot {
    path: String,
}

/// What the user interface is pointed at.
#[derive(Clone, Debug, PartialEq, Eq)]
pub enum ServingMode {
    /// The backend, run from this root.
    Backend(ResourceRoot),
    /// The built-in responder.
    Fallback,
}

impl View for CandidateSpot {
    type V = (RootBase, Seq<char>);

    open spec fn view(&self) -> (RootBase, Seq<char>) {
        (self.base, self.relative@)
    }
}

impl View for Candidate {
    type V = CandidateView;

    open spec fn view(&self) -> CandidateView {
        CandidateView { root: self.root@, has_entry_point: self.has_entry_point }
    }
}

impl View for ResourceRoot {
    type V = Seq<char>;

    closed spec fn view(&self) -> Seq<char> {
        self.path@
    }
}

impl ResourceRoot {
    /// The root as a path.
    pub fn path(&self) -> (path: &str)
        ensures
            path@ == self@,
    {
        self.path.as_str()
    }
}

/// The places to look in, the most trusted first: the bundled resources,
/// the directory beside them, two levels above the executable where its
/// directory is known, and last the development tree.
pub open spec fn spots(executable_dir_known: bool) -> Seq<(RootBase, Seq<char>)> {
    let bundled = seq![(RootBase::ResourceDir, ""@), (RootBase::ResourceDir, "_up_"@)];
    let adjacent = if executable_dir_known {
        seq![(RootBase::ExecutableDir, "../.."@)]
    } else {
        Seq::empty()
    };
    bundled + adjacent + seq![(RootBase::ProjectDir, ".."@)]
}

/// Whether `at` is the first of `candidates` that holds the entry point.
pub open spec fn is_first_holder(candidates: Seq<CandidateView>, at: int) -> bool {
    &&& 0 <= at < candidates.len()
    &&& candidates[at].has_entry_point
    &&& forall|before: int| 0 <= before < at ==> !(#[trigger] candidates[before]).has_entry_point
}

/// Position of the first of `candidates` at or after `from` that holds the
/// entry point.
pub open spec fn first_holder_from(candidates: Seq<CandidateView>, from: int) -> Option<int>
    decreases candidates.len() - from,
{
    if from < 0 || from >= candidates.len() {
        None
    } else if candidates[from].has_entry_point {
        Some(from)
    } else {
        first_holder_from(candidates, from + 1)
    }
}

/// The root that `candidates` resolve to: that of the first which holds the
/// entry point.
pub open spec fn resolved(candidates: Seq<CandidateView>) -> Option<Seq<char>> {
    match first_holder_from(candidates, 0) {
        Some(at) => Some(candidates[at].root),
        None => None,
    }
}

/// What the contracts see of a list of candidates.
pub open spec fn candidate_views(candidates: Seq<Candidate>) -> Seq<CandidateView> {
    Seq::new(candidates.len(), |at: int| candidates[at]@)
}

/// What the contracts see of a list of spots.
pub open spec fn spot_views(spots: Seq<CandidateSpot>) -> Seq<(RootBase, Seq<char>)> {
    Seq::new(spots.len(), |at: int| spots[at]@)
}

/// The places to look in, in the order in which they are tried.
pub fn candidate_spots(executable_dir_known: bool) -> (found: Vec<CandidateSpot>)
    ensures
        spot_views(found@) == spots(executable_dir_known),
{
    let mut found: Vec<CandidateSpot> = Vec::new();
    found.push(CandidateSpot { base: RootBase::ResourceDir, relative: "" });
    found.push(CandidateSpot { base: RootBase::ResourceDir, relative: "_up_" });
    if executable_dir_known {
        found.push(CandidateSpot { base: RootBase::ExecutableDir, relative: "../.." });
    }
    found.push(CandidateSpot { base: RootBase::ProjectDir, relative: ".." });
    found
}

/// What serves the user interface: the built-in responder on a mobile
/// platform and wherever no root was resolved, the backend otherwise.
pub open spec fn serving(mobile: bool, root: Option<Seq<char>>) -> Option<Seq<char>> {
    if mobile {
        None
    } else {
        root
    }
}

impl ServingMode {
    /// The root the backend runs from; `None` in fallback mode.
    pub open spec fn backend_root(self) -> Option<Seq<char>> {
        match self {
            ServingMode::Backend(root) => Some(root@),
            ServingMode::Fallback => None,
        }
    }
}

/// Decides what serves the user interface. That no root was found is no
/// fault: the built-in responder takes over.
pub fn serving_mode(mobile: bool, root: Option<ResourceRoot>) -> (mode: ServingMode)
    ensures
        mode.backend_root() == serving(
            mobile,
            match root {
                Some(root) => Some(root@),
                None => None,
            },
        ),
{
    match root {
        Some(root) => if mobile {
            ServingMode::Fallback
        } else {
            ServingMode::Backend(root)
        },
        None => ServingMode::Fallback,
    }
}

/// Picks the root: the first candidate, in the order given, that holds the
/// entry point. `None` where no candidate does.
pub fn resolve(candidates: &Vec<Candidate>) -> (root: Option<ResourceRoot>)
    ensures
        match root {
            Some(root) => resolved(candidate_views(candidates@)) == Some(root@),
            None => resolved(candidate_views(candidates@)) is None,
        },
{
    let ghost views = candidate_views(candidates@);
    let mut at: usize = 0;
    while at < candidates.len()
        invariant
            at <= candidates.len(),
            views == candidate_views(candidates@),
            first_holder_from(views, 0) == first_holder_from(views, at as int),
        decreases candidates.len() - at,
    {
        if candidates[at].has_entry_point {
            return Some(ResourceRoot { path: candidates[at].root.clone() });
        }
        at += 1;
    }
    None
}

/// The first candidate that holds the entry point is the one resolved,
/// whatever the later ones hold.
pub proof fn lemma_first_holder_is_resolved(candidates: Seq<CandidateView>, at: int)
    requires
        is_first_holder(candidates, at),
    ensures
        resolved(candidates) == Some(candidates[at].root),
{
    lemma_first_holder_from(candidates, at, 0);
}

/// Where exactly one candidate holds the entry point, that candidate is the
/// one resolved, wherever it stands.
pub proof fn lemma_only_holder_is_resolved(candidates: Seq<CandidateView>, at: int)
    requires
        0 <= at < candidates.len(),
        forall|other: int|
            0 <= other < candidates.len() ==> ((#[trigger] candidates[other]).has_entry_point <==> other
                == at),
    ensures
        resolved(candidates) == Some(candidates[at].root),
{
    lemma_first_holder_is_resolved(candidates, at);
}

/// Nothing is resolved exactly where no candidate holds the entry point.
pub proof fn lemma_unresolved_iff_no_holder(candidates: Seq<CandidateView>)
    ensures
        resolved(candidates) is None <==> forall|at: int|
            0 <= at < candidates.len() ==> !(#[trigger] candidates[at]).has_entry_point,
{
    lemma_first_holder_none(candidates, 0);
    if resolved(candidates) is Some {
        lemma_first_holder_some(candidates, 0);
    }
}

proof fn lemma_first_holder_from(candidates: Seq<CandidateView>, at: int, from: int)
    requires
        is_first_holder(candidates, at),
        0 <= from <= at,
    ensures
        first_holder_from(candidates, from) == Some(at),
    decreases at - from,
{
    if from < at {
        assert(!candidates[from].has_entry_point);
        lemma_first_holder_from(candidates, at, from + 1);
    }
}

proof fn lemma_first_holder_none(candidates: Seq<CandidateView>, from: int)
    requires
        0 <= from,
    ensures
        first_holder_from(candidates, from) is None <==> forall|at: int|
            from <= at < candidates.len() ==> !(#[trigger] candidates[at]).has_entry_point,
    decreases candidates.len() - from,
{
    if from < candidates.len() {
        lemma_first_holder_none(candidates, from + 1);
        if candidates[from].has_entry_point {
            assert(first_holder_from(candidates, from) == Some(from));
        }
    }
}

proof fn lemma_first_holder_some(candidates: Seq<CandidateView>, from: int)
    requires
        0 <= from,
        first_holder_from(candidates, from) is Some,
    ensures
        from <= first_holder_from(candidates, from)->0 < candidates.len(),
        candidates[first_holder_from(candidates, from)->0].has_entry_point,
    decreases candidates.len() - from,
{
    if from < candidates.len() && !candidates[from].has_entry_point {
        lemma_first_holder_some(candidates, from + 1);
    }
}

} // verus!
