//! Where the file of a crate is looked for.
//!
//! A crate is found by its `path` annotation, else in a directory `library` above
//! the input file or in the working directory, else beside the input file. A
//! directory stands for the file of that name in it, except below `library`. What
//! is there is asked for step by step.

use vstd::prelude::*;
use vstd::string::*;

verus! {

/// A place where the file of a crate may be.
#[derive(Debug, PartialEq, Eq)]
pub enum Place {
    /// Where the `path` annotation says, seen from the input file.
    Given(String),
    /// In the directory `library` below the directory of this number.
    Library(usize),
    /// Beside the input file.
    Beside,
}

/// Model of [`Place`].
#[verifier::ext_equal]
pub enum PlaceV {
    Given(Seq<char>),
    Library(usize),
    Beside,
}

impl DeepView for Place {
    type V = PlaceV;

    open spec fn deep_view(&self) -> PlaceV {
        match self {
            Place::Given(path) => PlaceV::Given(path@),
            Place::Library(k) => PlaceV::Library(*k),
            Place::Beside => PlaceV::Beside,
        }
    }
}

/// What to do next in the search for a crate.
#[derive(Debug, PartialEq, Eq)]
pub enum CrateStep {
    /// Ask whether the file is in the directory `library` of this number.
    AskExists(usize),
    /// Ask whether this place is a directory.
    AskDir(Place),
    /// The file is at this place, or `inside` it under its own name.
    Found { place: Place, inside: bool },
}

/// Model of [`CrateStep`].
#[verifier::ext_equal]
pub enum CrateStepV {
    AskExists(usize),
    AskDir(PlaceV),
    Found { place: PlaceV, inside: bool },
}

impl DeepView for CrateStep {
    type V = CrateStepV;

    open spec fn deep_view(&self) -> CrateStepV {
        match self {
            CrateStep::AskExists(k) => CrateStepV::AskExists(*k),
            CrateStep::AskDir(place) => CrateStepV::AskDir(place.deep_view()),
            CrateStep::Found { place, inside } => CrateStepV::Found {
                place: place.deep_view(),
                inside: *inside,
            },
        }
    }
}

/// The first answer from `i` on that is yes.
pub open spec fn first_yes(answers: Seq<bool>, i: int) -> Option<int>
    decreases answers.len() - i,
{
    if i >= answers.len() {
        None
    } else if answers[i] {
        Some(i)
    } else {
        first_yes(answers, i + 1)
    }
}

/// A place that may be a directory.
pub open spec fn settle(place: PlaceV, is_dir: Option<bool>) -> CrateStepV {
    match is_dir {
        None => CrateStepV::AskDir(place),
        Some(inside) => CrateStepV::Found { place, inside },
    }
}

/// The next step in the search for a crate with this `path` annotation, where
/// `exists` says of the first of `dirs` directories whether the file is in their
/// `library`, and `is_dir` whether the place that was asked about is a directory.
pub open spec fn crate_place(
    path: Option<Seq<char>>,
    dirs: nat,
    exists: Seq<bool>,
    is_dir: Option<bool>,
) -> CrateStepV {
    match path {
        Some(p) => settle(PlaceV::Given(p), is_dir),
        None => match first_yes(exists, 0) {
            Some(k) => CrateStepV::Found { place: PlaceV::Library(k as usize), inside: false },
            None => if exists.len() < dirs {
                CrateStepV::AskExists(exists.len() as usize)
            } else {
                settle(PlaceV::Beside, is_dir)
            },
        },
    }
}

fn settled(place: Place, is_dir: Option<bool>) -> (r: CrateStep)
    ensures
        r.deep_view() == settle(place.deep_view(), is_dir),
{
    match is_dir {
        None => CrateStep::AskDir(place),
        Some(inside) => CrateStep::Found { place, inside },
    }
}

/// The next step in the search for a crate.
pub fn crate_step(
    path: &Option<String>,
    dirs: usize,
    exists: &Vec<bool>,
    is_dir: Option<bool>,
) -> (r: CrateStep)
    ensures
        r.deep_view() == crate_place(path.deep_view(), dirs as nat, exists@, is_dir),
{
    match path {
        Some(p) => settled(Place::Given(p.clone()), is_dir),
        None => {
            for i in 0..exists.len()
                invariant
                    path is None,
                    first_yes(exists@, 0) == first_yes(exists@, i as int),
            {
                if exists[i] {
                    return CrateStep::Found { place: Place::Library(i), inside: false };
                }
            }
            if exists.len() < dirs {
                CrateStep::AskExists(exists.len())
            } else {
                settled(Place::Beside, is_dir)
            }
        },
    }
}

proof fn lemma_no(answers: Seq<bool>, i: int)
    requires
        0 <= i,
        forall|j: int| i <= j < answers.len() ==> !(#[trigger] answers[j]),
    ensures
        first_yes(answers, i) is None,
    decreases answers.len() - i,
{
    if i < answers.len() {
        lemma_no(answers, i + 1);
    }
}

/// The directories are asked one after the other: as long as no `library` holds
/// the crate, the next step asks about the first directory without an answer, and
/// once all have answered, the file is looked for beside the input file.
pub proof fn law_directories_in_order(dirs: nat, exists: Seq<bool>, is_dir: Option<bool>)
    requires
        dirs <= usize::MAX,
        exists.len() <= dirs,
        forall|j: int| 0 <= j < exists.len() ==> !(#[trigger] exists[j]),
    ensures
        exists.len() < dirs ==> crate_place(None, dirs, exists, is_dir) == CrateStepV::AskExists(
            exists.len() as usize,
        ),
        exists.len() == dirs ==> crate_place(None, dirs, exists, is_dir) == settle(
            PlaceV::Beside,
            is_dir,
        ),
{
    lemma_no(exists, 0);
}

} // verus!
