//! Where projects live on disk, and how a lookup of that place is reported.
//!
//! A project is a directory `projects/<name>` below the base directory. The
//! frames in it are named by the pattern `frame_%04d.png`.
use vstd::prelude::*;
use vstd::string::StringExecFns;
use crate::order::lemma_precedes_after_prefix;
use crate::order::lemma_precedes_decided_at;
use crate::order::precedes;
use crate::text::decimal;
use crate::text::digit;
use crate::text::lemma_digits_ascend;
use crate::text::outcome_text;
use crate::text::texts;

verus! {

/// The base directory: the directory the application runs in.
pub open spec fn base_dir() -> Seq<char> {
    "."@
}

/// The components of a project's directory, outermost first.
pub open spec fn project_dir(project_name: Seq<char>) -> Seq<Seq<char>> {
    seq![base_dir(), "projects"@, project_name]
}

/// The file name pattern by which the video tool numbers the frames.
pub open spec fn frame_pattern() -> Seq<char> {
    "frame_%04d.png"@
}

/// The projects directory, relative to the application's resource
/// directory.
pub open spec fn projects_from_resources() -> Seq<char> {
    "../../projects/"@
}

/// A frame's number as the pattern writes it: in decimal, filled up with
/// zeros to four digits.
pub open spec fn frame_number(n: nat) -> Seq<char> {
    if n < 10 {
        seq!['0', '0', '0'] + decimal(n)
    } else if n < 100 {
        seq!['0', '0'] + decimal(n)
    } else if n < 1000 {
        seq!['0'] + decimal(n)
    } else {
        decimal(n)
    }
}

/// The file name that the pattern gives to the `n`th frame.
pub open spec fn frame_name(n: nat) -> Seq<char> {
    "frame_"@ + frame_number(n) + ".png"@
}

/// The digit at place `m` of a number below 10000 written with four
/// digits; place 0 holds the thousands.
pub open spec fn place(n: int, m: int) -> int {
    if m == 0 {
        n / 10 / 10 / 10
    } else if m == 1 {
        n / 10 / 10 % 10
    } else if m == 2 {
        n / 10 % 10
    } else {
        n % 10
    }
}

/// Below 10000 a frame's number has exactly four digits.
pub proof fn lemma_frame_number_digits(n: nat)
    requires
        n < 10000,
    ensures
        frame_number(n).len() == 4,
        forall|m: int| 0 <= m < 4 ==> #[trigger] frame_number(n)[m] == digit(place(n as int, m)),
        forall|m: int| 0 <= m < 4 ==> 0 <= #[trigger] place(n as int, m) < 10,
{
    reveal_with_fuel(decimal, 4);
}

/// Of two numbers below 10000, the smaller has the smaller digit at the
/// first place in which they differ.
proof fn lemma_first_difference(i: int, j: int) -> (k: int)
    requires
        0 <= i < j < 10000,
    ensures
        0 <= k < 4,
        forall|m: int| 0 <= m < k ==> place(i, m) == place(j, m),
        0 <= place(i, k) < place(j, k) < 10,
{
    if place(i, 0) != place(j, 0) {
        0
    } else if place(i, 1) != place(j, 1) {
        1
    } else if place(i, 2) != place(j, 2) {
        2
    } else {
        3
    }
}

/// The order of the names is the order of the frames: up to the 9999th
/// frame, an earlier frame's name comes before a later frame's name, in
/// any directory. (From the 10000th frame on the names grow longer and
/// this no longer holds.)
pub proof fn lemma_frame_names_ascend(dir: Seq<char>, earlier: nat, later: nat)
    requires
        earlier < later < 10000,
    ensures
        precedes(dir + frame_name(earlier), dir + frame_name(later)),
        !precedes(dir + frame_name(later), dir + frame_name(earlier)),
{
    let a = frame_number(earlier) + ".png"@;
    let b = frame_number(later) + ".png"@;
    assert(precedes(a, b) && !precedes(b, a)) by {
        lemma_frame_number_digits(earlier);
        lemma_frame_number_digits(later);
        let k = lemma_first_difference(earlier as int, later as int);
        lemma_digits_ascend(place(earlier as int, k), place(later as int, k));
        lemma_precedes_decided_at(a, b, k);
    }
    let prefix = dir + "frame_"@;
    lemma_precedes_after_prefix(prefix, a, b);
    lemma_precedes_after_prefix(prefix, b, a);
    assert(dir + frame_name(earlier) =~= prefix + a);
    assert(dir + frame_name(later) =~= prefix + b);
}

/// The base directory below which `projects` is kept.
pub fn determine_base_dir() -> (base: String)
    ensures
        base@ == base_dir(),
{
    String::from_str(".")
}

/// The components of the directory that holds the frames of
/// `project_name`. Joined in this order they give the directory's path.
pub fn project_dir_components(project_name: &str) -> (components: Vec<String>)
    ensures
        texts(components@) == project_dir(project_name@),
{
    let mut components: Vec<String> = Vec::new();
    components.push(determine_base_dir());
    components.push(String::from_str("projects"));
    components.push(String::from_str(project_name));
    assert(texts(components@) =~= project_dir(project_name@));
    components
}

/// The file name pattern of the frames.
pub fn frame_pattern_name() -> (name: String)
    ensures
        name@ == frame_pattern(),
{
    String::from_str("frame_%04d.png")
}

/// The path of the projects directory as seen from the resource
/// directory; the caller joins the two and resolves the result.
pub fn projects_relative_path() -> (path: String)
    ensures
        path@ == projects_from_resources(),
{
    String::from_str("../../projects/")
}

/// How the search for the projects directory went.
pub enum ProjectsLookup {
    /// The resource directory is not known; `error` says why.
    NoResourceDir { error: String },
    /// The path `path` could not be resolved; `error` says why.
    Unresolved { path: String, error: String },
    /// The directory was found, but its path is not valid UTF-8.
    NotUtf8,
    /// The directory was found at `path`.
    Found { path: String },
}

/// What a lookup of the projects directory reports.
pub open spec fn lookup_report(lookup: ProjectsLookup) -> Result<Seq<char>, Seq<char>> {
    match lookup {
        ProjectsLookup::NoResourceDir { error } => Err(
            "Could not determine resource directory: "@ + error@,
        ),
        ProjectsLookup::Unresolved { path, error } => Err(
            "Failed to canonicalize src-tauri projects path ("@ + path@ + "): "@ + error@,
        ),
        ProjectsLookup::NotUtf8 => Err("Path is not valid UTF-8"@),
        ProjectsLookup::Found { path } => Ok(path@),
    }
}

/// Reports the canonical path of the projects directory, or the step of
/// the lookup that failed.
pub fn get_src_tauri_projects_path(lookup: ProjectsLookup) -> (r: Result<String, String>)
    ensures
        outcome_text(r) == lookup_report(lookup),
{
    match lookup {
        ProjectsLookup::NoResourceDir { error } => {
            let mut message = String::from_str("Could not determine resource directory: ");
            message.append(error.as_str());
            Err(message)
        },
        ProjectsLookup::Unresolved { path, error } => {
            let mut message = String::from_str("Failed to canonicalize src-tauri projects path (");
            message.append(path.as_str());
            message.append("): ");
            message.append(error.as_str());
            Err(message)
        },
        ProjectsLookup::NotUtf8 => Err(String::from_str("Path is not valid UTF-8")),
        ProjectsLookup::Found { path } => Ok(path),
    }
}

} // verus!
