//! Finding the companion application's executable.
//!
//! The bridge knows only its own directory; the application may sit next to
//! it, one level above it (a resources layout), or — outside Windows — in
//! one of the two system binary directories.  The candidates are tried in
//! that fixed order and the first that exists on disk wins; when none does,
//! the full searched list is reported for diagnostics.

use crate::config::{join_path, spec_join_path};
use crate::model_manager::{check_file_exists, lemma_after_last_characterization, spec_after_last};
use crate::text::after_last_char;
use crate::Platform;
use vstd::prelude::*;

verus! {

/// The separator character `platform` uses between path components.
pub open spec fn spec_separator(platform: Platform) -> char {
    match platform {
        Platform::Unix => '/',
        Platform::Windows => '\\',
    }
}

/// The executable name of the companion application under `platform`'s
/// naming convention.
pub open spec fn spec_app_name(platform: Platform) -> Seq<char> {
    match platform {
        Platform::Windows => "omni-tagger.exe"@,
        Platform::Unix => "omni-tagger"@,
    }
}

/// The companion's executable name under `platform`'s convention.
pub fn app_executable_name(platform: Platform) -> (r: &'static str)
    ensures
        r@ == spec_app_name(platform),
{
    match platform {
        Platform::Windows => "omni-tagger.exe",
        Platform::Unix => "omni-tagger",
    }
}

/// The directory above `dir`: everything before `dir`'s last separator,
/// the separator alone when `dir` is a child of the root, and `dir` itself
/// when it has no separator to climb.
pub open spec fn spec_parent_dir(dir: Seq<char>, sep: char) -> Seq<char> {
    let k = dir.len() - spec_after_last(dir, sep).len();
    if k == 0 {
        dir
    } else if k == 1 {
        dir.subrange(0, 1)
    } else {
        dir.subrange(0, k - 1)
    }
}

/// Climbs one directory up from `dir`, exactly as [`spec_parent_dir`]
/// describes.
pub fn parent_dir(dir: &str, platform: Platform) -> (r: String)
    ensures
        r@ == spec_parent_dir(dir@, spec_separator(platform)),
{
    let sep = match platform {
        Platform::Unix => '/',
        Platform::Windows => '\\',
    };
    let k = after_last_char(dir, sep);
    proof {
        lemma_after_last_characterization(dir@, sep, k as int);
        assert(spec_after_last(dir@, sep).len() == dir@.len() - k);
    }
    if k == 0 {
        String::from_str(dir)
    } else if k == 1 {
        String::from_str(dir.substring_char(0, 1))
    } else {
        String::from_str(dir.substring_char(0, k - 1))
    }
}

/// The ordered candidate paths for the companion executable, first match
/// intended to win: the bridge's own directory, then its parent, then — off
/// Windows — `/usr/bin` and `/usr/local/bin`.
pub open spec fn spec_candidates(self_dir: Seq<char>, platform: Platform) -> Seq<Seq<char>> {
    let name = spec_app_name(platform);
    let own = spec_join_path(self_dir, name, platform);
    let above = spec_join_path(
        spec_parent_dir(self_dir, spec_separator(platform)),
        name,
        platform,
    );
    match platform {
        Platform::Windows => seq![own, above],
        Platform::Unix => seq![
            own,
            above,
            spec_join_path("/usr/bin"@, name, platform),
            spec_join_path("/usr/local/bin"@, name, platform),
        ],
    }
}

/// Builds the ordered candidate list, exactly as [`spec_candidates`]
/// describes.
pub fn candidate_paths(self_dir: &str, platform: Platform) -> (r: Vec<String>)
    ensures
        r.deep_view() == spec_candidates(self_dir@, platform),
{
    let name = app_executable_name(platform);
    let mut r: Vec<String> = Vec::new();
    r.push(join_path(self_dir, name, platform));
    let above = parent_dir(self_dir, platform);
    r.push(join_path(above.as_str(), name, platform));
    match platform {
        Platform::Windows => {},
        Platform::Unix => {
            r.push(join_path("/usr/bin", name, platform));
            r.push(join_path("/usr/local/bin", name, platform));
        },
    }
    proof {
        assert(r.deep_view() =~= spec_candidates(self_dir@, platform));
    }
    r
}

/// The first index whose flag is set, if any: candidate order decides, so
/// an earlier hit always beats a later one.
pub open spec fn spec_select_first(flags: Seq<bool>) -> Option<int>
    decreases flags.len(),
{
    if flags.len() == 0 {
        None
    } else if flags[0] {
        Some(0)
    } else {
        match spec_select_first(flags.drop_first()) {
            Some(i) => Some(i + 1),
            None => None,
        }
    }
}

/// Precedence: whenever the first candidate is present — whatever the later
/// flags say — the first candidate is the one selected.
pub proof fn lemma_first_candidate_wins(flags: Seq<bool>)
    requires
        flags.len() >= 1,
        flags[0],
    ensures
        spec_select_first(flags) == Some(0int),
{
}

/// An index with its flag set, and no set flag before it, is the selected
/// one.
pub proof fn lemma_select_first_some(flags: Seq<bool>, i: int)
    requires
        0 <= i < flags.len(),
        flags[i],
        forall|j: int| 0 <= j < i ==> !flags[j],
    ensures
        spec_select_first(flags) == Some(i),
    decreases flags.len(),
{
    if i > 0 {
        lemma_select_first_some(flags.drop_first(), i - 1);
    }
}

/// With no flag set, nothing is selected.
pub proof fn lemma_select_first_none(flags: Seq<bool>)
    requires
        forall|j: int| 0 <= j < flags.len() ==> !flags[j],
    ensures
        spec_select_first(flags) is None,
    decreases flags.len(),
{
    if flags.len() > 0 {
        lemma_select_first_none(flags.drop_first());
    }
}

/// Picks the first candidate whose flag is set, exactly as
/// [`spec_select_first`] describes.
pub fn select_first(flags: &Vec<bool>) -> (r: Option<usize>)
    ensures
        match r {
            Some(i) => spec_select_first(flags@) == Some(i as int),
            None => spec_select_first(flags@) is None,
        },
{
    let mut i: usize = 0;
    while i < flags.len()
        invariant
            i <= flags@.len(),
            forall|j: int| 0 <= j < i ==> !flags@[j],
        decreases flags@.len() - i,
    {
        if flags[i] {
            proof {
                lemma_select_first_some(flags@, i as int);
            }
            return Some(i);
        }
        i += 1;
    }
    proof {
        lemma_select_first_none(flags@);
    }
    None
}

/// Where the search ended.
pub enum LocateOutcome {
    /// The path of the first candidate that existed on disk.
    Found { path: String },
    /// No candidate existed; the full searched list, in search order, for
    /// the error report.
    NotFound { searched: Vec<String> },
}

/// Searches the candidate paths for `self_dir` in order and takes the first
/// that exists on disk right now.  Whatever the disk says, a found path is
/// one of the candidates, and a miss reports exactly the candidate list.
pub fn locate(self_dir: &str, platform: Platform) -> (r: LocateOutcome)
    ensures
        match r {
            LocateOutcome::Found { path } => exists|i: int|
                0 <= i < spec_candidates(self_dir@, platform).len() && path@
                    == spec_candidates(self_dir@, platform)[i],
            LocateOutcome::NotFound { searched } => searched.deep_view() == spec_candidates(
                self_dir@,
                platform,
            ),
        },
{
    let candidates = candidate_paths(self_dir, platform);
    let mut flags: Vec<bool> = Vec::new();
    let mut i: usize = 0;
    while i < candidates.len()
        invariant
            i <= candidates@.len(),
            flags@.len() == i,
        decreases candidates@.len() - i,
    {
        flags.push(check_file_exists(candidates[i].as_str()));
        i += 1;
    }
    match select_first(&flags) {
        Some(k) => {
            proof {
                lemma_select_first_in_range(flags@);
            }
            let path = candidates[k].clone();
            proof {
                assert(path@ == candidates.deep_view()[k as int]);
            }
            LocateOutcome::Found { path }
        },
        None => LocateOutcome::NotFound { searched: candidates },
    }
}

/// The error message for a failed search: the fixed preamble, then every
/// searched path in search order, comma-separated.
pub open spec fn spec_not_found_message(searched: Seq<Seq<char>>) -> Seq<char> {
    "App executable not found. Searched at "@ + crate::tags::spec_join(searched, ", "@)
}

/// Renders the error message for a failed search, exactly as
/// [`spec_not_found_message`] describes.
pub fn not_found_message(searched: &Vec<String>) -> (r: String)
    ensures
        r@ == spec_not_found_message(searched.deep_view()),
{
    let ghost all = searched.deep_view();
    let mut r = String::from_str("App executable not found. Searched at ");
    let mut i: usize = 0;
    while i < searched.len()
        invariant
            i <= all.len(),
            all == searched.deep_view(),
            r@ == "App executable not found. Searched at "@ + crate::tags::spec_join(
                all.subrange(0, i as int),
                ", "@,
            ),
        decreases all.len() - i,
    {
        if i > 0 {
            r.append(", ");
        }
        r.append(searched[i].as_str());
        proof {
            assert(all.subrange(0, i + 1).drop_last() =~= all.subrange(0, i as int));
            assert(all.subrange(0, i + 1).last() == all[i as int]);
        }
        i += 1;
    }
    proof {
        assert(all.subrange(0, all.len() as int) =~= all);
    }
    r
}

/// A selected index lies inside the flag list.
pub proof fn lemma_select_first_in_range(flags: Seq<bool>)
    ensures
        match spec_select_first(flags) {
            Some(i) => 0 <= i < flags.len(),
            None => true,
        },
    decreases flags.len(),
{
    if flags.len() > 0 && !flags[0] {
        lemma_select_first_in_range(flags.drop_first());
    }
}

} // verus!
