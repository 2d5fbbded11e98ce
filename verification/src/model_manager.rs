//! Deciding which backing files of the resource are missing and where to
//! fetch them from.  The fetch itself is an external collaborator; this
//! module only plans it.

use crate::text::{after_last_char, str_eq};
use vstd::prelude::*;

verus! {

/// The URL the default model is fetched from.
pub open spec fn spec_swinv2_model_url() -> Seq<char> {
    "https://huggingface.co/SmilingWolf/wd-v1-4-swinv2-tagger-v2/resolve/main/model.onnx"@
}

/// The URL the alternative convnext model is fetched from.
pub open spec fn spec_convnext_model_url() -> Seq<char> {
    "https://huggingface.co/SmilingWolf/wd-v1-4-convnext-tagger-v2/resolve/main/model.onnx"@
}

/// The URL the alternative convnextv2 model is fetched from.
pub open spec fn spec_convnextv2_model_url() -> Seq<char> {
    "https://huggingface.co/SmilingWolf/wd-v1-4-convnextv2-tagger-v2/resolve/main/model.onnx"@
}

/// The URL the tag table is fetched from.
pub open spec fn spec_tags_url() -> Seq<char> {
    "https://huggingface.co/SmilingWolf/wd-v1-4-swinv2-tagger-v2/resolve/main/selected_tags.csv"@
}

/// The suffix of `p` after its last occurrence of `c`; all of `p` if `c`
/// does not occur.
pub open spec fn spec_after_last(p: Seq<char>, c: char) -> Seq<char>
    decreases p.len(),
{
    if p.len() == 0 {
        Seq::empty()
    } else if p.last() == c {
        Seq::empty()
    } else {
        spec_after_last(p.drop_last(), c) + seq![p.last()]
    }
}

/// An index `i` that cuts `p` just after the last occurrence of `c` marks
/// exactly the suffix [`spec_after_last`] names.
pub proof fn lemma_after_last_characterization(p: Seq<char>, c: char, i: int)
    requires
        0 <= i <= p.len(),
        forall|j: int| i <= j < p.len() ==> p[j] != c,
        i > 0 ==> p[i - 1] == c,
    ensures
        spec_after_last(p, c) == p.subrange(i, p.len() as int),
    decreases p.len(),
{
    if p.len() == 0 {
        assert(spec_after_last(p, c) =~= p.subrange(0, 0));
    } else if p.last() == c {
        assert(i == p.len());
        assert(spec_after_last(p, c) =~= p.subrange(i, p.len() as int));
    } else {
        assert(i < p.len());
        lemma_after_last_characterization(p.drop_last(), c, i);
        assert(spec_after_last(p, c) =~= p.subrange(i, p.len() as int));
    }
}

/// The download URL a model file name is known under, if any.
pub open spec fn spec_model_url(name: Seq<char>) -> Option<Seq<char>> {
    if name == "model.onnx"@ {
        Some(spec_swinv2_model_url())
    } else if name == "convnext.onnx"@ {
        Some(spec_convnext_model_url())
    } else if name == "convnextv2.onnx"@ {
        Some(spec_convnextv2_model_url())
    } else {
        None
    }
}

/// The URL the model at `path` can be fetched from: the path's file name —
/// its part after the last `/` — must be one of the known model names.
pub fn get_model_url(path: &str) -> (r: Option<&'static str>)
    ensures
        match r {
            Some(url) => spec_model_url(spec_after_last(path@, '/')) == Some(url@),
            None => spec_model_url(spec_after_last(path@, '/')) is None,
        },
{
    let cut = after_last_char(path, '/');
    let name = path.substring_char(cut, path.unicode_len());
    proof {
        lemma_after_last_characterization(path@, '/', cut as int);
    }
    if str_eq(name, "model.onnx") {
        Some("https://huggingface.co/SmilingWolf/wd-v1-4-swinv2-tagger-v2/resolve/main/model.onnx")
    } else if str_eq(name, "convnext.onnx") {
        Some(
            "https://huggingface.co/SmilingWolf/wd-v1-4-convnext-tagger-v2/resolve/main/model.onnx",
        )
    } else if str_eq(name, "convnextv2.onnx") {
        Some(
            "https://huggingface.co/SmilingWolf/wd-v1-4-convnextv2-tagger-v2/resolve/main/model.onnx",
        )
    } else {
        None
    }
}

/// Relies on `std::path::Path::exists`: whether something is at `path` on
/// disk right now.  Nothing is promised of the result; the disk may change
/// between any two calls.
#[verifier::external_body]
fn path_exists(path: &str) -> bool {
    std::path::Path::new(path).exists()
}

/// Whether something is at `path` on disk right now.  The answer holds only
/// for the moment of the call: the disk may change between any two calls,
/// so nothing relates two answers to each other.
pub fn check_file_exists(path: &str) -> bool {
    path_exists(path)
}

/// Whether the model file named by `path_str` — resolved against `base_dir`
/// when it is relative — is on disk right now.
pub fn check_model_exists(path_str: &str, base_dir: &str, platform: crate::Platform) -> bool {
    let path = crate::config::resolve_model_path(path_str, base_dir, platform);
    check_file_exists(path.as_str())
}

/// One file to fetch: from `url`, to `dest`.
pub struct DownloadTask {
    pub url: String,
    pub dest: String,
}

/// Planning fails only when the model file is missing and its name is not a
/// known model, so nothing can be fetched for it.
#[derive(Debug)]
pub enum PlanError {
    UnknownModel { model_path: String },
}

/// The fetches that make both backing files present: nothing for a file
/// that exists, the model's known URL for a missing model, the tag-table
/// URL for a missing tag table — or nothing at all when the missing model
/// is not a known one.
pub open spec fn spec_plan_downloads(
    model_path: Seq<char>,
    tags_path: Seq<char>,
    model_exists: bool,
    tags_exists: bool,
) -> Option<Seq<(Seq<char>, Seq<char>)>> {
    let model_part: Option<Seq<(Seq<char>, Seq<char>)>> = if model_exists {
        Some(Seq::empty())
    } else {
        match spec_model_url(spec_after_last(model_path, '/')) {
            Some(url) => Some(seq![(url, model_path)]),
            None => None,
        }
    };
    match model_part {
        Some(tasks) => Some(
            if tags_exists {
                tasks
            } else {
                tasks + seq![(spec_tags_url(), tags_path)]
            },
        ),
        None => None,
    }
}

/// Plans the downloads for the given presence of the two backing files,
/// exactly as [`spec_plan_downloads`] describes; `Err` carries the model
/// path that could not be planned for.
pub fn plan_downloads(
    model_path: &str,
    tags_path: &str,
    model_exists: bool,
    tags_exists: bool,
) -> (r: Result<Vec<DownloadTask>, PlanError>)
    ensures
        match r {
            Ok(tasks) => {
                &&& spec_plan_downloads(model_path@, tags_path@, model_exists, tags_exists)
                    matches Some(sp)
                &&& tasks@.len() == sp.len()
                &&& forall|i: int|
                    0 <= i < sp.len() ==> (#[trigger] tasks@[i]).url@ == sp[i].0 && tasks@[i].dest@
                        == sp[i].1
            },
            Err(PlanError::UnknownModel { model_path: m }) => {
                &&& spec_plan_downloads(model_path@, tags_path@, model_exists, tags_exists)
                    is None
                &&& m@ == model_path@
            },
        },
{
    let mut tasks: Vec<DownloadTask> = Vec::new();
    if !model_exists {
        match get_model_url(model_path) {
            Some(url) => {
                tasks.push(
                    DownloadTask {
                        url: String::from_str(url),
                        dest: String::from_str(model_path),
                    },
                );
            },
            None => {
                return Err(PlanError::UnknownModel { model_path: String::from_str(model_path) });
            },
        }
    }
    if !tags_exists {
        tasks.push(
            DownloadTask {
                url: String::from_str(
                    "https://huggingface.co/SmilingWolf/wd-v1-4-swinv2-tagger-v2/resolve/main/selected_tags.csv",
                ),
                dest: String::from_str(tags_path),
            },
        );
    }
    Ok(tasks)
}

/// Looks at the disk and plans the downloads for what is missing right now.
/// Whatever the disk says, the plan is exact for the presence the two
/// checks reported.
pub fn plan_downloads_on_disk(model_path: &str, tags_path: &str) -> (r: Result<
    Vec<DownloadTask>,
    PlanError,
>)
    ensures
        match r {
            Ok(tasks) => exists|me: bool, te: bool|
                {
                    &&& #[trigger] spec_plan_downloads(model_path@, tags_path@, me, te)
                        matches Some(sp)
                    &&& tasks@.len() == sp.len()
                    &&& forall|i: int|
                        0 <= i < sp.len() ==> (#[trigger] tasks@[i]).url@ == sp[i].0
                            && tasks@[i].dest@ == sp[i].1
                },
            Err(PlanError::UnknownModel { model_path: m }) => {
                &&& m@ == model_path@
                &&& exists|te: bool|
                    spec_plan_downloads(model_path@, tags_path@, false, te) is None
            },
        },
{
    let model_exists = check_file_exists(model_path);
    let tags_exists = check_file_exists(tags_path);
    let r = plan_downloads(model_path, tags_path, model_exists, tags_exists);
    proof {
        match r {
            Ok(_) => {},
            Err(_) => {
                assert(!model_exists);
                assert(spec_plan_downloads(model_path@, tags_path@, false, tags_exists) is None);
            },
        }
    }
    r
}

} // verus!
