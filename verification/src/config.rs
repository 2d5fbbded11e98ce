//! The configuration every work item snapshots at dispatch time, and the
//! store that decides when a configuration change forces a resource reload.

use crate::text::str_eq;
use crate::Platform;
use vstd::prelude::*;

verus! {

/// The mathematical content of a configuration.
pub struct ConfigAbs {
    pub model_path: Seq<char>,
    pub tags_path: Seq<char>,
    pub threshold_permille: u32,
    pub use_underscore: bool,
    pub exclusion_list: Seq<Seq<char>>,
}

/// The configuration: where the resource's backing files live, the score
/// threshold (in thousandths, so `350` stands for a cutoff of 0.35), how tag
/// separators are rewritten, and which tags are excluded.
pub struct AppConfig {
    pub model_path: String,
    pub tags_path: String,
    pub threshold_permille: u32,
    pub use_underscore: bool,
    pub exclusion_list: Vec<String>,
}

impl View for AppConfig {
    type V = ConfigAbs;

    open spec fn view(&self) -> ConfigAbs {
        ConfigAbs {
            model_path: self.model_path@,
            tags_path: self.tags_path@,
            threshold_permille: self.threshold_permille,
            use_underscore: self.use_underscore,
            exclusion_list: self.exclusion_list.deep_view(),
        }
    }
}

/// The threshold is a fraction of one: at most 1000 thousandths.
pub open spec fn spec_config_wf(c: ConfigAbs) -> bool {
    c.threshold_permille <= 1000
}

/// The configuration a fresh installation starts from.
pub open spec fn spec_default_config() -> ConfigAbs {
    ConfigAbs {
        model_path: "models/model.onnx"@,
        tags_path: "models/tags.csv"@,
        threshold_permille: 350,
        use_underscore: false,
        exclusion_list: Seq::empty(),
    }
}

impl Default for AppConfig {
    /// The default configuration: the bundled model and tag table, a 0.35
    /// threshold, spaces between words, and nothing excluded.
    fn default() -> (r: AppConfig)
        ensures
            r@ == spec_default_config(),
            spec_config_wf(r@),
    {
        let r = AppConfig {
            model_path: String::from_str("models/model.onnx"),
            tags_path: String::from_str("models/tags.csv"),
            threshold_permille: 350,
            use_underscore: false,
            exclusion_list: Vec::new(),
        };
        proof {
            assert(r@.exclusion_list =~= spec_default_config().exclusion_list);
        }
        r
    }
}

/// Copies a configuration field by field.
pub fn clone_config(c: &AppConfig) -> (r: AppConfig)
    ensures
        r@ == c@,
{
    let mut exclusion_list: Vec<String> = Vec::new();
    let mut i: usize = 0;
    while i < c.exclusion_list.len()
        invariant
            i <= c.exclusion_list@.len(),
            exclusion_list@.len() == i,
            forall|j: int| 0 <= j < i ==> exclusion_list@[j] == c.exclusion_list@[j],
        decreases c.exclusion_list@.len() - i,
    {
        exclusion_list.push(c.exclusion_list[i].clone());
        i += 1;
    }
    let r = AppConfig {
        model_path: c.model_path.clone(),
        tags_path: c.tags_path.clone(),
        threshold_permille: c.threshold_permille,
        use_underscore: c.use_underscore,
        exclusion_list,
    };
    proof {
        assert(r.exclusion_list@ =~= c.exclusion_list@);
        assert(r@.exclusion_list =~= c@.exclusion_list);
    }
    r
}

/// A configuration change forces a reload exactly when a resource-affecting
/// field — the model path or the tag-table path — differs.
pub open spec fn spec_needs_reload(old_cfg: ConfigAbs, new_cfg: ConfigAbs) -> bool {
    old_cfg.model_path != new_cfg.model_path || old_cfg.tags_path != new_cfg.tags_path
}

/// Whether replacing `old_cfg` by `new_cfg` must rebuild the resource.
pub fn needs_reload(old_cfg: &AppConfig, new_cfg: &AppConfig) -> (r: bool)
    ensures
        r == spec_needs_reload(old_cfg@, new_cfg@),
{
    !str_eq(old_cfg.model_path.as_str(), new_cfg.model_path.as_str()) || !str_eq(
        old_cfg.tags_path.as_str(),
        new_cfg.tags_path.as_str(),
    )
}

/// What accepting a new configuration asks of the caller.
pub enum SetOutcome {
    /// The loaded resource still matches the configuration.
    Kept,
    /// A resource-affecting field changed: the caller must run a reload.
    ReloadRequired,
}

/// The owner of the current configuration, read under the same lock that
/// serializes resource transitions.
pub struct ConfigStore {
    pub config: AppConfig,
}

impl ConfigStore {
    /// A store holding `initial`.
    pub fn new(initial: AppConfig) -> (r: ConfigStore)
        ensures
            r.config@ == initial@,
    {
        ConfigStore { config: initial }
    }

    /// A snapshot of the current configuration.  A work item keeps reading
    /// the copy it took here even if the store changes afterwards.
    pub fn get_config(&self) -> (r: AppConfig)
        ensures
            r@ == self.config@,
    {
        clone_config(&self.config)
    }

    /// Installs `new_cfg` and says whether the resource must be rebuilt:
    /// exactly when a resource-affecting field differs from the old value.
    pub fn set_config(&mut self, new_cfg: AppConfig) -> (r: SetOutcome)
        ensures
            final (self).config@ == new_cfg@,
            (r is ReloadRequired) == spec_needs_reload(old(self).config@, new_cfg@),
    {
        let reload = needs_reload(&self.config, &new_cfg);
        self.config = new_cfg;
        if reload {
            SetOutcome::ReloadRequired
        } else {
            SetOutcome::Kept
        }
    }
}

/// An absolute path stays as it is; a relative one is resolved under
/// `base_dir`.
pub open spec fn spec_resolve_path(
    path: Seq<char>,
    base_dir: Seq<char>,
    platform: Platform,
) -> Seq<char> {
    if spec_is_absolute(path, platform) {
        path
    } else {
        spec_join_path(base_dir, path, platform)
    }
}

/// Whether `path` is absolute under `platform`'s conventions: a leading `/`
/// on Unix; a drive such as `C:\` or `C:/`, or a UNC prefix `\\`, on
/// Windows.
pub open spec fn spec_is_absolute(path: Seq<char>, platform: Platform) -> bool {
    match platform {
        Platform::Unix => path.len() >= 1 && path[0] == '/',
        Platform::Windows => (path.len() >= 3 && path[1] == ':' && (path[2] == '\\' || path[2]
            == '/')) || (path.len() >= 2 && path[0] == '\\' && path[1] == '\\'),
    }
}

/// `dir` and `name` joined with the platform's separator; a separator
/// already ending `dir` is not doubled.
pub open spec fn spec_join_path(dir: Seq<char>, name: Seq<char>, platform: Platform) -> Seq<char> {
    let sep = match platform {
        Platform::Unix => '/',
        Platform::Windows => '\\',
    };
    if dir.len() > 0 && (dir.last() == '/' || dir.last() == '\\') {
        dir + name
    } else {
        dir + seq![sep] + name
    }
}

/// Joins `dir` and `name` exactly as [`spec_join_path`] describes.
pub fn join_path(dir: &str, name: &str, platform: Platform) -> (r: String)
    ensures
        r@ == spec_join_path(dir@, name@, platform),
{
    let sep = match platform {
        Platform::Unix => '/',
        Platform::Windows => '\\',
    };
    let dlen = dir.unicode_len();
    let mut r = String::from_str(dir);
    if !(dlen > 0 && (dir.get_char(dlen - 1) == '/' || dir.get_char(dlen - 1) == '\\')) {
        crate::text::push_char(&mut r, sep);
    }
    r.append(name);
    r
}

/// Resolves `path` against `base_dir` exactly as [`spec_resolve_path`]
/// describes: an absolute path is kept, a relative one lands under
/// `base_dir`.
pub fn resolve_model_path(path: &str, base_dir: &str, platform: Platform) -> (r: String)
    ensures
        r@ == spec_resolve_path(path@, base_dir@, platform),
{
    let len = path.unicode_len();
    let absolute = match platform {
        Platform::Unix => len >= 1 && path.get_char(0) == '/',
        Platform::Windows => (len >= 3 && path.get_char(1) == ':' && (path.get_char(2) == '\\'
            || path.get_char(2) == '/')) || (len >= 2 && path.get_char(0) == '\\' && path.get_char(
            1,
        ) == '\\'),
    };
    if absolute {
        String::from_str(path)
    } else {
        join_path(base_dir, path, platform)
    }
}

} // verus!
