use omni_tagger::config::{needs_reload, resolve_model_path, AppConfig, ConfigStore, SetOutcome};
use omni_tagger::Platform;

#[test]
fn default_configuration_values() {
    let c = AppConfig::default();
    assert_eq!(c.model_path, "models/model.onnx");
    assert_eq!(c.tags_path, "models/tags.csv");
    assert_eq!(c.threshold_permille, 350);
    assert!(!c.use_underscore);
    assert!(c.exclusion_list.is_empty());
}

#[test]
fn reload_needed_exactly_when_a_resource_path_changes() {
    let base = AppConfig::default();
    let same = AppConfig::default();
    assert!(!needs_reload(&base, &same));

    let mut new_model = AppConfig::default();
    new_model.model_path = "models/convnext.onnx".to_string();
    assert!(needs_reload(&base, &new_model));

    let mut new_tags = AppConfig::default();
    new_tags.tags_path = "elsewhere/tags.csv".to_string();
    assert!(needs_reload(&base, &new_tags));

    let mut cosmetic = AppConfig::default();
    cosmetic.threshold_permille = 500;
    cosmetic.use_underscore = true;
    cosmetic.exclusion_list.push("solo".to_string());
    assert!(!needs_reload(&base, &cosmetic));
}

#[test]
fn set_config_reports_when_a_reload_is_due() {
    let mut store = ConfigStore::new(AppConfig::default());
    let mut cosmetic = AppConfig::default();
    cosmetic.threshold_permille = 400;
    assert!(matches!(store.set_config(cosmetic), SetOutcome::Kept));

    let mut new_model = AppConfig::default();
    new_model.model_path = "/abs/other.onnx".to_string();
    assert!(matches!(store.set_config(new_model), SetOutcome::ReloadRequired));
    assert_eq!(store.get_config().model_path, "/abs/other.onnx");
}

#[test]
fn snapshots_are_unaffected_by_later_updates() {
    // Snapshot semantics: a work item keeps the configuration it captured,
    // whatever the store does afterwards.
    let mut store = ConfigStore::new(AppConfig::default());
    let snapshot = store.get_config();
    let mut updated = AppConfig::default();
    updated.use_underscore = true;
    updated.model_path = "/elsewhere.onnx".to_string();
    store.set_config(updated);
    assert_eq!(snapshot.model_path, "models/model.onnx");
    assert!(!snapshot.use_underscore);
}

#[test]
fn absolute_paths_resolve_to_themselves() {
    assert_eq!(
        resolve_model_path("/abs/model.onnx", "/data/app", Platform::Unix),
        "/abs/model.onnx"
    );
    assert_eq!(
        resolve_model_path("C:\\abs\\model.onnx", "C:\\data", Platform::Windows),
        "C:\\abs\\model.onnx"
    );
    assert_eq!(
        resolve_model_path("\\\\server\\share", "C:\\data", Platform::Windows),
        "\\\\server\\share"
    );
}

#[test]
fn relative_paths_resolve_under_the_base_directory() {
    assert_eq!(
        resolve_model_path("models/model.onnx", "/data/app", Platform::Unix),
        "/data/app/models/model.onnx"
    );
    assert_eq!(
        resolve_model_path("models/model.onnx", "/data/app/", Platform::Unix),
        "/data/app/models/model.onnx"
    );
    assert_eq!(
        resolve_model_path("m.onnx", "C:\\data", Platform::Windows),
        "C:\\data\\m.onnx"
    );
}
