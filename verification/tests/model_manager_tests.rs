use omni_tagger::model_manager::{get_model_url, plan_downloads, PlanError};

const SWINV2_MODEL_URL: &str =
    "https://huggingface.co/SmilingWolf/wd-v1-4-swinv2-tagger-v2/resolve/main/model.onnx";
const CONVNEXT_MODEL_URL: &str =
    "https://huggingface.co/SmilingWolf/wd-v1-4-convnext-tagger-v2/resolve/main/model.onnx";
const CONVNEXTV2_MODEL_URL: &str =
    "https://huggingface.co/SmilingWolf/wd-v1-4-convnextv2-tagger-v2/resolve/main/model.onnx";
const TAGS_URL: &str =
    "https://huggingface.co/SmilingWolf/wd-v1-4-swinv2-tagger-v2/resolve/main/selected_tags.csv";

#[test]
fn test_get_model_url() {
    assert_eq!(get_model_url("models/model.onnx"), Some(SWINV2_MODEL_URL));
    assert_eq!(
        get_model_url("/abs/path/to/convnext.onnx"),
        Some(CONVNEXT_MODEL_URL)
    );
    assert_eq!(get_model_url("convnextv2.onnx"), Some(CONVNEXTV2_MODEL_URL));
    assert_eq!(get_model_url("custom_model.onnx"), None);
    assert_eq!(get_model_url("some/other/file.txt"), None);
}

#[test]
fn nothing_to_download_when_both_files_exist() {
    let plan = plan_downloads("models/model.onnx", "models/tags.csv", true, true).unwrap();
    assert!(plan.is_empty());
}

#[test]
fn missing_known_model_is_planned() {
    let plan = plan_downloads("models/model.onnx", "models/tags.csv", false, true).unwrap();
    assert_eq!(plan.len(), 1);
    assert_eq!(plan[0].url, SWINV2_MODEL_URL);
    assert_eq!(plan[0].dest, "models/model.onnx");
}

#[test]
fn missing_tags_are_planned() {
    let plan = plan_downloads("models/model.onnx", "models/tags.csv", true, false).unwrap();
    assert_eq!(plan.len(), 1);
    assert_eq!(plan[0].url, TAGS_URL);
    assert_eq!(plan[0].dest, "models/tags.csv");
}

#[test]
fn both_missing_plans_model_then_tags() {
    let plan = plan_downloads("/m/convnextv2.onnx", "/m/tags.csv", false, false).unwrap();
    assert_eq!(plan.len(), 2);
    assert_eq!(plan[0].url, CONVNEXTV2_MODEL_URL);
    assert_eq!(plan[0].dest, "/m/convnextv2.onnx");
    assert_eq!(plan[1].url, TAGS_URL);
    assert_eq!(plan[1].dest, "/m/tags.csv");
}

#[test]
fn missing_unknown_model_cannot_be_planned() {
    match plan_downloads("/m/custom.onnx", "/m/tags.csv", false, false) {
        Err(PlanError::UnknownModel { model_path }) => {
            assert_eq!(model_path, "/m/custom.onnx");
        }
        _ => panic!("an unknown missing model must refuse the plan"),
    }
}
