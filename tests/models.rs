use aura_worker::models::{is_model_installed, managed_models, model_by_version, model_dir_for};

#[test]
fn model_versions_are_found_in_any_case() {
    assert_eq!(model_by_version("V3").unwrap().folder_name, "parakeet-tdt-0.6b-v3-coreml");
    assert_eq!(model_by_version("v2").unwrap().display_name, "Parakeet TDT v2");
    assert_eq!(model_by_version("v4"), Err("Unsupported model version: v4".to_string()));
    assert_eq!(managed_models().len(), 2);
}

#[test]
fn model_directories_sit_under_the_root() {
    let def = model_by_version("v3").unwrap();
    assert_eq!(model_dir_for(def, "/models"), "/models/parakeet-tdt-0.6b-v3-coreml");
    assert!(!is_model_installed("/definitely/not/a/model/dir"));
}
