//! The models this application manages for the native runtime.
use crate::registry::path_exists;
use crate::text::{ascii_lowercase, join, join_path, lower, str_eq};
use vstd::prelude::*;

verus! {

/// A model the application can install and select by version.
#[derive(Debug, Clone, Copy, PartialEq, Eq)]
pub struct ManagedModelDef {
    pub id: &'static str,
    pub model_version: &'static str,
    pub folder_name: &'static str,
    pub display_name: &'static str,
    pub description: &'static str,
    pub size_hint: &'static str,
    pub recommended_for: &'static str,
}

/// The v3 model.
pub fn model_v3() -> (r: ManagedModelDef)
    ensures
        r.model_version@ == "v3"@,
        r.folder_name@ == "parakeet-tdt-0.6b-v3-coreml"@,
        r.id@ == "parakeet-tdt-0.6b-v3-coreml"@,
{
    ManagedModelDef {
        id: "parakeet-tdt-0.6b-v3-coreml",
        model_version: "v3",
        folder_name: "parakeet-tdt-0.6b-v3-coreml",
        display_name: "Parakeet TDT v3",
        description: "Multilingual model (English + 25 European languages).",
        size_hint: "Large (~0.6B params)",
        recommended_for: "Best overall accuracy",
    }
}

/// The v2 model.
pub fn model_v2() -> (r: ManagedModelDef)
    ensures
        r.model_version@ == "v2"@,
        r.folder_name@ == "parakeet-tdt-0.6b-v2-coreml"@,
        r.id@ == "parakeet-tdt-0.6b-v2-coreml"@,
{
    ManagedModelDef {
        id: "parakeet-tdt-0.6b-v2-coreml",
        model_version: "v2",
        folder_name: "parakeet-tdt-0.6b-v2-coreml",
        display_name: "Parakeet TDT v2",
        description: "English-focused model with strong recall.",
        size_hint: "Large (~0.6B params)",
        recommended_for: "English-heavy workflows",
    }
}

/// The managed models, newest first.
pub fn managed_models() -> (r: Vec<ManagedModelDef>)
    ensures
        r@.len() == 2,
        r@[0].model_version@ == "v3"@,
        r@[0].folder_name@ == "parakeet-tdt-0.6b-v3-coreml"@,
        r@[1].model_version@ == "v2"@,
        r@[1].folder_name@ == "parakeet-tdt-0.6b-v2-coreml"@,
{
    let mut models: Vec<ManagedModelDef> = Vec::new();
    models.push(model_v3());
    models.push(model_v2());
    models
}

/// The managed model of a version, named in any case, or why there is none.
pub fn model_by_version(model_version: &str) -> (r: Result<ManagedModelDef, String>)
    ensures
        lower(model_version@) == "v3"@ ==> (r is Ok && r->Ok_0.model_version@ == "v3"@),
        lower(model_version@) == "v2"@ ==> (r is Ok && r->Ok_0.model_version@ == "v2"@),
        lower(model_version@) != "v3"@ && lower(model_version@) != "v2"@ ==> (r is Err
            && r->Err_0@ == "Unsupported model version: "@ + model_version@),
{
    let models = managed_models();
    let wanted = ascii_lowercase(model_version);
    let n = models.len();
    let mut i: usize = 0;
    while i < n
        invariant
            0 <= i <= n,
            n == models@.len(),
            n == 2,
            models@[0].model_version@ == "v3"@,
            models@[1].model_version@ == "v2"@,
            wanted@ == lower(model_version@),
            forall|k: int| 0 <= k < i ==> (#[trigger] models@[k]).model_version@ != wanted@,
        decreases n - i,
    {
        let def = models[i];
        if str_eq(wanted.as_str(), def.model_version) {
            return Ok(def);
        }
        i = i + 1;
    }
    let mut m = String::from_str("Unsupported model version: ");
    m.append(model_version);
    Err(m)
}

/// The directory of a managed model under the models root.
pub fn model_dir_for(def: ManagedModelDef, models_root: &str) -> (r: String)
    ensures
        r@ == join_path(models_root@, def.folder_name@),
{
    join(models_root, def.folder_name)
}

/// The files a complete model directory holds.
pub fn required_model_files() -> (r: Vec<&'static str>)
    ensures
        r@.len() == 5,
        r@[0]@ == "Preprocessor.mlmodelc"@,
        r@[1]@ == "Encoder.mlmodelc"@,
        r@[2]@ == "Decoder.mlmodelc"@,
        r@[3]@ == "JointDecision.mlmodelc"@,
        r@[4]@ == "parakeet_vocab.json"@,
{
    let mut files: Vec<&'static str> = Vec::new();
    files.push("Preprocessor.mlmodelc");
    files.push("Encoder.mlmodelc");
    files.push("Decoder.mlmodelc");
    files.push("JointDecision.mlmodelc");
    files.push("parakeet_vocab.json");
    files
}

/// Whether every required file is present in a model directory; what is on
/// disk decides, so nothing is promised of the answer.
pub fn is_model_installed(model_dir: &str) -> bool {
    let required = required_model_files();
    let n = required.len();
    let mut i: usize = 0;
    while i < n
        invariant
            0 <= i <= n,
            n == required@.len(),
        decreases n - i,
    {
        if !path_exists(join(model_dir, required[i]).as_str()) {
            return false;
        }
        i = i + 1;
    }
    true
}

} // verus!
