//! The model catalog: the built-in default list, the local manifest checked
//! against the filesystem, and the mapping of the control API's listing.

use vstd::prelude::*;
use vstd::string::*;
use crate::text::join;
use crate::types::{ModelEntry, ModelInfo};

verus! {

pub struct ModelInfoView {
    pub name: Seq<char>,
    pub params: Seq<char>,
    pub size: Seq<char>,
    pub downloaded: bool,
    pub description: Seq<char>,
}

impl View for ModelInfo {
    type V = ModelInfoView;

    open spec fn view(&self) -> ModelInfoView {
        ModelInfoView {
            name: self.name@,
            params: self.params@,
            size: self.size@,
            downloaded: self.downloaded,
            description: self.description@,
        }
    }
}

/// A model that the backend can run, with the path of its weights below the
/// local model directory.
#[derive(Debug, Clone)]
pub struct ModelFile {
    pub name: String,
    pub params: String,
    pub size: String,
    pub path: String,
}

pub open spec fn info(
    name: Seq<char>,
    params: Seq<char>,
    size: Seq<char>,
    downloaded: bool,
    description: Seq<char>,
) -> ModelInfoView {
    ModelInfoView { name, params, size, downloaded, description }
}

/// The catalog shown when nothing better is known.
pub open spec fn default_catalog() -> Seq<ModelInfoView> {
    seq![
        info("BitNet-b1.58-large"@, "0.7B"@, "400 MB"@, false,
            "Fast, lightweight model for quick responses"@),
        info("BitNet-b1.58-2B-4T"@, "2.4B"@, "1.3 GB"@, false,
            "Best balance of speed and quality"@),
        info("Llama3-8B-1.58"@, "8.0B"@, "4.2 GB"@, false,
            "Most capable model, requires more RAM"@),
    ]
}

/// Name, parameter count, size and relative weight path of the known models.
pub open spec fn manifest_spec() -> Seq<(Seq<char>, Seq<char>, Seq<char>, Seq<char>)> {
    seq![
        ("BitNet-b1.58-large"@, "0.7B"@, "400 MB"@, "bitnet_b1_58-large/ggml-model-i2_s.gguf"@),
        ("BitNet-b1.58-2B-4T"@, "2.4B"@, "1.3 GB"@, "BitNet-b1.58-2B-4T/ggml-model-i2_s.gguf"@),
        ("Llama3-8B-1.58"@, "8.0B"@, "4.2 GB"@,
            "Llama3-8B-1.58-100B-tokens/ggml-model-i2_s.gguf"@),
    ]
}

/// The catalog entry of manifest model `i`, given whether its weights exist.
pub open spec fn local_entry(i: int, downloaded: bool) -> ModelInfoView {
    info(
        manifest_spec()[i].0,
        manifest_spec()[i].1,
        manifest_spec()[i].2,
        downloaded,
        manifest_spec()[i].0 + " — 1.58-bit quantization"@,
    )
}

pub open spec fn text_or(o: Option<String>, d: Seq<char>) -> Seq<char> {
    match o {
        Some(s) => s@,
        None => d,
    }
}

/// The catalog entry for one element of the control API's listing, each
/// absent field replaced by its default.
pub open spec fn entry_info(e: ModelEntry) -> ModelInfoView {
    let id = text_or(e.id, "unknown"@);
    let params = text_or(e.params, "?"@);
    info(
        text_or(e.display_name, id),
        params,
        params + " params"@,
        match e.ready {
            Some(b) => b,
            None => false,
        },
        id + " — "@ + text_or(e.quantization, "1.58-bit"@) + " quantization"@,
    )
}

fn entry(name: &str, params: &str, size: &str, description: &str) -> (r: ModelInfo)
    ensures
        r@ == info(name@, params@, size@, false, description@),
{
    ModelInfo {
        name: String::from_str(name),
        params: String::from_str(params),
        size: String::from_str(size),
        downloaded: false,
        description: String::from_str(description),
    }
}

/// The built-in catalog, every model marked not downloaded.
pub fn default_models() -> (r: Vec<ModelInfo>)
    ensures
        r@.len() == default_catalog().len(),
        forall|i: int| 0 <= i < r@.len() ==> #[trigger] r@[i]@ == default_catalog()[i],
{
    let mut r: Vec<ModelInfo> = Vec::new();
    r.push(entry("BitNet-b1.58-large", "0.7B", "400 MB",
        "Fast, lightweight model for quick responses"));
    r.push(entry("BitNet-b1.58-2B-4T", "2.4B", "1.3 GB", "Best balance of speed and quality"));
    r.push(entry("Llama3-8B-1.58", "8.0B", "4.2 GB", "Most capable model, requires more RAM"));
    r
}

fn manifest_file(name: &str, params: &str, size: &str, path: &str) -> (r: ModelFile)
    ensures
        r.name@ == name@,
        r.params@ == params@,
        r.size@ == size@,
        r.path@ == path@,
{
    ModelFile {
        name: String::from_str(name),
        params: String::from_str(params),
        size: String::from_str(size),
        path: String::from_str(path),
    }
}

/// The known models and where their weights lie below the model directory.
pub fn model_manifest() -> (r: Vec<ModelFile>)
    ensures
        r@.len() == manifest_spec().len(),
        forall|i: int|
            0 <= i < r@.len() ==> (#[trigger] r@[i]).name@ == manifest_spec()[i].0
                && r@[i].params@ == manifest_spec()[i].1 && r@[i].size@ == manifest_spec()[i].2
                && r@[i].path@ == manifest_spec()[i].3,
{
    let mut r: Vec<ModelFile> = Vec::new();
    r.push(manifest_file("BitNet-b1.58-large", "0.7B", "400 MB",
        "bitnet_b1_58-large/ggml-model-i2_s.gguf"));
    r.push(manifest_file("BitNet-b1.58-2B-4T", "2.4B", "1.3 GB",
        "BitNet-b1.58-2B-4T/ggml-model-i2_s.gguf"));
    r.push(manifest_file("Llama3-8B-1.58", "8.0B", "4.2 GB",
        "Llama3-8B-1.58-100B-tokens/ggml-model-i2_s.gguf"));
    r
}

/// The catalog built from the manifest, where `present[i]` tells whether the
/// weights of manifest model `i` exist; a missing flag counts as absent.
pub fn local_models(present: &Vec<bool>) -> (r: Vec<ModelInfo>)
    ensures
        r@.len() == manifest_spec().len(),
        forall|i: int|
            0 <= i < r@.len() ==> #[trigger] r@[i]@ == local_entry(
                i,
                i < present@.len() && present@[i],
            ),
{
    let files = model_manifest();
    let mut r: Vec<ModelInfo> = Vec::new();
    let mut i: usize = 0;
    while i < files.len()
        invariant
            i <= files@.len(),
            files@.len() == manifest_spec().len(),
            forall|k: int|
                0 <= k < files@.len() ==> (#[trigger] files@[k]).name@ == manifest_spec()[k].0
                    && files@[k].params@ == manifest_spec()[k].1 && files@[k].size@
                    == manifest_spec()[k].2,
            r@.len() == i,
            forall|k: int|
                0 <= k < i ==> #[trigger] r@[k]@ == local_entry(
                    k,
                    k < present@.len() && present@[k],
                ),
        decreases files@.len() - i,
    {
        let f = &files[i];
        let downloaded = i < present.len() && present[i];
        let m = ModelInfo {
            name: String::from_str(f.name.as_str()),
            params: String::from_str(f.params.as_str()),
            size: String::from_str(f.size.as_str()),
            downloaded,
            description: join(f.name.as_str(), " — 1.58-bit quantization"),
        };
        r.push(m);
        i = i + 1;
    }
    r
}

fn text_or_default(o: &Option<String>, d: &str) -> (r: String)
    ensures
        r@ == text_or(*o, d@),
{
    match o {
        Some(s) => String::from_str(s.as_str()),
        None => String::from_str(d),
    }
}

/// The catalog entry for one element of the control API's listing.
pub fn model_from_entry(e: &ModelEntry) -> (r: ModelInfo)
    ensures
        r@ == entry_info(*e),
{
    let id = text_or_default(&e.id, "unknown");
    let params = text_or_default(&e.params, "?");
    let name = text_or_default(&e.display_name, id.as_str());
    let size = join(params.as_str(), " params");
    let quant = text_or_default(&e.quantization, "1.58-bit");
    let description = join(id.as_str(), " — ").concat(quant.as_str()).concat(" quantization");
    let downloaded = match e.ready {
        Some(b) => b,
        None => false,
    };
    ModelInfo { name, params, size, downloaded, description }
}

/// The catalog from the control API's listing: one entry per element of its
/// `data` array, or the built-in catalog when the answer has no such array.
pub fn models_from_api(data: &Option<Vec<ModelEntry>>) -> (r: Vec<ModelInfo>)
    ensures
        data.is_none() ==> r@.len() == default_catalog().len() && forall|i: int|
            0 <= i < r@.len() ==> #[trigger] r@[i]@ == default_catalog()[i],
        data.is_some() ==> r@.len() == data->Some_0@.len() && forall|i: int|
            0 <= i < r@.len() ==> #[trigger] r@[i]@ == entry_info(data->Some_0@[i]),
{
    match data {
        None => default_models(),
        Some(v) => {
            let mut r: Vec<ModelInfo> = Vec::new();
            let mut i: usize = 0;
            while i < v.len()
                invariant
                    i <= v@.len(),
                    r@.len() == i,
                    forall|k: int| 0 <= k < i ==> #[trigger] r@[k]@ == entry_info(v@[k]),
                decreases v@.len() - i,
            {
                r.push(model_from_entry(&v[i]));
                i = i + 1;
            }
            r
        },
    }
}

} // verus!
