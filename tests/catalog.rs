use aria_desktop::catalog::{default_models, local_models, model_from_entry, model_manifest, models_from_api};
use aria_desktop::proxy::{queued_status, response_text};
use aria_desktop::types::ModelEntry;

#[test]
fn api_listing_maps_entries() {
    let e = ModelEntry {
        id: Some("m1".to_string()),
        ready: Some(true),
        display_name: Some("M1".to_string()),
        params: Some("1B".to_string()),
        quantization: Some("1.58".to_string()),
    };
    let ms = models_from_api(&Some(vec![e]));
    assert_eq!(ms.len(), 1);
    assert!(ms[0].downloaded);
    assert!(ms[0].description.contains("1.58"));
    assert_eq!(ms[0].description, "m1 — 1.58 quantization");
    assert_eq!(ms[0].name, "M1");
    assert_eq!(ms[0].params, "1B");
    assert_eq!(ms[0].size, "1B params");
}

#[test]
fn api_entry_defaults() {
    let e = ModelEntry { id: None, ready: None, display_name: None, params: None, quantization: None };
    let m = model_from_entry(&e);
    assert_eq!(m.name, "unknown");
    assert_eq!(m.params, "?");
    assert_eq!(m.size, "? params");
    assert!(!m.downloaded);
    assert_eq!(m.description, "unknown — 1.58-bit quantization");
    let e = ModelEntry { id: Some("abc".to_string()), ready: Some(false), display_name: None, params: None, quantization: None };
    assert_eq!(model_from_entry(&e).name, "abc");
}

#[test]
fn api_without_data_gives_defaults() {
    let ms = models_from_api(&None);
    assert_eq!(ms.len(), 3);
    assert_eq!(ms[0].name, "BitNet-b1.58-large");
    assert!(models_from_api(&Some(vec![])).is_empty());
}

#[test]
fn default_catalog_entries() {
    let ms = default_models();
    assert_eq!(ms.len(), 3);
    assert_eq!(ms[1].name, "BitNet-b1.58-2B-4T");
    assert_eq!(ms[1].params, "2.4B");
    assert_eq!(ms[1].size, "1.3 GB");
    assert_eq!(ms[2].description, "Most capable model, requires more RAM");
    assert!(ms.iter().all(|m| !m.downloaded));
}

#[test]
fn local_catalog_follows_files() {
    let ms = local_models(&vec![true, false]);
    assert_eq!(ms.len(), 3);
    assert!(ms[0].downloaded);
    assert!(!ms[1].downloaded);
    assert!(!ms[2].downloaded);
    assert_eq!(ms[2].name, "Llama3-8B-1.58");
    assert_eq!(ms[2].size, "4.2 GB");
    assert_eq!(ms[0].description, "BitNet-b1.58-large — 1.58-bit quantization");
    let files = model_manifest();
    assert_eq!(files[2].path, "Llama3-8B-1.58-100B-tokens/ggml-model-i2_s.gguf");
}

#[test]
fn proxy_defaults() {
    assert_eq!(response_text(&None), "No response");
    assert_eq!(response_text(&Some("hi".to_string())), "hi");
    assert_eq!(queued_status(), "queued");
}
