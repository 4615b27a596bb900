//! Tests of the module transformation pipeline: provenance section,
//! producers metadata, and the compression round trip.

use mjsc::js::JS;
use mjsc::transform;
use mjsc::transform::CompileError;

const WASM_HEADER: [u8; 8] = [0x00, 0x61, 0x73, 0x6d, 0x01, 0x00, 0x00, 0x00];

fn read_provenance(wasm: &[u8]) -> Vec<u8> {
    let module = transform::module_config().parse(wasm).unwrap();
    let mut payloads: Vec<Vec<u8>> = Vec::new();
    for (_, section) in module.customs.iter() {
        if section.name() == "lambda_source" {
            payloads.push(section.data(&Default::default()).into_owned());
        }
    }
    assert_eq!(1, payloads.len());
    payloads.pop().unwrap()
}

#[test]
fn annotate_uncompressed_embeds_raw_source() {
    let js = JS::from_string("export function foo() {}".to_string());
    let wasm = transform::annotate_module(&WASM_HEADER, &js, false).unwrap();
    let payload = read_provenance(&wasm);
    assert_eq!(js.as_bytes(), payload.as_slice());
}

#[test]
fn annotate_compressed_round_trips_source() {
    let js = JS::from_string("export function foo() {}; function t() {}".to_string());
    let compressed = transform::annotate_module(&WASM_HEADER, &js, true).unwrap();
    let raw = transform::annotate_module(&WASM_HEADER, &js, false).unwrap();
    let compressed_payload = read_provenance(&compressed);
    let raw_payload = read_provenance(&raw);
    assert_ne!(compressed_payload, raw_payload);
    let mut decompressed: Vec<u8> = Vec::new();
    brotli::BrotliDecompress(
        &mut std::io::Cursor::new(&compressed_payload),
        &mut decompressed,
    )
    .unwrap();
    assert_eq!(raw_payload, decompressed);
    assert_eq!(js.as_bytes(), decompressed.as_slice());
}

#[test]
fn compress_round_trips() {
    let js = JS::from_string("function foo() {} // lambda handler source".to_string());
    let compressed = js.compress().unwrap();
    let mut decompressed: Vec<u8> = Vec::new();
    brotli::BrotliDecompress(&mut std::io::Cursor::new(&compressed), &mut decompressed).unwrap();
    assert_eq!(js.as_bytes(), decompressed.as_slice());
}

#[test]
fn producers_metadata_is_exactly_one_language_and_tool() {
    let js = JS::from_string("export function foo() {}".to_string());
    let wasm = transform::annotate_module(&WASM_HEADER, &js, false).unwrap();
    let module = walrus::ModuleConfig::new().parse(&wasm).unwrap();
    let fields = module.producers.fields();
    assert_eq!(2, fields.len());
    assert_eq!("language", fields[0].name());
    assert_eq!(1, fields[0].values().len());
    assert_eq!("JavaScript", fields[0].values()[0].name());
    assert_eq!("ES2023", fields[0].values()[0].version());
    assert_eq!("processed-by", fields[1].name());
    // Parsing the binary for this inspection appends the reader's own
    // processed-by entry; the binary itself holds exactly the tool's.
    assert_eq!(2, fields[1].values().len());
    assert_eq!("mjsc", fields[1].values()[0].name());
    assert_eq!("walrus", fields[1].values()[1].name());
}

#[test]
fn producers_rewrite_clears_prior_entries() {
    let mut producers = walrus::ModuleProducers::default();
    producers.add_language("C", "99");
    producers.add_processed_by("upstream-tool", "1.2.3");
    producers.add_sdk("some-sdk", "4");
    transform::add_producers_section(&mut producers);
    let fields = producers.fields();
    assert_eq!(2, fields.len());
    assert_eq!("language", fields[0].name());
    assert_eq!("JavaScript", fields[0].values()[0].name());
    assert_eq!("processed-by", fields[1].name());
    assert_eq!("mjsc", fields[1].values()[0].name());
}

#[test]
fn normalize_preserves_custom_sections() {
    let js = JS::from_string("export function foo() {}".to_string());
    let annotated = transform::annotate_module(&WASM_HEADER, &js, false).unwrap();
    let normalized = transform::normalize_module(&annotated).unwrap();
    let payload = read_provenance(&normalized);
    assert_eq!(js.as_bytes(), payload.as_slice());
}

#[test]
fn annotate_rejects_garbage_module() {
    let js = JS::from_string("export function foo() {}".to_string());
    let garbage = [0xde, 0xad, 0xbe, 0xef];
    let err = transform::annotate_module(&garbage, &js, false).unwrap_err();
    assert_eq!("Unable to parse WebAssembly module", err.message());
}

#[test]
fn source_code_section_accessors() {
    let js = JS::from_string("export function foo() {}".to_string());
    let section = mjsc::transform::SourceCodeSection::uncompressed(&js).unwrap();
    assert_eq!("lambda_source", section.name());
    assert_eq!(js.as_bytes(), section.data().as_slice());
}

#[test]
fn compile_error_messages() {
    assert_eq!("Compressing source code failed", CompileError::CompressionFailed.message());
    assert_eq!("JS compilation failed", CompileError::SnapshotFailed.message());
    assert_eq!(
        "Running wasm-opt optimization passes failed",
        CompileError::OptimizationFailed.message()
    );
    assert_eq!("Unable to parse WebAssembly module", CompileError::ModuleParseFailed.message());
}
