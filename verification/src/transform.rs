//! WebAssembly module transformation: source-provenance custom section and
//! producers metadata.
//!
//! A compiled module carries a custom section named `lambda_source` holding
//! the raw or brotli-compressed source bytes, and a producers section naming
//! exactly one language (`JavaScript`/`ES2023`) and one processing tool.
//!
//! The module binary itself is handled by the walrus codec, which is trusted
//! only for what its documented operations do to custom sections and
//! producers entries; everything assembled on top of those operations is
//! verified.
use vstd::prelude::*;

verus! {

use crate::js::JS;
use crate::js::brotli_of;
use crate::js::brotli_ok;
use crate::js::unbrotli_of;
use vstd::slice::slice_to_vec;
use vstd::utf8::encode_utf8;

/// Why a compilation pipeline stage failed.
#[derive(Clone, Copy, Debug, PartialEq, Eq, Structural)]
pub enum CompileError {
    /// Compressing the source bytes failed.
    CompressionFailed,
    /// The ahead-of-time snapshot of the interpreter module failed.
    SnapshotFailed,
    /// The binary optimization pass failed.
    OptimizationFailed,
    /// The module binary could not be parsed.
    ModuleParseFailed,
}

impl CompileError {
    /// The stable message for this error kind.
    pub fn message(&self) -> (r: &'static str)
        ensures
            *self == CompileError::CompressionFailed ==> r@ == "Compressing source code failed"@,
            *self == CompileError::SnapshotFailed ==> r@ == "JS compilation failed"@,
            *self == CompileError::OptimizationFailed ==> r@
                == "Running wasm-opt optimization passes failed"@,
            *self == CompileError::ModuleParseFailed ==> r@
                == "Unable to parse WebAssembly module"@,
    {
        match self {
            CompileError::CompressionFailed => "Compressing source code failed",
            CompileError::SnapshotFailed => "JS compilation failed",
            CompileError::OptimizationFailed => "Running wasm-opt optimization passes failed",
            CompileError::ModuleParseFailed => "Unable to parse WebAssembly module",
        }
    }
}

#[verifier::external_type_specification]
#[verifier::external_body]
pub struct ExModule(walrus::Module);

#[verifier::external_type_specification]
#[verifier::external_body]
pub struct ExModuleConfig(walrus::ModuleConfig);

#[verifier::external_type_specification]
#[verifier::external_body]
pub struct ExModuleProducers(walrus::ModuleProducers);

/// The custom sections of a WebAssembly binary, in order, excluding the
/// debug-name section, the producers section and the DWARF (`.debug*`)
/// sections, which the codec intercepts separately: pairs of section name
/// and payload.
pub uninterp spec fn customs_in(b: Seq<u8>) -> Seq<(Seq<char>, Seq<u8>)>;

/// The language entries of a WebAssembly binary's producers section, in
/// order: pairs of language name and version.
pub uninterp spec fn languages_in(b: Seq<u8>) -> Seq<(Seq<char>, Seq<char>)>;

/// The processed-by entries of a WebAssembly binary's producers section, in
/// order: pairs of tool name and version.
pub uninterp spec fn processors_in(b: Seq<u8>) -> Seq<(Seq<char>, Seq<char>)>;

/// The custom sections a parsed walrus module holds, excluding debug names
/// and producers.
pub uninterp spec fn module_customs(m: walrus::Module) -> Seq<(Seq<char>, Seq<u8>)>;

/// The language entries of a parsed walrus module's producers section.
pub uninterp spec fn module_languages(m: walrus::Module) -> Seq<(Seq<char>, Seq<char>)>;

/// The processed-by entries of a parsed walrus module's producers section.
pub uninterp spec fn module_processors(m: walrus::Module) -> Seq<(Seq<char>, Seq<char>)>;

/// The language entries of a standalone producers section.
pub uninterp spec fn languages_of(p: walrus::ModuleProducers) -> Seq<(Seq<char>, Seq<char>)>;

/// The processed-by entries of a standalone producers section.
pub uninterp spec fn processors_of(p: walrus::ModuleProducers) -> Seq<(Seq<char>, Seq<char>)>;

/// Whether walrus parses this binary under the library's configuration; the
/// result depends on the bytes alone.
pub uninterp spec fn wasm_parses(b: Seq<u8>) -> bool;

/// Whether a WebAssembly binary contains a debug-name custom section.
pub uninterp spec fn has_name_section(b: Seq<u8>) -> bool;

/// Whether a parsed module's embedded configuration skips the debug-name
/// section and emits the producers section, as the library's configuration
/// does.
pub uninterp spec fn module_config_standard(m: walrus::Module) -> bool;

/// A custom-section name without special meaning to the codec: not the
/// debug-name, producers, dynamic-linking or DWARF section names.
pub open spec fn is_plain_custom_name(n: Seq<char>) -> bool {
    n != "name"@ && n != "producers"@ && n != "dylink"@ && n != "dylink.0"@ && !(n.len() >= 6
        && n.subrange(0, 6) == ".debug"@)
}

/// Whether every section of a custom-section list carries a plain name.
pub open spec fn plain_customs(cs: Seq<(Seq<char>, Seq<u8>)>) -> bool {
    forall|k: int| 0 <= k < cs.len() ==> is_plain_custom_name((#[trigger] cs[k]).0)
}

/// A producers entry list without the codec's own processed-by entries.
pub open spec fn without_tool(ps: Seq<(Seq<char>, Seq<char>)>) -> Seq<(Seq<char>, Seq<char>)> {
    ps.filter(|e: (Seq<char>, Seq<char>)| e.0 != "walrus"@)
}

/// Whether a parse/serialize configuration has debug-name generation
/// disabled and producers emission enabled, as the library's configuration
/// has.  Modules parsed under such a configuration satisfy
/// [`module_config_standard`], through which the emit contract states that
/// re-emitted binaries carry no debug-name section.
pub uninterp spec fn config_standard(c: walrus::ModuleConfig) -> bool;

/// Relies on walrus's `ModuleConfig`: a parse/serialize configuration with
/// generation of the debug-name section disabled.
#[verifier::external_body]
pub fn module_config() -> (r: walrus::ModuleConfig)
    ensures
        config_standard(r),
{
    let mut config = walrus::ModuleConfig::new();
    config.generate_name_section(false);
    config
}

/// Relies on walrus's `ModuleConfig::parse` under the library's fixed
/// configuration.  Success depends on the bytes alone.  A parsed module
/// stores the binary's custom sections (debug names, DWARF data and
/// producers are intercepted separately) and its producers entries; of the
/// processed-by entries the codec replaces in place the first entry named
/// `walrus`, or records one when the binary had no processed-by entry at
/// all, so the entries under other names survive unchanged and in order.
#[verifier::external_body]
fn parse_module(wasm: &[u8]) -> (r: Option<walrus::Module>)
    ensures
        r is Some <==> wasm_parses(wasm@),
        r matches Some(m) ==> module_customs(m) == customs_in(wasm@) && module_languages(m)
            == languages_in(wasm@) && without_tool(module_processors(m)) == without_tool(
            processors_in(wasm@),
        ) && (processors_in(wasm@) == Seq::<(Seq<char>, Seq<char>)>::empty() ==> (
        exists|v: Seq<char>| module_processors(m) == seq![("walrus"@, v)]))
            && module_config_standard(m),
{
    let mut config = walrus::ModuleConfig::new();
    config.generate_name_section(false);
    config.parse(wasm).ok()
}

/// Relies on walrus's `Module::emit_wasm`.  When every custom section of the
/// module carries a plain name, the emitted binary carries exactly those
/// sections in order (sections with special names are reordered or dropped
/// by the codec), and under the library's configuration it carries no
/// debug-name section and exactly the module's producers entries.
#[verifier::external_body]
fn emit_module(m: &mut walrus::Module) -> (r: Vec<u8>)
    ensures
        plain_customs(module_customs(*old(m))) ==> customs_in(r@) == module_customs(*old(m)),
        plain_customs(module_customs(*old(m))) && module_config_standard(*old(m)) ==> (
        !has_name_section(r@) && languages_in(r@) == module_languages(*old(m)) && processors_in(r@)
            == module_processors(*old(m))),
{
    m.emit_wasm()
}

/// Relies on walrus's `ModuleCustomSections::add`: appends a raw custom
/// section with the given name and payload.
#[verifier::external_body]
fn attach_custom(m: &mut walrus::Module, name: &str, data: &Vec<u8>)
    ensures
        module_customs(*final(m)) == module_customs(*old(m)).push((name@, data@)),
        module_languages(*final(m)) == module_languages(*old(m)),
        module_processors(*final(m)) == module_processors(*old(m)),
        module_config_standard(*final(m)) == module_config_standard(*old(m)),
{
    m.customs.add(walrus::RawCustomSection { name: name.to_string(), data: data.clone() });
}

/// Relies on std's `mem::take`: moves the module's producers section out,
/// leaving an empty one behind.
#[verifier::external_body]
fn take_producers(m: &mut walrus::Module) -> (r: walrus::ModuleProducers)
    ensures
        languages_of(r) == module_languages(*old(m)),
        processors_of(r) == module_processors(*old(m)),
        module_customs(*final(m)) == module_customs(*old(m)),
        module_config_standard(*final(m)) == module_config_standard(*old(m)),
{
    std::mem::take(&mut m.producers)
}

/// Relies on assignment to walrus's public `producers` field: the module's
/// producers section becomes exactly `p`.
#[verifier::external_body]
fn put_producers(m: &mut walrus::Module, p: walrus::ModuleProducers)
    ensures
        module_languages(*final(m)) == languages_of(p),
        module_processors(*final(m)) == processors_of(p),
        module_customs(*final(m)) == module_customs(*old(m)),
        module_config_standard(*final(m)) == module_config_standard(*old(m)),
{
    m.producers = p;
}

/// Relies on walrus's `ModuleProducers::clear`: removes every producers
/// entry.
#[verifier::external_body]
fn producers_clear(p: &mut walrus::ModuleProducers)
    ensures
        languages_of(*final(p)) == Seq::<(Seq<char>, Seq<char>)>::empty(),
        processors_of(*final(p)) == Seq::<(Seq<char>, Seq<char>)>::empty(),
{
    p.clear();
}

/// Relies on walrus's `ModuleProducers::add_language`: it records the entry
/// in the first language field, replacing in place a value with the same
/// name.  Where the entry lands among several language fields is the codec's
/// business, so the result is stated only for the empty starting state the
/// library rewrites from.
#[verifier::external_body]
fn producers_add_language(p: &mut walrus::ModuleProducers, language: &str, version: &str)
    ensures
        languages_of(*old(p)) == Seq::<(Seq<char>, Seq<char>)>::empty() ==> languages_of(
            *final(p),
        ) == seq![(language@, version@)],
        processors_of(*final(p)) == processors_of(*old(p)),
{
    p.add_language(language, version);
}

/// Relies on walrus's `ModuleProducers::add_processed_by`: it records the
/// entry in the first processed-by field, replacing in place a value with
/// the same name, so it is stated only for the empty starting state the
/// library rewrites from.
#[verifier::external_body]
fn producers_add_processed_by(p: &mut walrus::ModuleProducers, tool: &str, version: &str)
    ensures
        processors_of(*old(p)) == Seq::<(Seq<char>, Seq<char>)>::empty() ==> processors_of(
            *final(p),
        ) == seq![(tool@, version@)],
        languages_of(*final(p)) == languages_of(*old(p)),
{
    p.add_processed_by(tool, version);
}

/// Rewrites a producers section to hold exactly one language entry
/// (`JavaScript`/`ES2023`) and one processed-by entry for this tool; no
/// prior entry survives.
pub fn add_producers_section(producers: &mut walrus::ModuleProducers)
    ensures
        languages_of(*final(producers)) == seq![("JavaScript"@, "ES2023"@)],
        processors_of(*final(producers)) == seq![("mjsc"@, "0.1.0"@)],
{
    producers_clear(producers);
    producers_add_language(producers, "JavaScript", "ES2023");
    producers_add_processed_by(producers, "mjsc", "0.1.0");
    proof {
        assert(languages_of(*producers) =~= seq![("JavaScript"@, "ES2023"@)]);
        assert(processors_of(*producers) =~= seq![("mjsc"@, "0.1.0"@)]);
    }
}

/// The source-provenance custom section: the source bytes of one
/// compilation, raw or compressed.
pub struct SourceCodeSection {
    source_code: Vec<u8>,
}

impl View for SourceCodeSection {
    type V = Seq<u8>;

    closed spec fn view(&self) -> Seq<u8> {
        self.source_code@
    }
}

impl SourceCodeSection {
    /// A provenance section holding the brotli-compressed source bytes;
    /// decompressing the payload recovers the raw source bytes.  Succeeds
    /// exactly when the encoder accepts the bytes.
    pub fn compressed(js: &JS) -> (r: Result<SourceCodeSection, CompileError>)
        ensures
            match r {
                Ok(s) => brotli_ok(encode_utf8(js@)) && s@ == brotli_of(encode_utf8(js@))
                    && unbrotli_of(s@) == encode_utf8(js@),
                Err(e) => e == CompileError::CompressionFailed && !brotli_ok(encode_utf8(js@)),
            },
    {
        match js.compress() {
            Ok(c) => Ok(SourceCodeSection { source_code: c }),
            Err(e) => Err(e),
        }
    }

    /// A provenance section holding the raw source bytes.
    pub fn uncompressed(js: &JS) -> (r: Result<SourceCodeSection, CompileError>)
        ensures
            match r {
                Ok(s) => s@ == encode_utf8(js@),
                Err(_) => false,
            },
    {
        Ok(SourceCodeSection { source_code: slice_to_vec(js.as_bytes()) })
    }

    /// The name under which the section is attached.
    pub fn name(&self) -> (r: &'static str)
        ensures
            r@ == "lambda_source"@,
    {
        "lambda_source"
    }

    /// The section payload.
    pub fn data(&self) -> (r: &Vec<u8>)
        ensures
            r@ == self@,
    {
        &self.source_code
    }
}

/// Re-parses a module binary with debug-name generation disabled and
/// re-serializes it, normalizing it before binary optimization.  Custom
/// sections and language entries are preserved; the codec appends its own
/// processed-by entry.
pub fn normalize_module(wasm: &[u8]) -> (r: Result<Vec<u8>, CompileError>)
    ensures
        match r {
            Ok(out) => wasm_parses(wasm@) && (plain_customs(customs_in(wasm@)) ==> (customs_in(out@)
                == customs_in(wasm@) && !has_name_section(out@) && languages_in(out@)
                == languages_in(wasm@) && without_tool(processors_in(out@)) == without_tool(
                processors_in(wasm@),
            ) && (processors_in(wasm@) == Seq::<(Seq<char>, Seq<char>)>::empty() ==> (
            exists|v: Seq<char>| processors_in(out@) == seq![("walrus"@, v)])))),
            Err(e) => e == CompileError::ModuleParseFailed && !wasm_parses(wasm@),
        },
{
    match parse_module(wasm) {
        None => Err(CompileError::ModuleParseFailed),
        Some(mut m) => Ok(emit_module(&mut m)),
    }
}

/// The payload the source-provenance section carries for a source, raw or
/// compressed.
pub open spec fn provenance_payload(text: Seq<char>, compress_source: bool) -> Seq<u8> {
    if compress_source {
        brotli_of(encode_utf8(text))
    } else {
        encode_utf8(text)
    }
}

/// Attaches the source-provenance section (raw or compressed, as requested)
/// and rewrites the producers metadata to exactly one language entry and one
/// processed-by entry.  Succeeds exactly when the binary parses and, if
/// compression was requested, the encoder accepts the source bytes; for a
/// binary whose custom sections all carry plain names, the output carries
/// the input's sections plus the provenance section, and no debug-name
/// section.  The plain-names premise holds of every binary this pipeline
/// hands in — the optimizer strips rather than adds custom sections — but
/// only the callers can know it of an arbitrary input.
pub fn annotate_module(wasm: &[u8], js: &JS, compress_source: bool) -> (r: Result<
    Vec<u8>,
    CompileError,
>)
    ensures
        match r {
            Ok(out) => wasm_parses(wasm@) && (compress_source ==> brotli_ok(encode_utf8(js@))
                && unbrotli_of(provenance_payload(js@, true)) == encode_utf8(js@)) && (plain_customs(
                customs_in(wasm@),
            ) ==> (customs_in(out@) == customs_in(wasm@).push(
                ("lambda_source"@, provenance_payload(js@, compress_source)),
            ) && languages_in(out@) == seq![("JavaScript"@, "ES2023"@)] && processors_in(out@)
                == seq![("mjsc"@, "0.1.0"@)] && !has_name_section(out@))),
            Err(e) => (compress_source && !brotli_ok(encode_utf8(js@)) && e
                == CompileError::CompressionFailed) || ((!compress_source || brotli_ok(
                encode_utf8(js@),
            )) && !wasm_parses(wasm@) && e == CompileError::ModuleParseFailed),
        },
{
    let section = if compress_source {
        SourceCodeSection::compressed(js)
    } else {
        SourceCodeSection::uncompressed(js)
    };
    match section {
        Err(e) => Err(e),
        Ok(sec) => match parse_module(wasm) {
            None => Err(CompileError::ModuleParseFailed),
            Some(mut m) => {
                attach_custom(&mut m, sec.name(), sec.data());
                proof {
                    lemma_lambda_source_is_plain();
                    if plain_customs(customs_in(wasm@)) {
                        assert forall|k: int|
                            0 <= k < module_customs(m).len() implies is_plain_custom_name(
                            (#[trigger] module_customs(m)[k]).0,
                        ) by {
                            if k < customs_in(wasm@).len() {
                                assert(module_customs(m)[k] == customs_in(wasm@)[k]);
                            } else {
                                assert(module_customs(m)[k].0 == "lambda_source"@);
                            }
                        }
                    }
                }
                let mut p = take_producers(&mut m);
                add_producers_section(&mut p);
                put_producers(&mut m, p);
                Ok(emit_module(&mut m))
            },
        },
    }
}

/// The provenance section's name has no special meaning to the codec.
proof fn lemma_lambda_source_is_plain()
    ensures
        is_plain_custom_name("lambda_source"@),
{
    reveal_strlit("lambda_source");
    reveal_strlit("name");
    reveal_strlit("producers");
    reveal_strlit("dylink");
    reveal_strlit("dylink.0");
    reveal_strlit(".debug");
    assert("lambda_source"@.len() == 13);
    assert("lambda_source"@.subrange(0, 6)[0] == 'l');
    assert(".debug"@[0] == '.');
}

} // verus!
