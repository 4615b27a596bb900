//! Higher-level representation of JavaScript source text.
//!
//! A [`JS`] value holds the immutable source of one compilation and offers
//! derived representations: the raw UTF-8 bytes, a compressed form of those
//! bytes, and the set of names the script exports.
use vstd::prelude::*;

verus! {

use crate::analysis;
use crate::analysis::AnalysisError;
use crate::transform::CompileError;
use vstd::string::StringSliceAdditionalSpecFns;
use vstd::string::StrSliceExecFns;
use vstd::utf8::encode_utf8;

/// The compressed form that the brotli encoder (quality 11, default
/// parameters otherwise) produces for a byte sequence.
pub uninterp spec fn brotli_of(b: Seq<u8>) -> Seq<u8>;

/// The byte sequence that brotli decompression recovers from a compressed
/// stream.
pub uninterp spec fn unbrotli_of(b: Seq<u8>) -> Seq<u8>;

/// Whether the brotli encoder succeeds on a byte sequence; with an in-memory
/// sink the outcome depends on the bytes alone.
pub uninterp spec fn brotli_ok(b: Seq<u8>) -> bool;

/// Immutable holder of the JavaScript source text of one compilation.
pub struct JS {
    source_code: String,
}

impl View for JS {
    type V = Seq<char>;

    closed spec fn view(&self) -> Seq<char> {
        self.source_code@
    }
}

impl JS {
    /// Wraps a source text.
    pub fn from_string(source_code: String) -> (r: JS)
        ensures
            r@ == source_code@,
    {
        JS { source_code }
    }

    /// The raw UTF-8 bytes of the source text.
    pub fn as_bytes(&self) -> (r: &[u8])
        ensures
            r@ == encode_utf8(self@),
    {
        self.source_code.as_str().as_bytes()
    }

    /// The brotli-compressed bytes of the source text.  Decompressing the
    /// result recovers exactly [`JS::as_bytes`].
    pub fn compress(&self) -> (r: Result<Vec<u8>, CompileError>)
        ensures
            match r {
                Ok(c) => brotli_ok(encode_utf8(self@)) && c@ == brotli_of(encode_utf8(self@))
                    && unbrotli_of(c@) == encode_utf8(self@),
                Err(e) => e == CompileError::CompressionFailed && !brotli_ok(encode_utf8(self@)),
            },
    {
        match brotli_compress(self.source_code.as_str().as_bytes()) {
            Some(c) => Ok(c),
            None => Err(CompileError::CompressionFailed),
        }
    }

    /// The ordered names this source exports, or the first violation found.
    /// The source must lie in the statement grammar that [`crate::analysis`]
    /// describes; a text outside that subset yields the invalid-syntax
    /// error.
    pub fn exports(&self) -> (r: Result<Vec<String>, AnalysisError>)
        ensures
            match r {
                Ok(v) => analysis::exports_spec(self@) == Ok::<_, AnalysisError>(v.deep_view()),
                Err(e) => analysis::exports_spec(self@) == Err::<Seq<Seq<char>>, _>(e),
            },
    {
        let chars = analysis::chars_vec(self.source_code.as_str());
        match analysis::p_program(&chars, 0) {
            None => Err(AnalysisError::InvalidSyntax),
            Some(ss) => match analysis::analyze_program(&ss) {
                Err(e) => Err(e),
                Ok(names) => {
                    let mut out: Vec<String> = Vec::new();
                    let mut i: usize = 0;
                    while i < names.len()
                        invariant
                            i <= names.len(),
                            out.deep_view() == names.deep_view().subrange(0, i as int),
                        decreases names.len() - i,
                    {
                        let nm = string_from_chars(&names[i]);
                        proof {
                            assert(nm@ =~= names.deep_view()[i as int]);
                        }
                        let ghost out0 = out.deep_view();
                        let ghost outv0 = out@;
                        out.push(nm);
                        proof {
                            assert(out0.len() == i as int);
                            assert(outv0.len() == out0.len());
                            assert forall|k: int| 0 <= k <= i as int implies out.deep_view()[k]
                                == names.deep_view().subrange(0, (i + 1) as int)[k] by {
                                assert(out@ == outv0.push(nm));
                                assert(out@[k] == outv0.push(nm)[k]);
                                if k < i as int {
                                    assert(out@[k] == outv0[k]);
                                    assert(out.deep_view()[k] == out0[k]);
                                } else {
                                    assert(out@[k] == nm);
                                }
                            }
                            assert(out.deep_view() =~= names.deep_view().subrange(
                                0,
                                (i + 1) as int,
                            ));
                        }
                        i += 1;
                    }
                    proof {
                        assert(names.deep_view().subrange(0, names.deep_view().len() as int)
                            =~= names.deep_view());
                    }
                    Ok(out)
                },
            },
        }
    }
}

/// Relies on brotli's `BrotliCompress` at quality 11: the compressed form is
/// a function of the input bytes alone, and brotli compression is lossless,
/// so decompressing the result recovers the input.  With an in-memory
/// reader and sink no I/O error can arise; the one reachable failure is the
/// encoder's own internal-error path, which `brotli_ok` names rather than
/// this contract ruling it out.
#[verifier::external_body]
fn brotli_compress(b: &[u8]) -> (r: Option<Vec<u8>>)
    ensures
        r is Some <==> brotli_ok(b@),
        r matches Some(c) ==> c@ == brotli_of(b@) && unbrotli_of(c@) == b@,
{
    let mut out: Vec<u8> = Vec::new();
    let mut params = brotli::enc::BrotliEncoderParams::default();
    params.quality = 11;
    match brotli::enc::BrotliCompress(&mut std::io::Cursor::new(b), &mut out, &params) {
        Ok(_) => Some(out),
        Err(_) => None,
    }
}

/// Relies on std's `FromIterator` for `String`: collecting characters builds
/// the string of exactly those characters.
#[verifier::external_body]
fn string_from_chars(v: &Vec<char>) -> (r: String)
    ensures
        r@ == v@,
{
    v.iter().collect()
}

} // verus!
