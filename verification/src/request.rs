//! The session and compile-request lifecycle.
//!
//! A [`Session`] stands for one initialized compiler instance and is the
//! factory for compile requests. A [`CompileRequest`] accumulates the whole
//! configuration of one pending compile job: the code-generation target, the
//! include search paths, the preprocessor defines, and the translation units
//! with their sources and entry points. Every string headed for the native
//! boundary passes the text-encoding guard first; a rejected string changes
//! nothing.
//!
//! `compile` consumes the request — there is no further configuration and no
//! partial-success state afterward. A non-negative native status turns the
//! request into a [`CompiledRequest`] holding the generated entry-point code
//! and the reflection graph; a negative status yields the accumulated
//! diagnostic text verbatim, with a decoding failure of that text kept
//! distinct from the compilation failure itself.

use vstd::prelude::*;
use vstd::pervasive::unreached;
use vstd::string::StringSliceAdditionalSpecFns;

use crate::enums::CompileTarget;
use crate::enums::SourceLanguage;
use crate::enums::Stage;
use crate::reflection::Reflection;
use crate::spec_result_failed;
use crate::spec_result_succeeded;
use crate::result_failed;
use crate::text::check_text;
use crate::text::nul_free;
use crate::text::TextError;

verus! {

/// One preprocessor definition: a key/value pair of text.
#[derive(Debug)]
pub struct Define {
    /// The macro name.
    pub key: String,
    /// The macro's replacement text.
    pub value: String,
}

/// One source input of a translation unit. Reading a file is delegated to
/// the compiler; only the request records what was added.
#[derive(Debug)]
pub enum UnitSource {
    /// A source file, to be read by the compiler.
    File {
        /// The path handed to the compiler.
        path: String,
    },
    /// Source text supplied directly; the display path drives diagnostics
    /// and relative-include resolution.
    Text {
        /// The display path of the source text.
        path: String,
        /// The source text itself.
        source: String,
    },
}

/// The accumulated configuration of one translation unit.
#[derive(Debug)]
pub struct TranslationUnitConfig {
    /// The unit's source language.
    pub language: SourceLanguage,
    /// The unit's name, where one was given.
    pub name: Option<String>,
    /// The sources added to the unit, in order.
    pub sources: Vec<UnitSource>,
}

/// One declared entry point: a name, a stage, and the translation unit it
/// was declared in.
#[derive(Debug)]
pub struct EntryPointConfig {
    /// The entry point's name.
    pub name: String,
    /// The pipeline stage the entry point targets.
    pub stage: Stage,
    /// The index of the translation unit that declared the entry point.
    pub unit: usize,
}

/// A request-scoped entry-point index, handed out by `add_entry_point` and
/// redeemed against the [`CompiledRequest`] for generated code.
#[derive(Copy, Clone, Debug, Eq, PartialEq, Ord, PartialOrd, Hash, Structural)]
pub struct EntryPointIndex(pub i32);

/// A compilation failure, carrying the compiler's accumulated diagnostic
/// text verbatim.
#[derive(Debug)]
pub struct CompilationErrors {
    /// The diagnostic text, exactly as the compiler reported it.
    pub errors: String,
}

/// Why `compile` did not produce a [`CompiledRequest`].
#[derive(Debug)]
pub enum CompileError {
    /// The compile failed; the diagnostic text is carried verbatim.
    Compilation(CompilationErrors),
    /// The compile failed and the diagnostic text itself could not be
    /// decoded; this is kept distinct from the compilation failure.
    DiagnosticText(TextError),
}

/// What a successful native compile hands back: the generated code bytes of
/// every declared entry point, in declaration order, and the root of the
/// reflection graph.
pub struct CompileArtifacts {
    /// The generated code, one byte vector per declared entry point.
    pub codes: Vec<Vec<u8>>,
    /// The reflection graph of the compiled program.
    pub reflection: Reflection,
}

/// One initialized compiler instance; the factory for compile requests.
/// Creation of the underlying native session — and the unrecoverable error
/// of a null session handle — is the concern of the glue that drives the
/// native component.
pub struct Session {}

impl Session {
    /// Creates a session.
    pub fn new() -> Session {
        Session {}
    }

    /// Allocates a new, empty compile request bound to this session; the
    /// caller owns its disposal.
    pub fn create_compile_request(&self) -> (r: CompileRequest)
        ensures
            r.target is None,
            r.search_paths@.len() == 0,
            r.defines@.len() == 0,
            r.units@.len() == 0,
            r.entry_points@.len() == 0,
    {
        CompileRequest {
            target: None,
            search_paths: Vec::new(),
            defines: Vec::new(),
            units: Vec::new(),
            entry_points: Vec::new(),
        }
    }
}

/// One pending compile job: the full configuration accumulated so far.
/// Consumed by `compile`; order of configuration calls is free except
/// relative to `compile` itself.
#[derive(Debug)]
pub struct CompileRequest {
    /// The code-generation target, once one was set.
    pub target: Option<CompileTarget>,
    /// The include search paths, in the order they were added.
    pub search_paths: Vec<String>,
    /// The preprocessor defines, in the order they were added.
    pub defines: Vec<Define>,
    /// The translation units, indexed by their request-scoped position.
    pub units: Vec<TranslationUnitConfig>,
    /// The declared entry points, indexed request-wide in declaration
    /// order.
    pub entry_points: Vec<EntryPointConfig>,
}

impl CompileRequest {
    /// Sets the target for code generation.
    pub fn set_codegen_target(&mut self, target: CompileTarget)
        ensures
            final(self).target == Some(target),
            final(self).search_paths == old(self).search_paths,
            final(self).defines == old(self).defines,
            final(self).units == old(self).units,
            final(self).entry_points == old(self).entry_points,
    {
        self.target = Some(target);
    }

    /// Adds a path to use when searching for referenced files. A path that
    /// fails the text-encoding guard is rejected before any native call and
    /// leaves the request unchanged.
    pub fn add_include_search_path(&mut self, path: &str) -> (r: Result<(), TextError>)
        ensures
            r is Ok <==> nul_free(path.spec_bytes()),
            r is Ok ==> final(self).search_paths@.len() == old(self).search_paths@.len() + 1
                && final(self).search_paths@.drop_last() == old(self).search_paths@
                && final(self).search_paths@.last()@ == path@,
            r is Err ==> r == Err::<(), TextError>(TextError::InteriorNul) && *final(self)
                == *old(self),
            final(self).target == old(self).target,
            final(self).defines == old(self).defines,
            final(self).units == old(self).units,
            final(self).entry_points == old(self).entry_points,
    {
        match check_text(path) {
            Ok(()) => {
                self.search_paths.push(path.to_owned());
                proof {
                    assert(self.search_paths@.drop_last() =~= old(self).search_paths@);
                }
                Ok(())
            },
            Err(e) => Err(e),
        }
    }

    /// Adds a macro definition to be used during preprocessing. A key or
    /// value that fails the text-encoding guard is rejected before any
    /// native call and leaves the request unchanged.
    pub fn add_preprocessor_define(&mut self, key: &str, value: &str) -> (r: Result<
        (),
        TextError,
    >)
        ensures
            r is Ok <==> nul_free(key.spec_bytes()) && nul_free(value.spec_bytes()),
            r is Ok ==> final(self).defines@.len() == old(self).defines@.len() + 1
                && final(self).defines@.drop_last() == old(self).defines@
                && final(self).defines@.last().key@ == key@
                && final(self).defines@.last().value@ == value@,
            r is Err ==> r == Err::<(), TextError>(TextError::InteriorNul) && *final(self)
                == *old(self),
            final(self).target == old(self).target,
            final(self).search_paths == old(self).search_paths,
            final(self).units == old(self).units,
            final(self).entry_points == old(self).entry_points,
    {
        match check_text(key) {
            Ok(()) => {},
            Err(e) => {
                return Err(e);
            },
        }
        match check_text(value) {
            Ok(()) => {},
            Err(e) => {
                return Err(e);
            },
        }
        self.defines.push(Define { key: key.to_owned(), value: value.to_owned() });
        proof {
            assert(self.defines@.drop_last() =~= old(self).defines@);
        }
        Ok(())
    }

    /// Adds a distinct translation unit to the request and hands back its
    /// handle, bound by a monotonically increasing, request-scoped index. A
    /// name that fails the text-encoding guard is rejected before any
    /// native call and leaves the request unchanged.
    pub fn add_translation_unit(&mut self, source_language: SourceLanguage, name: Option<&str>)
        -> (r: Result<TranslationUnit, TextError>)
        ensures
            r is Ok <==> (match name {
                Some(n) => nul_free(n.spec_bytes()),
                None => true,
            }),
            r matches Ok(tu) ==> tu.index == old(self).units@.len() && final(self).units@.len()
                == old(self).units@.len() + 1 && final(self).units@.drop_last() == old(self).units@
                && final(self).units@.last().language == source_language && (match name {
                Some(n) => final(self).units@.last().name matches Some(s) && s@ == n@,
                None => final(self).units@.last().name is None,
            }) && final(self).units@.last().sources@.len() == 0,
            r is Err ==> (r matches Err(e) && e == TextError::InteriorNul) && *final(self)
                == *old(self),
            final(self).target == old(self).target,
            final(self).search_paths == old(self).search_paths,
            final(self).defines == old(self).defines,
            final(self).entry_points == old(self).entry_points,
    {
        let owned_name: Option<String> = match name {
            Some(n) => {
                match check_text(n) {
                    Ok(()) => Some(n.to_owned()),
                    Err(e) => {
                        return Err(e);
                    },
                }
            },
            None => None,
        };
        let index = self.units.len();
        self.units.push(
            TranslationUnitConfig { language: source_language, name: owned_name, sources: Vec::new() },
        );
        proof {
            assert(self.units@.drop_last() =~= old(self).units@);
        }
        Ok(TranslationUnit { index })
    }

    /// Executes the compilation request, consuming it: `status` is the
    /// signed native status of the compile, `diagnostics` the accumulated
    /// diagnostic text (or its decoding failure), and `artifacts` what a
    /// successful native compile handed back. On failure the diagnostic
    /// text is returned verbatim and no compiled request exists; the
    /// consumed handle is released through normal ownership either way.
    pub fn compile(
        self,
        status: i32,
        diagnostics: Result<String, TextError>,
        artifacts: Option<CompileArtifacts>,
    ) -> (r: Result<CompiledRequest, CompileError>)
        requires
            spec_result_succeeded(status) ==> (artifacts matches Some(a) && a.codes@.len()
                == self.entry_points@.len()),
        ensures
            spec_result_succeeded(status) ==> (r matches Ok(c) && c.config == self && (
            artifacts matches Some(a) && c.codes == a.codes && c.reflection == a.reflection)),
            spec_result_failed(status) ==> (diagnostics matches Ok(d) ==> (r matches Err(e) && (
            e matches CompileError::Compilation(ce) && ce.errors == d))),
            spec_result_failed(status) ==> (diagnostics matches Err(t) ==> (r matches Err(e) && e
                == CompileError::DiagnosticText(t))),
    {
        if result_failed(status) {
            match diagnostics {
                Ok(d) => Err(CompileError::Compilation(CompilationErrors { errors: d })),
                Err(t) => Err(CompileError::DiagnosticText(t)),
            }
        } else {
            match artifacts {
                Some(a) => Ok(
                    CompiledRequest { config: self, codes: a.codes, reflection: a.reflection },
                ),
                None => unreached(),
            }
        }
    }
}

/// Relates a request to the same request after one source was appended to
/// the translation unit at `i`: that unit's source list grew by exactly
/// one entry at its end, and every other part of the request — the other
/// units, the unit's own language and name, the target, the search paths,
/// the defines and the entry points — is unchanged.
pub open spec fn spec_unit_sources_extended(
    before: CompileRequest,
    after: CompileRequest,
    i: int,
) -> bool {
    &&& after.units@.len() == before.units@.len()
    &&& after.units@[i].sources@.len() == before.units@[i].sources@.len() + 1
    &&& after.units@[i].sources@.drop_last() == before.units@[i].sources@
    &&& after.units@[i].language == before.units@[i].language
    &&& after.units@[i].name == before.units@[i].name
    &&& (forall|j: int|
        0 <= j < before.units@.len() && j != i ==> after.units@[j] == before.units@[j])
    &&& after.target == before.target
    &&& after.search_paths == before.search_paths
    &&& after.defines == before.defines
    &&& after.entry_points == before.entry_points
}

/// A translation unit of a live compile request: a request-scoped index,
/// valid only against the request that created it and only while that
/// request is alive and unconsumed.
#[derive(Copy, Clone, Debug)]
pub struct TranslationUnit {
    /// The unit's request-scoped index.
    pub index: usize,
}

impl TranslationUnit {
    /// Adds a source file to the translation unit; reading the file is
    /// delegated to the compiler. A path that fails the text-encoding guard
    /// is rejected before any native call and leaves the request unchanged.
    pub fn add_source_file(&self, request: &mut CompileRequest, path: &str) -> (r: Result<
        (),
        TextError,
    >)
        requires
            self.index < old(request).units@.len(),
        ensures
            r is Ok <==> nul_free(path.spec_bytes()),
            r is Ok ==> spec_unit_sources_extended(*old(request), *final(request), self.index as int)
                && (final(request).units@[self.index as int].sources@.last()
                    matches UnitSource::File { path: p } && p@ == path@),
            r is Err ==> (r matches Err(e) && e == TextError::InteriorNul) && *final(request)
                == *old(request),
    {
        match check_text(path) {
            Ok(()) => {
                request.units[self.index].sources.push(
                    UnitSource::File { path: path.to_owned() },
                );
                proof {
                    assert(request.units@[self.index as int].sources@.drop_last() =~= old(request).units@[self.index as int].sources@);
                }
                Ok(())
            },
            Err(e) => Err(e),
        }
    }

    /// Adds a source string to the translation unit; the display path
    /// drives diagnostic output and relative-include resolution. A path or
    /// source that fails the text-encoding guard is rejected before any
    /// native call and leaves the request unchanged.
    pub fn add_source_string(&self, request: &mut CompileRequest, path: &str, source: &str)
        -> (r: Result<(), TextError>)
        requires
            self.index < old(request).units@.len(),
        ensures
            r is Ok <==> nul_free(path.spec_bytes()) && nul_free(source.spec_bytes()),
            r is Ok ==> spec_unit_sources_extended(*old(request), *final(request), self.index as int)
                && (final(request).units@[self.index as int].sources@.last()
                    matches UnitSource::Text { path: p, source: s } && p@ == path@ && s@
                    == source@),
            r is Err ==> (r matches Err(e) && e == TextError::InteriorNul) && *final(request)
                == *old(request),
    {
        match check_text(path) {
            Ok(()) => {},
            Err(e) => {
                return Err(e);
            },
        }
        match check_text(source) {
            Ok(()) => {},
            Err(e) => {
                return Err(e);
            },
        }
        request.units[self.index].sources.push(
            UnitSource::Text { path: path.to_owned(), source: source.to_owned() },
        );
        proof {
            assert(request.units@[self.index as int].sources@.drop_last() =~= old(request).units@[self.index as int].sources@);
        }
        Ok(())
    }

    /// Declares an entry point of this translation unit and hands back its
    /// request-scoped index, to be redeemed later against the compiled
    /// request. A name that fails the text-encoding guard is rejected
    /// before any native call and leaves the request unchanged.
    pub fn add_entry_point(&self, request: &mut CompileRequest, name: &str, stage: Stage) -> (r:
        Result<EntryPointIndex, TextError>)
        requires
            self.index < old(request).units@.len(),
            old(request).entry_points@.len() < 0x7fff_ffff,
        ensures
            r is Ok <==> nul_free(name.spec_bytes()),
            r matches Ok(idx) ==> idx.0 as int == old(request).entry_points@.len() as int && final(request).entry_points@.len() == old(request).entry_points@.len() + 1 && final(request).entry_points@.drop_last() == old(request).entry_points@ && final(request).entry_points@.last().name@ == name@ && final(request).entry_points@.last().stage
                == stage && final(request).entry_points@.last().unit == self.index,
            r is Err ==> (r matches Err(e) && e == TextError::InteriorNul) && *final(request)
                == *old(request),
            final(request).target == old(request).target,
            final(request).search_paths == old(request).search_paths,
            final(request).defines == old(request).defines,
            final(request).units == old(request).units,
    {
        match check_text(name) {
            Ok(()) => {
                let idx = request.entry_points.len();
                request.entry_points.push(
                    EntryPointConfig { name: name.to_owned(), stage, unit: self.index },
                );
                proof {
                    assert(request.entry_points@.drop_last() =~= old(request).entry_points@);
                }
                Ok(EntryPointIndex(idx as i32))
            },
            Err(e) => Err(e),
        }
    }
}

/// A finished compile: owns the consumed request's configuration, the
/// generated code of every declared entry point, and the reflection graph.
/// Everything borrowed from it lives exactly as long as it does.
pub struct CompiledRequest {
    /// The configuration the compile was run with.
    pub config: CompileRequest,
    /// The generated code, one byte vector per declared entry point, in
    /// declaration order.
    pub codes: Vec<Vec<u8>>,
    /// The reflection graph of the compiled program.
    pub reflection: Reflection,
}

impl CompiledRequest {
    /// The generated code bytes for one entry point; the index must have
    /// originated from `add_entry_point` on the request this compile
    /// consumed.
    pub fn get_entry_point_code(&self, index: EntryPointIndex) -> (r: &Vec<u8>)
        requires
            0 <= index.0,
            (index.0 as int) < self.codes@.len(),
        ensures
            r@ == self.codes@[index.0 as int]@,
    {
        &self.codes[index.0 as usize]
    }

    /// The root of the reflection graph, borrowed for exactly as long as
    /// this compiled request lives.
    pub fn reflection(&self) -> (r: &Reflection)
        ensures
            *r == self.reflection,
    {
        &self.reflection
    }
}

/// What this layer adds to a compile is a function of the configuration and
/// of the native artifacts alone: two finished compiles that hold the same
/// recorded artifacts answer byte-identical entry-point code at every
/// index. Any difference between two runs of one configuration can
/// therefore only originate in the native compiler itself.
pub proof fn lemma_entry_point_code_deterministic(c1: CompiledRequest, c2: CompiledRequest, i: int)
    requires
        c1.codes == c2.codes,
        0 <= i < c1.codes@.len(),
    ensures
        c1.codes@[i]@ == c2.codes@[i]@,
{
}

} // verus!
