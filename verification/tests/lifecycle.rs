//! The session and compile-request lifecycle: configuration accumulation,
//! the text-encoding guard, and the compile decision.

use slang::enums::CompileTarget;
use slang::enums::SourceLanguage;
use slang::enums::Stage;
use slang::reflection::Reflection;
use slang::request::CompileArtifacts;
use slang::request::CompileError;
use slang::request::UnitSource;
use slang::request::Session;
use slang::result_failed;
use slang::result_succeeded;
use slang::text::check_text;
use slang::text::TextError;

#[test]
fn compiles() {}

fn empty_reflection() -> Reflection {
    Reflection {
        parameters: Vec::new(),
        type_parameters: Vec::new(),
        entry_points: Vec::new(),
        types: Vec::new(),
        global_constant_buffer_binding: 0,
        global_constant_buffer_size: 0,
    }
}

#[test]
fn status_codes() {
    assert!(result_succeeded(0));
    assert!(result_succeeded(1));
    assert!(!result_succeeded(-1));
    assert!(result_failed(-1));
    assert!(result_failed(i32::MIN));
    assert!(!result_failed(0));
}

#[test]
fn text_guard_accepts_and_rejects() {
    assert_eq!(check_text("hello"), Ok(()));
    assert_eq!(check_text(""), Ok(()));
    assert_eq!(check_text("he\0llo"), Err(TextError::InteriorNul));
    assert_eq!(check_text("\0"), Err(TextError::InteriorNul));
}

#[test]
fn configuration_accumulates() {
    let session = Session::new();
    let mut req = session.create_compile_request();
    assert!(req.target.is_none());
    req.set_codegen_target(CompileTarget::Hlsl);
    assert_eq!(req.target, Some(CompileTarget::Hlsl));
    req.set_codegen_target(CompileTarget::Spirv);
    assert_eq!(req.target, Some(CompileTarget::Spirv));

    assert_eq!(req.add_include_search_path("shaders/common"), Ok(()));
    assert_eq!(req.add_include_search_path("shaders/lib"), Ok(()));
    assert_eq!(req.search_paths.len(), 2);
    assert_eq!(req.search_paths[0], "shaders/common");
    assert_eq!(req.search_paths[1], "shaders/lib");

    assert_eq!(req.add_preprocessor_define("WIDTH", "128"), Ok(()));
    assert_eq!(req.defines.len(), 1);
    assert_eq!(req.defines[0].key, "WIDTH");
    assert_eq!(req.defines[0].value, "128");
}

#[test]
fn encoding_guard_fails_before_any_state_change() {
    let session = Session::new();
    let mut req = session.create_compile_request();

    assert_eq!(
        req.add_include_search_path("bad\0path"),
        Err(TextError::InteriorNul)
    );
    assert!(req.search_paths.is_empty());

    assert_eq!(
        req.add_preprocessor_define("KEY", "val\0ue"),
        Err(TextError::InteriorNul)
    );
    assert_eq!(
        req.add_preprocessor_define("ke\0y", "value"),
        Err(TextError::InteriorNul)
    );
    assert!(req.defines.is_empty());

    assert!(req
        .add_translation_unit(SourceLanguage::Slang, Some("na\0me"))
        .is_err());
    assert!(req.units.is_empty());

    let tu = req
        .add_translation_unit(SourceLanguage::Slang, None)
        .unwrap();
    assert!(tu
        .add_source_file(&mut req, "sr\0c.slang")
        .is_err());
    assert!(req.units[0].sources.is_empty());
    assert!(tu
        .add_source_string(&mut req, "mem.slang", "void\0 main() {}")
        .is_err());
    assert!(req.units[0].sources.is_empty());
    assert!(tu.add_entry_point(&mut req, "ma\0in", Stage::Vertex).is_err());
    assert!(req.entry_points.is_empty());
}

#[test]
fn translation_unit_indices_are_monotonic() {
    let session = Session::new();
    let mut req = session.create_compile_request();
    let a = req
        .add_translation_unit(SourceLanguage::Glsl, Some("first"))
        .unwrap();
    let b = req
        .add_translation_unit(SourceLanguage::Hlsl, None)
        .unwrap();
    assert_eq!(a.index, 0);
    assert_eq!(b.index, 1);
    assert_eq!(req.units.len(), 2);
    assert_eq!(req.units[0].language, SourceLanguage::Glsl);
    assert_eq!(req.units[0].name.as_deref(), Some("first"));
    assert_eq!(req.units[1].language, SourceLanguage::Hlsl);
    assert!(req.units[1].name.is_none());
}

#[test]
fn entry_point_indices_are_request_scoped() {
    let session = Session::new();
    let mut req = session.create_compile_request();
    let a = req.add_translation_unit(SourceLanguage::Slang, None).unwrap();
    let b = req.add_translation_unit(SourceLanguage::Slang, None).unwrap();
    let e0 = a.add_entry_point(&mut req, "vs_main", Stage::Vertex).unwrap();
    let e1 = b.add_entry_point(&mut req, "fs_main", Stage::Fragment).unwrap();
    let e2 = a.add_entry_point(&mut req, "cs_main", Stage::Compute).unwrap();
    assert_eq!(e0.0, 0);
    assert_eq!(e1.0, 1);
    assert_eq!(e2.0, 2);
    assert_eq!(req.entry_points.len(), 3);
    assert_eq!(req.entry_points[0].name, "vs_main");
    assert_eq!(req.entry_points[0].unit, 0);
    assert_eq!(req.entry_points[1].unit, 1);
    assert_eq!(req.entry_points[2].unit, 0);
    assert_eq!(req.entry_points[2].stage, Stage::Compute);
}

#[test]
fn sources_accumulate_in_their_unit() {
    let session = Session::new();
    let mut req = session.create_compile_request();
    let a = req.add_translation_unit(SourceLanguage::Slang, None).unwrap();
    let b = req.add_translation_unit(SourceLanguage::Slang, None).unwrap();
    assert_eq!(a.add_source_file(&mut req, "one.slang"), Ok(()));
    assert_eq!(
        b.add_source_string(&mut req, "two.slang", "void main() {}"),
        Ok(())
    );
    assert_eq!(req.units[0].sources.len(), 1);
    assert_eq!(req.units[1].sources.len(), 1);
    match &req.units[0].sources[0] {
        UnitSource::File { path } => assert_eq!(path, "one.slang"),
        UnitSource::Text { .. } => panic!("expected a file source"),
    }
    match &req.units[1].sources[0] {
        UnitSource::Text { path, source } => {
            assert_eq!(path, "two.slang");
            assert_eq!(source, "void main() {}");
        }
        UnitSource::File { .. } => panic!("expected a text source"),
    }
}

#[test]
fn failed_compile_carries_diagnostics_verbatim() {
    let session = Session::new();
    let mut req = session.create_compile_request();
    let tu = req.add_translation_unit(SourceLanguage::Glsl, None).unwrap();
    tu.add_source_string(&mut req, "broken.glsl", "void main( {")
        .unwrap();
    let diag = "broken.glsl(1): error: unexpected '{'";
    let outcome = req.compile(-1, Ok(String::from(diag)), None);
    match outcome {
        Err(CompileError::Compilation(errors)) => {
            assert!(!errors.errors.is_empty());
            assert_eq!(errors.errors, diag);
        }
        Err(CompileError::DiagnosticText(_)) => panic!("expected a compilation failure"),
        Ok(_) => panic!("a failed status must not yield a compiled request"),
    }
}

#[test]
fn undecodable_diagnostics_are_a_distinct_error() {
    let session = Session::new();
    let req = session.create_compile_request();
    let outcome = req.compile(-3, Err(TextError::NotUtf8), None);
    match outcome {
        Err(CompileError::DiagnosticText(TextError::NotUtf8)) => {}
        _ => panic!("expected the diagnostic-decoding error"),
    }
}

#[test]
fn successful_compile_keeps_configuration_and_artifacts() {
    let session = Session::new();
    let mut req = session.create_compile_request();
    req.set_codegen_target(CompileTarget::Glsl);
    let tu = req.add_translation_unit(SourceLanguage::Slang, None).unwrap();
    let ep = tu.add_entry_point(&mut req, "main", Stage::Fragment).unwrap();
    let artifacts = CompileArtifacts {
        codes: vec![vec![1, 2, 3]],
        reflection: empty_reflection(),
    };
    let compiled = req
        .compile(0, Ok(String::new()), Some(artifacts))
        .unwrap_or_else(|_| panic!("a non-negative status must succeed"));
    assert_eq!(compiled.config.target, Some(CompileTarget::Glsl));
    assert_eq!(compiled.config.entry_points.len(), 1);
    assert_eq!(compiled.get_entry_point_code(ep), &vec![1, 2, 3]);
}
