//! Round-trip and rejection behaviour of the enum bridge.

use slang::enums::CompileTarget;
use slang::enums::LayoutRules;
use slang::enums::MatrixLayoutMode;
use slang::enums::Modifier;
use slang::enums::ParameterCategory;
use slang::enums::ResourceAccess;
use slang::enums::ResourceShape;
use slang::enums::ScalarType;
use slang::enums::SourceLanguage;
use slang::enums::Stage;
use slang::enums::TypeKind;

#[test]
fn compile_target_round_trip() {
    let all = [
        CompileTarget::TargetUnknown,
        CompileTarget::TargetNone,
        CompileTarget::Glsl,
        CompileTarget::Hlsl,
        CompileTarget::Spirv,
        CompileTarget::SpirvAsm,
        CompileTarget::Dxbc,
        CompileTarget::DxbcAsm,
        CompileTarget::Dxil,
        CompileTarget::DxilAsm,
    ];
    for t in all {
        assert_eq!(CompileTarget::from_raw(t.to_raw()), Some(t));
    }
}

#[test]
fn compile_target_exact_values() {
    assert_eq!(CompileTarget::TargetUnknown.to_raw(), 0);
    assert_eq!(CompileTarget::Glsl.to_raw(), 2);
    assert_eq!(CompileTarget::Hlsl.to_raw(), 5);
    assert_eq!(CompileTarget::Spirv.to_raw(), 6);
    assert_eq!(CompileTarget::DxilAsm.to_raw(), 11);
}

#[test]
fn compile_target_rejects_deprecated_gap() {
    // 3 and 4 are the deprecated GLSL-for-Vulkan native constants: they
    // must be reported as bridging failures, never coerced to a variant.
    assert_eq!(CompileTarget::from_raw(3), None);
    assert_eq!(CompileTarget::from_raw(4), None);
    assert_eq!(CompileTarget::from_raw(12), None);
    assert_eq!(CompileTarget::from_raw(-1), None);
}

#[test]
fn source_language_round_trip() {
    let all = [
        SourceLanguage::Unknown,
        SourceLanguage::Slang,
        SourceLanguage::Hlsl,
        SourceLanguage::Glsl,
    ];
    for l in all {
        assert_eq!(SourceLanguage::from_raw(l.to_raw()), Some(l));
    }
    assert_eq!(SourceLanguage::from_raw(4), None);
    assert_eq!(SourceLanguage::from_raw(-1), None);
}

#[test]
fn stage_round_trip() {
    let all = [
        Stage::StageNone,
        Stage::Vertex,
        Stage::Hull,
        Stage::Domain,
        Stage::Geometry,
        Stage::Fragment,
        Stage::Compute,
        Stage::RayGeneration,
        Stage::Intersection,
        Stage::AnyHit,
        Stage::ClosestHit,
        Stage::Miss,
        Stage::Callable,
    ];
    for s in all {
        assert_eq!(Stage::from_raw(s.to_raw()), Some(s));
    }
    assert_eq!(Stage::Compute.to_raw(), 6);
    assert_eq!(Stage::from_raw(13), None);
}

#[test]
fn type_kind_round_trip() {
    let all = [
        TypeKind::KindNone,
        TypeKind::Struct,
        TypeKind::Array,
        TypeKind::Matrix,
        TypeKind::Vector,
        TypeKind::Scalar,
        TypeKind::ConstantBuffer,
        TypeKind::Resource,
        TypeKind::SamplerState,
        TypeKind::TextureBuffer,
        TypeKind::ShaderStorageBuffer,
        TypeKind::ParameterBlock,
        TypeKind::GenericTypeParameter,
        TypeKind::Interface,
        TypeKind::OutputStream,
        TypeKind::Count,
    ];
    for k in all {
        assert_eq!(TypeKind::from_raw(k.to_raw()), Some(k));
    }
    assert_eq!(TypeKind::from_raw(16), None);
}

#[test]
fn scalar_type_round_trip() {
    let all = [
        ScalarType::ScalarNone,
        ScalarType::Void,
        ScalarType::Bool,
        ScalarType::Int32,
        ScalarType::Uint32,
        ScalarType::Int64,
        ScalarType::Uint64,
        ScalarType::Float16,
        ScalarType::Float32,
        ScalarType::Float64,
        ScalarType::Int8,
        ScalarType::Uint8,
        ScalarType::Int16,
        ScalarType::Uint16,
    ];
    for s in all {
        assert_eq!(ScalarType::from_raw(s.to_raw()), Some(s));
    }
    assert_eq!(ScalarType::from_raw(14), None);
}

#[test]
fn resource_shape_round_trip() {
    let all = [
        ResourceShape::ResourceBaseShapeMask,
        ResourceShape::ResourceNone,
        ResourceShape::Texture1d,
        ResourceShape::Texture2d,
        ResourceShape::Texture3d,
        ResourceShape::TextureCube,
        ResourceShape::TextureBuffer,
        ResourceShape::StructuredBuffer,
        ResourceShape::ByteAddressBuffer,
        ResourceShape::ResourceUnknown,
        ResourceShape::ResourceExtShapeMask,
        ResourceShape::TextureArrayFlag,
        ResourceShape::TextureMultisampleFlag,
        ResourceShape::Texture1dArray,
        ResourceShape::Texture2dArray,
        ResourceShape::TextureCubeArray,
        ResourceShape::Texture2dMultisample,
        ResourceShape::Texture2dMultisampleArray,
    ];
    for s in all {
        assert_eq!(ResourceShape::from_raw(s.to_raw()), Some(s));
    }
    assert_eq!(ResourceShape::Texture2dMultisampleArray.to_raw(), 0xc2);
    assert_eq!(ResourceShape::Texture1dArray.to_raw(), 0x41);
    assert_eq!(ResourceShape::from_raw(9), None);
    assert_eq!(ResourceShape::from_raw(0x43), None);
}

#[test]
fn resource_access_round_trip() {
    let all = [
        ResourceAccess::AccessNone,
        ResourceAccess::Read,
        ResourceAccess::ReadWrite,
        ResourceAccess::RasterOrdered,
        ResourceAccess::Append,
        ResourceAccess::Consume,
    ];
    for a in all {
        assert_eq!(ResourceAccess::from_raw(a.to_raw()), Some(a));
    }
    assert_eq!(ResourceAccess::from_raw(6), None);
}

#[test]
fn parameter_category_round_trip() {
    let all = [
        ParameterCategory::CategoryNone,
        ParameterCategory::Mixed,
        ParameterCategory::ConstantBuffer,
        ParameterCategory::ShaderResource,
        ParameterCategory::UnorderedAccess,
        ParameterCategory::VaryingInput,
        ParameterCategory::VaryingOutput,
        ParameterCategory::SamplerState,
        ParameterCategory::Uniform,
        ParameterCategory::DescriptorTableSlot,
        ParameterCategory::SpecializationConstant,
        ParameterCategory::PushConstantBuffer,
        ParameterCategory::RegisterSpace,
        ParameterCategory::Generic,
        ParameterCategory::RayPayload,
        ParameterCategory::HitAttributes,
        ParameterCategory::CallablePayload,
        ParameterCategory::ShaderRecord,
        ParameterCategory::Count,
    ];
    for c in all {
        assert_eq!(ParameterCategory::from_raw(c.to_raw()), Some(c));
    }
    assert_eq!(ParameterCategory::ShaderResource.to_raw(), 3);
    assert_eq!(ParameterCategory::DescriptorTableSlot.to_raw(), 9);
    assert_eq!(ParameterCategory::from_raw(19), None);
}

#[test]
fn matrix_layout_mode_round_trip() {
    let all = [
        MatrixLayoutMode::Unknown,
        MatrixLayoutMode::RowMajor,
        MatrixLayoutMode::ColumnMajor,
    ];
    for m in all {
        assert_eq!(MatrixLayoutMode::from_raw(m.to_raw()), Some(m));
    }
    assert_eq!(MatrixLayoutMode::from_raw(3), None);
}

#[test]
fn layout_rules_round_trip() {
    assert_eq!(LayoutRules::from_raw(LayoutRules::Default.to_raw()), Some(LayoutRules::Default));
    assert_eq!(LayoutRules::from_raw(1), None);
}

#[test]
fn modifier_round_trip() {
    assert_eq!(Modifier::from_raw(Modifier::Shared.to_raw()), Some(Modifier::Shared));
    assert_eq!(Modifier::from_raw(1), None);
}
