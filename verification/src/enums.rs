//! The enum bridge.
//!
//! The native compiler describes targets, stages, types and bindings through
//! flat integer constants. Each enumeration here is closed: it has one
//! canonical variant per distinct native value, `to_raw` maps a variant to
//! that value, and `from_raw` is the fallible inverse that rejects every
//! unrecognized integer instead of defaulting. Deprecated duplicate native
//! constants (such as the retired GLSL-for-Vulkan code-generation targets)
//! have no variant and are rejected.
//!
//! Each enumeration carries a `lemma_raw_bridge` law: bridging a variant
//! through its native value recovers exactly that variant, a recognized
//! integer is recovered as the variant whose value it is, and a rejected
//! integer is the value of no variant at all.

use vstd::prelude::*;

verus! {

/// A code-generation target, mirroring the native `SlangCompileTarget`
/// constants.
#[derive(Copy, Clone, Debug, Eq, PartialEq, Hash, Structural)]
pub enum CompileTarget {
    TargetUnknown,
    TargetNone,
    Glsl,
    Hlsl,
    Spirv,
    SpirvAsm,
    Dxbc,
    DxbcAsm,
    Dxil,
    DxilAsm,
}

impl CompileTarget {
    /// The native integer constant behind a variant. The values 3 and 4 are
    /// deprecated GLSL-for-Vulkan duplicates in the native numbering and
    /// belong to no variant.
    pub open spec fn raw_value(self) -> i32 {
        match self {
            CompileTarget::TargetUnknown => 0,
            CompileTarget::TargetNone => 1,
            CompileTarget::Glsl => 2,
            CompileTarget::Hlsl => 5,
            CompileTarget::Spirv => 6,
            CompileTarget::SpirvAsm => 7,
            CompileTarget::Dxbc => 8,
            CompileTarget::DxbcAsm => 9,
            CompileTarget::Dxil => 10,
            CompileTarget::DxilAsm => 11,
        }
    }

    /// The variant behind a native integer, or `None` for every integer that
    /// is the value of no variant.
    pub open spec fn spec_from_raw(v: i32) -> Option<CompileTarget> {
        if v == 0 {
            Some(CompileTarget::TargetUnknown)
        } else if v == 1 {
            Some(CompileTarget::TargetNone)
        } else if v == 2 {
            Some(CompileTarget::Glsl)
        } else if v == 5 {
            Some(CompileTarget::Hlsl)
        } else if v == 6 {
            Some(CompileTarget::Spirv)
        } else if v == 7 {
            Some(CompileTarget::SpirvAsm)
        } else if v == 8 {
            Some(CompileTarget::Dxbc)
        } else if v == 9 {
            Some(CompileTarget::DxbcAsm)
        } else if v == 10 {
            Some(CompileTarget::Dxil)
        } else if v == 11 {
            Some(CompileTarget::DxilAsm)
        } else {
            None
        }
    }

    /// Maps a variant to its native integer constant.
    pub fn to_raw(self) -> (r: i32)
        ensures
            r == self.raw_value(),
    {
        match self {
            CompileTarget::TargetUnknown => 0,
            CompileTarget::TargetNone => 1,
            CompileTarget::Glsl => 2,
            CompileTarget::Hlsl => 5,
            CompileTarget::Spirv => 6,
            CompileTarget::SpirvAsm => 7,
            CompileTarget::Dxbc => 8,
            CompileTarget::DxbcAsm => 9,
            CompileTarget::Dxil => 10,
            CompileTarget::DxilAsm => 11,
        }
    }

    /// Bridges a native integer back to its variant, rejecting every
    /// unrecognized value.
    pub fn from_raw(v: i32) -> (r: Option<CompileTarget>)
        ensures
            r == CompileTarget::spec_from_raw(v),
    {
        if v == 0 {
            Some(CompileTarget::TargetUnknown)
        } else if v == 1 {
            Some(CompileTarget::TargetNone)
        } else if v == 2 {
            Some(CompileTarget::Glsl)
        } else if v == 5 {
            Some(CompileTarget::Hlsl)
        } else if v == 6 {
            Some(CompileTarget::Spirv)
        } else if v == 7 {
            Some(CompileTarget::SpirvAsm)
        } else if v == 8 {
            Some(CompileTarget::Dxbc)
        } else if v == 9 {
            Some(CompileTarget::DxbcAsm)
        } else if v == 10 {
            Some(CompileTarget::Dxil)
        } else if v == 11 {
            Some(CompileTarget::DxilAsm)
        } else {
            None
        }
    }

    /// Bridging law: a variant round-trips exactly through its native value;
    /// a recognized integer is recovered as the variant whose value it is;
    /// a rejected integer is the value of no variant.
    pub proof fn lemma_raw_bridge(e: CompileTarget, v: i32)
        ensures
            CompileTarget::spec_from_raw(e.raw_value()) == Some(e),
            CompileTarget::spec_from_raw(v) matches Some(t) ==> t.raw_value() == v,
            CompileTarget::spec_from_raw(v) is None ==> e.raw_value() != v,
    {
        match e {
            CompileTarget::TargetUnknown => {},
            CompileTarget::TargetNone => {},
            CompileTarget::Glsl => {},
            CompileTarget::Hlsl => {},
            CompileTarget::Spirv => {},
            CompileTarget::SpirvAsm => {},
            CompileTarget::Dxbc => {},
            CompileTarget::DxbcAsm => {},
            CompileTarget::Dxil => {},
            CompileTarget::DxilAsm => {},
        }
    }
}

/// The source language of a translation unit, mirroring the native
/// `SlangSourceLanguage` constants.
#[derive(Copy, Clone, Debug, Eq, PartialEq, Hash, Structural)]
pub enum SourceLanguage {
    Unknown,
    Slang,
    Hlsl,
    Glsl,
}

impl SourceLanguage {
    /// The native integer constant behind a variant.
    pub open spec fn raw_value(self) -> i32 {
        match self {
            SourceLanguage::Unknown => 0,
            SourceLanguage::Slang => 1,
            SourceLanguage::Hlsl => 2,
            SourceLanguage::Glsl => 3,
        }
    }

    /// The variant behind a native integer, or `None` for every integer that
    /// is the value of no variant.
    pub open spec fn spec_from_raw(v: i32) -> Option<SourceLanguage> {
        if v == 0 {
            Some(SourceLanguage::Unknown)
        } else if v == 1 {
            Some(SourceLanguage::Slang)
        } else if v == 2 {
            Some(SourceLanguage::Hlsl)
        } else if v == 3 {
            Some(SourceLanguage::Glsl)
        } else {
            None
        }
    }

    /// Maps a variant to its native integer constant.
    pub fn to_raw(self) -> (r: i32)
        ensures
            r == self.raw_value(),
    {
        match self {
            SourceLanguage::Unknown => 0,
            SourceLanguage::Slang => 1,
            SourceLanguage::Hlsl => 2,
            SourceLanguage::Glsl => 3,
        }
    }

    /// Bridges a native integer back to its variant, rejecting every
    /// unrecognized value.
    pub fn from_raw(v: i32) -> (r: Option<SourceLanguage>)
        ensures
            r == SourceLanguage::spec_from_raw(v),
    {
        if v == 0 {
            Some(SourceLanguage::Unknown)
        } else if v == 1 {
            Some(SourceLanguage::Slang)
        } else if v == 2 {
            Some(SourceLanguage::Hlsl)
        } else if v == 3 {
            Some(SourceLanguage::Glsl)
        } else {
            None
        }
    }

    /// Bridging law: a variant round-trips exactly through its native value;
    /// a recognized integer is recovered as the variant whose value it is;
    /// a rejected integer is the value of no variant.
    pub proof fn lemma_raw_bridge(e: SourceLanguage, v: i32)
        ensures
            SourceLanguage::spec_from_raw(e.raw_value()) == Some(e),
            SourceLanguage::spec_from_raw(v) matches Some(t) ==> t.raw_value() == v,
            SourceLanguage::spec_from_raw(v) is None ==> e.raw_value() != v,
    {
        match e {
            SourceLanguage::Unknown => {},
            SourceLanguage::Slang => {},
            SourceLanguage::Hlsl => {},
            SourceLanguage::Glsl => {},
        }
    }
}

/// A shader pipeline stage, mirroring the native `SlangStage` constants.
#[derive(Copy, Clone, Debug, Eq, PartialEq, Hash, Structural)]
pub enum Stage {
    StageNone,
    Vertex,
    Hull,
    Domain,
    Geometry,
    Fragment,
    Compute,
    RayGeneration,
    Intersection,
    AnyHit,
    ClosestHit,
    Miss,
    Callable,
}

impl Stage {
    /// The native integer constant behind a variant. The native numbering
    /// also aliases a pixel-stage name to the fragment value; the fragment
    /// variant is the one canonical owner of that value.
    pub open spec fn raw_value(self) -> u32 {
        match self {
            Stage::StageNone => 0,
            Stage::Vertex => 1,
            Stage::Hull => 2,
            Stage::Domain => 3,
            Stage::Geometry => 4,
            Stage::Fragment => 5,
            Stage::Compute => 6,
            Stage::RayGeneration => 7,
            Stage::Intersection => 8,
            Stage::AnyHit => 9,
            Stage::ClosestHit => 10,
            Stage::Miss => 11,
            Stage::Callable => 12,
        }
    }

    /// The variant behind a native integer, or `None` for every integer that
    /// is the value of no variant.
    pub open spec fn spec_from_raw(v: u32) -> Option<Stage> {
        if v == 0 {
            Some(Stage::StageNone)
        } else if v == 1 {
            Some(Stage::Vertex)
        } else if v == 2 {
            Some(Stage::Hull)
        } else if v == 3 {
            Some(Stage::Domain)
        } else if v == 4 {
            Some(Stage::Geometry)
        } else if v == 5 {
            Some(Stage::Fragment)
        } else if v == 6 {
            Some(Stage::Compute)
        } else if v == 7 {
            Some(Stage::RayGeneration)
        } else if v == 8 {
            Some(Stage::Intersection)
        } else if v == 9 {
            Some(Stage::AnyHit)
        } else if v == 10 {
            Some(Stage::ClosestHit)
        } else if v == 11 {
            Some(Stage::Miss)
        } else if v == 12 {
            Some(Stage::Callable)
        } else {
            None
        }
    }

    /// Maps a variant to its native integer constant.
    pub fn to_raw(self) -> (r: u32)
        ensures
            r == self.raw_value(),
    {
        match self {
            Stage::StageNone => 0,
            Stage::Vertex => 1,
            Stage::Hull => 2,
            Stage::Domain => 3,
            Stage::Geometry => 4,
            Stage::Fragment => 5,
            Stage::Compute => 6,
            Stage::RayGeneration => 7,
            Stage::Intersection => 8,
            Stage::AnyHit => 9,
            Stage::ClosestHit => 10,
            Stage::Miss => 11,
            Stage::Callable => 12,
        }
    }

    /// Bridges a native integer back to its variant, rejecting every
    /// unrecognized value.
    pub fn from_raw(v: u32) -> (r: Option<Stage>)
        ensures
            r == Stage::spec_from_raw(v),
    {
        if v == 0 {
            Some(Stage::StageNone)
        } else if v == 1 {
            Some(Stage::Vertex)
        } else if v == 2 {
            Some(Stage::Hull)
        } else if v == 3 {
            Some(Stage::Domain)
        } else if v == 4 {
            Some(Stage::Geometry)
        } else if v == 5 {
            Some(Stage::Fragment)
        } else if v == 6 {
            Some(Stage::Compute)
        } else if v == 7 {
            Some(Stage::RayGeneration)
        } else if v == 8 {
            Some(Stage::Intersection)
        } else if v == 9 {
            Some(Stage::AnyHit)
        } else if v == 10 {
            Some(Stage::ClosestHit)
        } else if v == 11 {
            Some(Stage::Miss)
        } else if v == 12 {
            Some(Stage::Callable)
        } else {
            None
        }
    }

    /// Bridging law: a variant round-trips exactly through its native value;
    /// a recognized integer is recovered as the variant whose value it is;
    /// a rejected integer is the value of no variant.
    pub proof fn lemma_raw_bridge(e: Stage, v: u32)
        ensures
            Stage::spec_from_raw(e.raw_value()) == Some(e),
            Stage::spec_from_raw(v) matches Some(t) ==> t.raw_value() == v,
            Stage::spec_from_raw(v) is None ==> e.raw_value() != v,
    {
        match e {
            Stage::StageNone => {},
            Stage::Vertex => {},
            Stage::Hull => {},
            Stage::Domain => {},
            Stage::Geometry => {},
            Stage::Fragment => {},
            Stage::Compute => {},
            Stage::RayGeneration => {},
            Stage::Intersection => {},
            Stage::AnyHit => {},
            Stage::ClosestHit => {},
            Stage::Miss => {},
            Stage::Callable => {},
        }
    }
}

/// The structural kind of a reflected type, mirroring the native
/// `SlangTypeKind` constants.
#[derive(Copy, Clone, Debug, Eq, PartialEq, Hash, Structural)]
pub enum TypeKind {
    KindNone,
    Struct,
    Array,
    Matrix,
    Vector,
    Scalar,
    ConstantBuffer,
    Resource,
    SamplerState,
    TextureBuffer,
    ShaderStorageBuffer,
    ParameterBlock,
    GenericTypeParameter,
    Interface,
    OutputStream,
    Count,
}

impl TypeKind {
    /// The native integer constant behind a variant.
    pub open spec fn raw_value(self) -> u32 {
        match self {
            TypeKind::KindNone => 0,
            TypeKind::Struct => 1,
            TypeKind::Array => 2,
            TypeKind::Matrix => 3,
            TypeKind::Vector => 4,
            TypeKind::Scalar => 5,
            TypeKind::ConstantBuffer => 6,
            TypeKind::Resource => 7,
            TypeKind::SamplerState => 8,
            TypeKind::TextureBuffer => 9,
            TypeKind::ShaderStorageBuffer => 10,
            TypeKind::ParameterBlock => 11,
            TypeKind::GenericTypeParameter => 12,
            TypeKind::Interface => 13,
            TypeKind::OutputStream => 14,
            TypeKind::Count => 15,
        }
    }

    /// The variant behind a native integer, or `None` for every integer that
    /// is the value of no variant.
    pub open spec fn spec_from_raw(v: u32) -> Option<TypeKind> {
        if v == 0 {
            Some(TypeKind::KindNone)
        } else if v == 1 {
            Some(TypeKind::Struct)
        } else if v == 2 {
            Some(TypeKind::Array)
        } else if v == 3 {
            Some(TypeKind::Matrix)
        } else if v == 4 {
            Some(TypeKind::Vector)
        } else if v == 5 {
            Some(TypeKind::Scalar)
        } else if v == 6 {
            Some(TypeKind::ConstantBuffer)
        } else if v == 7 {
            Some(TypeKind::Resource)
        } else if v == 8 {
            Some(TypeKind::SamplerState)
        } else if v == 9 {
            Some(TypeKind::TextureBuffer)
        } else if v == 10 {
            Some(TypeKind::ShaderStorageBuffer)
        } else if v == 11 {
            Some(TypeKind::ParameterBlock)
        } else if v == 12 {
            Some(TypeKind::GenericTypeParameter)
        } else if v == 13 {
            Some(TypeKind::Interface)
        } else if v == 14 {
            Some(TypeKind::OutputStream)
        } else if v == 15 {
            Some(TypeKind::Count)
        } else {
            None
        }
    }

    /// Maps a variant to its native integer constant.
    pub fn to_raw(self) -> (r: u32)
        ensures
            r == self.raw_value(),
    {
        match self {
            TypeKind::KindNone => 0,
            TypeKind::Struct => 1,
            TypeKind::Array => 2,
            TypeKind::Matrix => 3,
            TypeKind::Vector => 4,
            TypeKind::Scalar => 5,
            TypeKind::ConstantBuffer => 6,
            TypeKind::Resource => 7,
            TypeKind::SamplerState => 8,
            TypeKind::TextureBuffer => 9,
            TypeKind::ShaderStorageBuffer => 10,
            TypeKind::ParameterBlock => 11,
            TypeKind::GenericTypeParameter => 12,
            TypeKind::Interface => 13,
            TypeKind::OutputStream => 14,
            TypeKind::Count => 15,
        }
    }

    /// Bridges a native integer back to its variant, rejecting every
    /// unrecognized value.
    pub fn from_raw(v: u32) -> (r: Option<TypeKind>)
        ensures
            r == TypeKind::spec_from_raw(v),
    {
        if v == 0 {
            Some(TypeKind::KindNone)
        } else if v == 1 {
            Some(TypeKind::Struct)
        } else if v == 2 {
            Some(TypeKind::Array)
        } else if v == 3 {
            Some(TypeKind::Matrix)
        } else if v == 4 {
            Some(TypeKind::Vector)
        } else if v == 5 {
            Some(TypeKind::Scalar)
        } else if v == 6 {
            Some(TypeKind::ConstantBuffer)
        } else if v == 7 {
            Some(TypeKind::Resource)
        } else if v == 8 {
            Some(TypeKind::SamplerState)
        } else if v == 9 {
            Some(TypeKind::TextureBuffer)
        } else if v == 10 {
            Some(TypeKind::ShaderStorageBuffer)
        } else if v == 11 {
            Some(TypeKind::ParameterBlock)
        } else if v == 12 {
            Some(TypeKind::GenericTypeParameter)
        } else if v == 13 {
            Some(TypeKind::Interface)
        } else if v == 14 {
            Some(TypeKind::OutputStream)
        } else if v == 15 {
            Some(TypeKind::Count)
        } else {
            None
        }
    }

    /// Bridging law: a variant round-trips exactly through its native value;
    /// a recognized integer is recovered as the variant whose value it is;
    /// a rejected integer is the value of no variant.
    pub proof fn lemma_raw_bridge(e: TypeKind, v: u32)
        ensures
            TypeKind::spec_from_raw(e.raw_value()) == Some(e),
            TypeKind::spec_from_raw(v) matches Some(t) ==> t.raw_value() == v,
            TypeKind::spec_from_raw(v) is None ==> e.raw_value() != v,
    {
        match e {
            TypeKind::KindNone => {},
            TypeKind::Struct => {},
            TypeKind::Array => {},
            TypeKind::Matrix => {},
            TypeKind::Vector => {},
            TypeKind::Scalar => {},
            TypeKind::ConstantBuffer => {},
            TypeKind::Resource => {},
            TypeKind::SamplerState => {},
            TypeKind::TextureBuffer => {},
            TypeKind::ShaderStorageBuffer => {},
            TypeKind::ParameterBlock => {},
            TypeKind::GenericTypeParameter => {},
            TypeKind::Interface => {},
            TypeKind::OutputStream => {},
            TypeKind::Count => {},
        }
    }
}

/// The scalar element type of a reflected type, mirroring the native
/// `SlangScalarType` constants.
#[derive(Copy, Clone, Debug, Eq, PartialEq, Hash, Structural)]
pub enum ScalarType {
    ScalarNone,
    Void,
    Bool,
    Int32,
    Uint32,
    Int64,
    Uint64,
    Float16,
    Float32,
    Float64,
    Int8,
    Uint8,
    Int16,
    Uint16,
}

impl ScalarType {
    /// The native integer constant behind a variant.
    pub open spec fn raw_value(self) -> u32 {
        match self {
            ScalarType::ScalarNone => 0,
            ScalarType::Void => 1,
            ScalarType::Bool => 2,
            ScalarType::Int32 => 3,
            ScalarType::Uint32 => 4,
            ScalarType::Int64 => 5,
            ScalarType::Uint64 => 6,
            ScalarType::Float16 => 7,
            ScalarType::Float32 => 8,
            ScalarType::Float64 => 9,
            ScalarType::Int8 => 10,
            ScalarType::Uint8 => 11,
            ScalarType::Int16 => 12,
            ScalarType::Uint16 => 13,
        }
    }

    /// The variant behind a native integer, or `None` for every integer that
    /// is the value of no variant.
    pub open spec fn spec_from_raw(v: u32) -> Option<ScalarType> {
        if v == 0 {
            Some(ScalarType::ScalarNone)
        } else if v == 1 {
            Some(ScalarType::Void)
        } else if v == 2 {
            Some(ScalarType::Bool)
        } else if v == 3 {
            Some(ScalarType::Int32)
        } else if v == 4 {
            Some(ScalarType::Uint32)
        } else if v == 5 {
            Some(ScalarType::Int64)
        } else if v == 6 {
            Some(ScalarType::Uint64)
        } else if v == 7 {
            Some(ScalarType::Float16)
        } else if v == 8 {
            Some(ScalarType::Float32)
        } else if v == 9 {
            Some(ScalarType::Float64)
        } else if v == 10 {
            Some(ScalarType::Int8)
        } else if v == 11 {
            Some(ScalarType::Uint8)
        } else if v == 12 {
            Some(ScalarType::Int16)
        } else if v == 13 {
            Some(ScalarType::Uint16)
        } else {
            None
        }
    }

    /// Maps a variant to its native integer constant.
    pub fn to_raw(self) -> (r: u32)
        ensures
            r == self.raw_value(),
    {
        match self {
            ScalarType::ScalarNone => 0,
            ScalarType::Void => 1,
            ScalarType::Bool => 2,
            ScalarType::Int32 => 3,
            ScalarType::Uint32 => 4,
            ScalarType::Int64 => 5,
            ScalarType::Uint64 => 6,
            ScalarType::Float16 => 7,
            ScalarType::Float32 => 8,
            ScalarType::Float64 => 9,
            ScalarType::Int8 => 10,
            ScalarType::Uint8 => 11,
            ScalarType::Int16 => 12,
            ScalarType::Uint16 => 13,
        }
    }

    /// Bridges a native integer back to its variant, rejecting every
    /// unrecognized value.
    pub fn from_raw(v: u32) -> (r: Option<ScalarType>)
        ensures
            r == ScalarType::spec_from_raw(v),
    {
        if v == 0 {
            Some(ScalarType::ScalarNone)
        } else if v == 1 {
            Some(ScalarType::Void)
        } else if v == 2 {
            Some(ScalarType::Bool)
        } else if v == 3 {
            Some(ScalarType::Int32)
        } else if v == 4 {
            Some(ScalarType::Uint32)
        } else if v == 5 {
            Some(ScalarType::Int64)
        } else if v == 6 {
            Some(ScalarType::Uint64)
        } else if v == 7 {
            Some(ScalarType::Float16)
        } else if v == 8 {
            Some(ScalarType::Float32)
        } else if v == 9 {
            Some(ScalarType::Float64)
        } else if v == 10 {
            Some(ScalarType::Int8)
        } else if v == 11 {
            Some(ScalarType::Uint8)
        } else if v == 12 {
            Some(ScalarType::Int16)
        } else if v == 13 {
            Some(ScalarType::Uint16)
        } else {
            None
        }
    }

    /// Bridging law: a variant round-trips exactly through its native value;
    /// a recognized integer is recovered as the variant whose value it is;
    /// a rejected integer is the value of no variant.
    pub proof fn lemma_raw_bridge(e: ScalarType, v: u32)
        ensures
            ScalarType::spec_from_raw(e.raw_value()) == Some(e),
            ScalarType::spec_from_raw(v) matches Some(t) ==> t.raw_value() == v,
            ScalarType::spec_from_raw(v) is None ==> e.raw_value() != v,
    {
        match e {
            ScalarType::ScalarNone => {},
            ScalarType::Void => {},
            ScalarType::Bool => {},
            ScalarType::Int32 => {},
            ScalarType::Uint32 => {},
            ScalarType::Int64 => {},
            ScalarType::Uint64 => {},
            ScalarType::Float16 => {},
            ScalarType::Float32 => {},
            ScalarType::Float64 => {},
            ScalarType::Int8 => {},
            ScalarType::Uint8 => {},
            ScalarType::Int16 => {},
            ScalarType::Uint16 => {},
        }
    }
}

/// The shape of a reflected resource, mirroring the native
/// `SlangResourceShape` constants: base shapes in the low bits, the array
/// and multisample flags above them, and the two masks that select each
/// region.
#[derive(Copy, Clone, Debug, Eq, PartialEq, Hash, Structural)]
pub enum ResourceShape {
    ResourceBaseShapeMask,
    ResourceNone,
    Texture1d,
    Texture2d,
    Texture3d,
    TextureCube,
    TextureBuffer,
    StructuredBuffer,
    ByteAddressBuffer,
    ResourceUnknown,
    ResourceExtShapeMask,
    TextureArrayFlag,
    TextureMultisampleFlag,
    Texture1dArray,
    Texture2dArray,
    TextureCubeArray,
    Texture2dMultisample,
    Texture2dMultisampleArray,
}

impl ResourceShape {
    /// The native integer constant behind a variant.
    pub open spec fn raw_value(self) -> u32 {
        match self {
            ResourceShape::ResourceBaseShapeMask => 0x0f,
            ResourceShape::ResourceNone => 0,
            ResourceShape::Texture1d => 1,
            ResourceShape::Texture2d => 2,
            ResourceShape::Texture3d => 3,
            ResourceShape::TextureCube => 4,
            ResourceShape::TextureBuffer => 5,
            ResourceShape::StructuredBuffer => 6,
            ResourceShape::ByteAddressBuffer => 7,
            ResourceShape::ResourceUnknown => 8,
            ResourceShape::ResourceExtShapeMask => 0xf0,
            ResourceShape::TextureArrayFlag => 0x40,
            ResourceShape::TextureMultisampleFlag => 0x80,
            ResourceShape::Texture1dArray => 0x41,
            ResourceShape::Texture2dArray => 0x42,
            ResourceShape::TextureCubeArray => 0x44,
            ResourceShape::Texture2dMultisample => 0x82,
            ResourceShape::Texture2dMultisampleArray => 0xc2,
        }
    }

    /// The variant behind a native integer, or `None` for every integer that
    /// is the value of no variant.
    pub open spec fn spec_from_raw(v: u32) -> Option<ResourceShape> {
        if v == 0x0f {
            Some(ResourceShape::ResourceBaseShapeMask)
        } else if v == 0 {
            Some(ResourceShape::ResourceNone)
        } else if v == 1 {
            Some(ResourceShape::Texture1d)
        } else if v == 2 {
            Some(ResourceShape::Texture2d)
        } else if v == 3 {
            Some(ResourceShape::Texture3d)
        } else if v == 4 {
            Some(ResourceShape::TextureCube)
        } else if v == 5 {
            Some(ResourceShape::TextureBuffer)
        } else if v == 6 {
            Some(ResourceShape::StructuredBuffer)
        } else if v == 7 {
            Some(ResourceShape::ByteAddressBuffer)
        } else if v == 8 {
            Some(ResourceShape::ResourceUnknown)
        } else if v == 0xf0 {
            Some(ResourceShape::ResourceExtShapeMask)
        } else if v == 0x40 {
            Some(ResourceShape::TextureArrayFlag)
        } else if v == 0x80 {
            Some(ResourceShape::TextureMultisampleFlag)
        } else if v == 0x41 {
            Some(ResourceShape::Texture1dArray)
        } else if v == 0x42 {
            Some(ResourceShape::Texture2dArray)
        } else if v == 0x44 {
            Some(ResourceShape::TextureCubeArray)
        } else if v == 0x82 {
            Some(ResourceShape::Texture2dMultisample)
        } else if v == 0xc2 {
            Some(ResourceShape::Texture2dMultisampleArray)
        } else {
            None
        }
    }

    /// Maps a variant to its native integer constant.
    pub fn to_raw(self) -> (r: u32)
        ensures
            r == self.raw_value(),
    {
        match self {
            ResourceShape::ResourceBaseShapeMask => 0x0f,
            ResourceShape::ResourceNone => 0,
            ResourceShape::Texture1d => 1,
            ResourceShape::Texture2d => 2,
            ResourceShape::Texture3d => 3,
            ResourceShape::TextureCube => 4,
            ResourceShape::TextureBuffer => 5,
            ResourceShape::StructuredBuffer => 6,
            ResourceShape::ByteAddressBuffer => 7,
            ResourceShape::ResourceUnknown => 8,
            ResourceShape::ResourceExtShapeMask => 0xf0,
            ResourceShape::TextureArrayFlag => 0x40,
            ResourceShape::TextureMultisampleFlag => 0x80,
            ResourceShape::Texture1dArray => 0x41,
            ResourceShape::Texture2dArray => 0x42,
            ResourceShape::TextureCubeArray => 0x44,
            ResourceShape::Texture2dMultisample => 0x82,
            ResourceShape::Texture2dMultisampleArray => 0xc2,
        }
    }

    /// Bridges a native integer back to its variant, rejecting every
    /// unrecognized value.
    pub fn from_raw(v: u32) -> (r: Option<ResourceShape>)
        ensures
            r == ResourceShape::spec_from_raw(v),
    {
        if v == 0x0f {
            Some(ResourceShape::ResourceBaseShapeMask)
        } else if v == 0 {
            Some(ResourceShape::ResourceNone)
        } else if v == 1 {
            Some(ResourceShape::Texture1d)
        } else if v == 2 {
            Some(ResourceShape::Texture2d)
        } else if v == 3 {
            Some(ResourceShape::Texture3d)
        } else if v == 4 {
            Some(ResourceShape::TextureCube)
        } else if v == 5 {
            Some(ResourceShape::TextureBuffer)
        } else if v == 6 {
            Some(ResourceShape::StructuredBuffer)
        } else if v == 7 {
            Some(ResourceShape::ByteAddressBuffer)
        } else if v == 8 {
            Some(ResourceShape::ResourceUnknown)
        } else if v == 0xf0 {
            Some(ResourceShape::ResourceExtShapeMask)
        } else if v == 0x40 {
            Some(ResourceShape::TextureArrayFlag)
        } else if v == 0x80 {
            Some(ResourceShape::TextureMultisampleFlag)
        } else if v == 0x41 {
            Some(ResourceShape::Texture1dArray)
        } else if v == 0x42 {
            Some(ResourceShape::Texture2dArray)
        } else if v == 0x44 {
            Some(ResourceShape::TextureCubeArray)
        } else if v == 0x82 {
            Some(ResourceShape::Texture2dMultisample)
        } else if v == 0xc2 {
            Some(ResourceShape::Texture2dMultisampleArray)
        } else {
            None
        }
    }

    /// Bridging law: a variant round-trips exactly through its native value;
    /// a recognized integer is recovered as the variant whose value it is;
    /// a rejected integer is the value of no variant.
    pub proof fn lemma_raw_bridge(e: ResourceShape, v: u32)
        ensures
            ResourceShape::spec_from_raw(e.raw_value()) == Some(e),
            ResourceShape::spec_from_raw(v) matches Some(t) ==> t.raw_value() == v,
            ResourceShape::spec_from_raw(v) is None ==> e.raw_value() != v,
    {
        match e {
            ResourceShape::ResourceBaseShapeMask => {},
            ResourceShape::ResourceNone => {},
            ResourceShape::Texture1d => {},
            ResourceShape::Texture2d => {},
            ResourceShape::Texture3d => {},
            ResourceShape::TextureCube => {},
            ResourceShape::TextureBuffer => {},
            ResourceShape::StructuredBuffer => {},
            ResourceShape::ByteAddressBuffer => {},
            ResourceShape::ResourceUnknown => {},
            ResourceShape::ResourceExtShapeMask => {},
            ResourceShape::TextureArrayFlag => {},
            ResourceShape::TextureMultisampleFlag => {},
            ResourceShape::Texture1dArray => {},
            ResourceShape::Texture2dArray => {},
            ResourceShape::TextureCubeArray => {},
            ResourceShape::Texture2dMultisample => {},
            ResourceShape::Texture2dMultisampleArray => {},
        }
    }
}

/// The access granted on a reflected resource, mirroring the native
/// `SlangResourceAccess` constants.
#[derive(Copy, Clone, Debug, Eq, PartialEq, Hash, Structural)]
pub enum ResourceAccess {
    AccessNone,
    Read,
    ReadWrite,
    RasterOrdered,
    Append,
    Consume,
}

impl ResourceAccess {
    /// The native integer constant behind a variant.
    pub open spec fn raw_value(self) -> u32 {
        match self {
            ResourceAccess::AccessNone => 0,
            ResourceAccess::Read => 1,
            ResourceAccess::ReadWrite => 2,
            ResourceAccess::RasterOrdered => 3,
            ResourceAccess::Append => 4,
            ResourceAccess::Consume => 5,
        }
    }

    /// The variant behind a native integer, or `None` for every integer that
    /// is the value of no variant.
    pub open spec fn spec_from_raw(v: u32) -> Option<ResourceAccess> {
        if v == 0 {
            Some(ResourceAccess::AccessNone)
        } else if v == 1 {
            Some(ResourceAccess::Read)
        } else if v == 2 {
            Some(ResourceAccess::ReadWrite)
        } else if v == 3 {
            Some(ResourceAccess::RasterOrdered)
        } else if v == 4 {
            Some(ResourceAccess::Append)
        } else if v == 5 {
            Some(ResourceAccess::Consume)
        } else {
            None
        }
    }

    /// Maps a variant to its native integer constant.
    pub fn to_raw(self) -> (r: u32)
        ensures
            r == self.raw_value(),
    {
        match self {
            ResourceAccess::AccessNone => 0,
            ResourceAccess::Read => 1,
            ResourceAccess::ReadWrite => 2,
            ResourceAccess::RasterOrdered => 3,
            ResourceAccess::Append => 4,
            ResourceAccess::Consume => 5,
        }
    }

    /// Bridges a native integer back to its variant, rejecting every
    /// unrecognized value.
    pub fn from_raw(v: u32) -> (r: Option<ResourceAccess>)
        ensures
            r == ResourceAccess::spec_from_raw(v),
    {
        if v == 0 {
            Some(ResourceAccess::AccessNone)
        } else if v == 1 {
            Some(ResourceAccess::Read)
        } else if v == 2 {
            Some(ResourceAccess::ReadWrite)
        } else if v == 3 {
            Some(ResourceAccess::RasterOrdered)
        } else if v == 4 {
            Some(ResourceAccess::Append)
        } else if v == 5 {
            Some(ResourceAccess::Consume)
        } else {
            None
        }
    }

    /// Bridging law: a variant round-trips exactly through its native value;
    /// a recognized integer is recovered as the variant whose value it is;
    /// a rejected integer is the value of no variant.
    pub proof fn lemma_raw_bridge(e: ResourceAccess, v: u32)
        ensures
            ResourceAccess::spec_from_raw(e.raw_value()) == Some(e),
            ResourceAccess::spec_from_raw(v) matches Some(t) ==> t.raw_value() == v,
            ResourceAccess::spec_from_raw(v) is None ==> e.raw_value() != v,
    {
        match e {
            ResourceAccess::AccessNone => {},
            ResourceAccess::Read => {},
            ResourceAccess::ReadWrite => {},
            ResourceAccess::RasterOrdered => {},
            ResourceAccess::Append => {},
            ResourceAccess::Consume => {},
        }
    }
}

/// How a shader parameter consumes binding resources, mirroring the native
/// `SlangParameterCategory` constants. One variable may occupy several
/// categories at once; every category-parameterized query names one of
/// these.
#[derive(Copy, Clone, Debug, Eq, PartialEq, Hash, Structural)]
pub enum ParameterCategory {
    CategoryNone,
    Mixed,
    ConstantBuffer,
    ShaderResource,
    UnorderedAccess,
    VaryingInput,
    VaryingOutput,
    SamplerState,
    Uniform,
    DescriptorTableSlot,
    SpecializationConstant,
    PushConstantBuffer,
    RegisterSpace,
    Generic,
    RayPayload,
    HitAttributes,
    CallablePayload,
    ShaderRecord,
    Count,
}

impl ParameterCategory {
    /// The native integer constant behind a variant.
    pub open spec fn raw_value(self) -> u32 {
        match self {
            ParameterCategory::CategoryNone => 0,
            ParameterCategory::Mixed => 1,
            ParameterCategory::ConstantBuffer => 2,
            ParameterCategory::ShaderResource => 3,
            ParameterCategory::UnorderedAccess => 4,
            ParameterCategory::VaryingInput => 5,
            ParameterCategory::VaryingOutput => 6,
            ParameterCategory::SamplerState => 7,
            ParameterCategory::Uniform => 8,
            ParameterCategory::DescriptorTableSlot => 9,
            ParameterCategory::SpecializationConstant => 10,
            ParameterCategory::PushConstantBuffer => 11,
            ParameterCategory::RegisterSpace => 12,
            ParameterCategory::Generic => 13,
            ParameterCategory::RayPayload => 14,
            ParameterCategory::HitAttributes => 15,
            ParameterCategory::CallablePayload => 16,
            ParameterCategory::ShaderRecord => 17,
            ParameterCategory::Count => 18,
        }
    }

    /// The variant behind a native integer, or `None` for every integer that
    /// is the value of no variant.
    pub open spec fn spec_from_raw(v: u32) -> Option<ParameterCategory> {
        if v == 0 {
            Some(ParameterCategory::CategoryNone)
        } else if v == 1 {
            Some(ParameterCategory::Mixed)
        } else if v == 2 {
            Some(ParameterCategory::ConstantBuffer)
        } else if v == 3 {
            Some(ParameterCategory::ShaderResource)
        } else if v == 4 {
            Some(ParameterCategory::UnorderedAccess)
        } else if v == 5 {
            Some(ParameterCategory::VaryingInput)
        } else if v == 6 {
            Some(ParameterCategory::VaryingOutput)
        } else if v == 7 {
            Some(ParameterCategory::SamplerState)
        } else if v == 8 {
            Some(ParameterCategory::Uniform)
        } else if v == 9 {
            Some(ParameterCategory::DescriptorTableSlot)
        } else if v == 10 {
            Some(ParameterCategory::SpecializationConstant)
        } else if v == 11 {
            Some(ParameterCategory::PushConstantBuffer)
        } else if v == 12 {
            Some(ParameterCategory::RegisterSpace)
        } else if v == 13 {
            Some(ParameterCategory::Generic)
        } else if v == 14 {
            Some(ParameterCategory::RayPayload)
        } else if v == 15 {
            Some(ParameterCategory::HitAttributes)
        } else if v == 16 {
            Some(ParameterCategory::CallablePayload)
        } else if v == 17 {
            Some(ParameterCategory::ShaderRecord)
        } else if v == 18 {
            Some(ParameterCategory::Count)
        } else {
            None
        }
    }

    /// Maps a variant to its native integer constant.
    pub fn to_raw(self) -> (r: u32)
        ensures
            r == self.raw_value(),
    {
        match self {
            ParameterCategory::CategoryNone => 0,
            ParameterCategory::Mixed => 1,
            ParameterCategory::ConstantBuffer => 2,
            ParameterCategory::ShaderResource => 3,
            ParameterCategory::UnorderedAccess => 4,
            ParameterCategory::VaryingInput => 5,
            ParameterCategory::VaryingOutput => 6,
            ParameterCategory::SamplerState => 7,
            ParameterCategory::Uniform => 8,
            ParameterCategory::DescriptorTableSlot => 9,
            ParameterCategory::SpecializationConstant => 10,
            ParameterCategory::PushConstantBuffer => 11,
            ParameterCategory::RegisterSpace => 12,
            ParameterCategory::Generic => 13,
            ParameterCategory::RayPayload => 14,
            ParameterCategory::HitAttributes => 15,
            ParameterCategory::CallablePayload => 16,
            ParameterCategory::ShaderRecord => 17,
            ParameterCategory::Count => 18,
        }
    }

    /// Bridges a native integer back to its variant, rejecting every
    /// unrecognized value.
    pub fn from_raw(v: u32) -> (r: Option<ParameterCategory>)
        ensures
            r == ParameterCategory::spec_from_raw(v),
    {
        if v == 0 {
            Some(ParameterCategory::CategoryNone)
        } else if v == 1 {
            Some(ParameterCategory::Mixed)
        } else if v == 2 {
            Some(ParameterCategory::ConstantBuffer)
        } else if v == 3 {
            Some(ParameterCategory::ShaderResource)
        } else if v == 4 {
            Some(ParameterCategory::UnorderedAccess)
        } else if v == 5 {
            Some(ParameterCategory::VaryingInput)
        } else if v == 6 {
            Some(ParameterCategory::VaryingOutput)
        } else if v == 7 {
            Some(ParameterCategory::SamplerState)
        } else if v == 8 {
            Some(ParameterCategory::Uniform)
        } else if v == 9 {
            Some(ParameterCategory::DescriptorTableSlot)
        } else if v == 10 {
            Some(ParameterCategory::SpecializationConstant)
        } else if v == 11 {
            Some(ParameterCategory::PushConstantBuffer)
        } else if v == 12 {
            Some(ParameterCategory::RegisterSpace)
        } else if v == 13 {
            Some(ParameterCategory::Generic)
        } else if v == 14 {
            Some(ParameterCategory::RayPayload)
        } else if v == 15 {
            Some(ParameterCategory::HitAttributes)
        } else if v == 16 {
            Some(ParameterCategory::CallablePayload)
        } else if v == 17 {
            Some(ParameterCategory::ShaderRecord)
        } else if v == 18 {
            Some(ParameterCategory::Count)
        } else {
            None
        }
    }

    /// Bridging law: a variant round-trips exactly through its native value;
    /// a recognized integer is recovered as the variant whose value it is;
    /// a rejected integer is the value of no variant.
    pub proof fn lemma_raw_bridge(e: ParameterCategory, v: u32)
        ensures
            ParameterCategory::spec_from_raw(e.raw_value()) == Some(e),
            ParameterCategory::spec_from_raw(v) matches Some(t) ==> t.raw_value() == v,
            ParameterCategory::spec_from_raw(v) is None ==> e.raw_value() != v,
    {
        match e {
            ParameterCategory::CategoryNone => {},
            ParameterCategory::Mixed => {},
            ParameterCategory::ConstantBuffer => {},
            ParameterCategory::ShaderResource => {},
            ParameterCategory::UnorderedAccess => {},
            ParameterCategory::VaryingInput => {},
            ParameterCategory::VaryingOutput => {},
            ParameterCategory::SamplerState => {},
            ParameterCategory::Uniform => {},
            ParameterCategory::DescriptorTableSlot => {},
            ParameterCategory::SpecializationConstant => {},
            ParameterCategory::PushConstantBuffer => {},
            ParameterCategory::RegisterSpace => {},
            ParameterCategory::Generic => {},
            ParameterCategory::RayPayload => {},
            ParameterCategory::HitAttributes => {},
            ParameterCategory::CallablePayload => {},
            ParameterCategory::ShaderRecord => {},
            ParameterCategory::Count => {},
        }
    }
}

/// The matrix storage order assigned by a layout, mirroring the native
/// `SlangMatrixLayoutMode` constants.
#[derive(Copy, Clone, Debug, Eq, PartialEq, Hash, Structural)]
pub enum MatrixLayoutMode {
    Unknown,
    RowMajor,
    ColumnMajor,
}

impl MatrixLayoutMode {
    /// The native integer constant behind a variant.
    pub open spec fn raw_value(self) -> u32 {
        match self {
            MatrixLayoutMode::Unknown => 0,
            MatrixLayoutMode::RowMajor => 1,
            MatrixLayoutMode::ColumnMajor => 2,
        }
    }

    /// The variant behind a native integer, or `None` for every integer that
    /// is the value of no variant.
    pub open spec fn spec_from_raw(v: u32) -> Option<MatrixLayoutMode> {
        if v == 0 {
            Some(MatrixLayoutMode::Unknown)
        } else if v == 1 {
            Some(MatrixLayoutMode::RowMajor)
        } else if v == 2 {
            Some(MatrixLayoutMode::ColumnMajor)
        } else {
            None
        }
    }

    /// Maps a variant to its native integer constant.
    pub fn to_raw(self) -> (r: u32)
        ensures
            r == self.raw_value(),
    {
        match self {
            MatrixLayoutMode::Unknown => 0,
            MatrixLayoutMode::RowMajor => 1,
            MatrixLayoutMode::ColumnMajor => 2,
        }
    }

    /// Bridges a native integer back to its variant, rejecting every
    /// unrecognized value.
    pub fn from_raw(v: u32) -> (r: Option<MatrixLayoutMode>)
        ensures
            r == MatrixLayoutMode::spec_from_raw(v),
    {
        if v == 0 {
            Some(MatrixLayoutMode::Unknown)
        } else if v == 1 {
            Some(MatrixLayoutMode::RowMajor)
        } else if v == 2 {
            Some(MatrixLayoutMode::ColumnMajor)
        } else {
            None
        }
    }

    /// Bridging law: a variant round-trips exactly through its native value;
    /// a recognized integer is recovered as the variant whose value it is;
    /// a rejected integer is the value of no variant.
    pub proof fn lemma_raw_bridge(e: MatrixLayoutMode, v: u32)
        ensures
            MatrixLayoutMode::spec_from_raw(e.raw_value()) == Some(e),
            MatrixLayoutMode::spec_from_raw(v) matches Some(t) ==> t.raw_value() == v,
            MatrixLayoutMode::spec_from_raw(v) is None ==> e.raw_value() != v,
    {
        match e {
            MatrixLayoutMode::Unknown => {},
            MatrixLayoutMode::RowMajor => {},
            MatrixLayoutMode::ColumnMajor => {},
        }
    }
}

/// The rules under which a type layout is computed, mirroring the native
/// `SlangLayoutRules` constants.
#[derive(Copy, Clone, Debug, Eq, PartialEq, Hash, Structural)]
pub enum LayoutRules {
    Default,
}

impl LayoutRules {
    /// The native integer constant behind a variant.
    pub open spec fn raw_value(self) -> u32 {
        match self {
            LayoutRules::Default => 0,
        }
    }

    /// The variant behind a native integer, or `None` for every integer that
    /// is the value of no variant.
    pub open spec fn spec_from_raw(v: u32) -> Option<LayoutRules> {
        if v == 0 {
            Some(LayoutRules::Default)
        } else {
            None
        }
    }

    /// Maps a variant to its native integer constant.
    pub fn to_raw(self) -> (r: u32)
        ensures
            r == self.raw_value(),
    {
        match self {
            LayoutRules::Default => 0,
        }
    }

    /// Bridges a native integer back to its variant, rejecting every
    /// unrecognized value.
    pub fn from_raw(v: u32) -> (r: Option<LayoutRules>)
        ensures
            r == LayoutRules::spec_from_raw(v),
    {
        if v == 0 {
            Some(LayoutRules::Default)
        } else {
            None
        }
    }

    /// Bridging law: a variant round-trips exactly through its native value;
    /// a recognized integer is recovered as the variant whose value it is;
    /// a rejected integer is the value of no variant.
    pub proof fn lemma_raw_bridge(e: LayoutRules, v: u32)
        ensures
            LayoutRules::spec_from_raw(e.raw_value()) == Some(e),
            LayoutRules::spec_from_raw(v) matches Some(t) ==> t.raw_value() == v,
            LayoutRules::spec_from_raw(v) is None ==> e.raw_value() != v,
    {
        match e {
            LayoutRules::Default => {},
        }
    }
}

/// A declaration modifier that reflection can report on a variable,
/// mirroring the native `SlangModifierID` constants.
#[derive(Copy, Clone, Debug, Eq, PartialEq, Hash, Structural)]
pub enum Modifier {
    Shared,
}

impl Modifier {
    /// The native integer constant behind a variant.
    pub open spec fn raw_value(self) -> u32 {
        match self {
            Modifier::Shared => 0,
        }
    }

    /// The variant behind a native integer, or `None` for every integer that
    /// is the value of no variant.
    pub open spec fn spec_from_raw(v: u32) -> Option<Modifier> {
        if v == 0 {
            Some(Modifier::Shared)
        } else {
            None
        }
    }

    /// Maps a variant to its native integer constant.
    pub fn to_raw(self) -> (r: u32)
        ensures
            r == self.raw_value(),
    {
        match self {
            Modifier::Shared => 0,
        }
    }

    /// Bridges a native integer back to its variant, rejecting every
    /// unrecognized value.
    pub fn from_raw(v: u32) -> (r: Option<Modifier>)
        ensures
            r == Modifier::spec_from_raw(v),
    {
        if v == 0 {
            Some(Modifier::Shared)
        } else {
            None
        }
    }

    /// Bridging law: a variant round-trips exactly through its native value;
    /// a recognized integer is recovered as the variant whose value it is;
    /// a rejected integer is the value of no variant.
    pub proof fn lemma_raw_bridge(e: Modifier, v: u32)
        ensures
            Modifier::spec_from_raw(e.raw_value()) == Some(e),
            Modifier::spec_from_raw(v) matches Some(t) ==> t.raw_value() == v,
            Modifier::spec_from_raw(v) is None ==> e.raw_value() != v,
    {
        match e {
            Modifier::Shared => {},
        }
    }
}

} // verus!


