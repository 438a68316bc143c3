//! Traversal of the reflection graph: count-then-index enumeration, name
//! lookups, and category-parameterized binding queries.

use slang::enums::MatrixLayoutMode;
use slang::enums::ParameterCategory;
use slang::enums::ResourceAccess;
use slang::enums::ResourceShape;
use slang::enums::ScalarType;
use slang::enums::Stage;
use slang::enums::TypeKind;
use slang::reflection::CategoryAmount;
use slang::reflection::CategoryOffset;
use slang::reflection::Reflection;
use slang::reflection::ReflectionEntryPoint;
use slang::reflection::ReflectionType;
use slang::reflection::ReflectionTypeLayout;
use slang::reflection::ReflectionTypeParameter;
use slang::reflection::ReflectionUserAttribute;
use slang::reflection::ReflectionVariable;
use slang::reflection::ReflectionVariableLayout;

fn scalar_type(name: &str, scalar: ScalarType) -> ReflectionType {
    ReflectionType {
        name: Some(String::from(name)),
        kind: TypeKind::Scalar,
        user_attributes: Vec::new(),
        fields: Vec::new(),
        element_count: 0,
        element_type: None,
        row_count: 1,
        column_count: 1,
        scalar_type: scalar,
        resource_shape: ResourceShape::ResourceNone,
        resource_access: ResourceAccess::AccessNone,
        resource_result_type: None,
    }
}

fn scalar_layout(name: &str, scalar: ScalarType) -> ReflectionTypeLayout {
    ReflectionTypeLayout {
        ty: scalar_type(name, scalar),
        sizes: vec![CategoryAmount {
            category: ParameterCategory::Uniform,
            amount: 4,
        }],
        fields: Vec::new(),
        element_strides: Vec::new(),
        element_type_layout: None,
        element_var_layout: None,
        parameter_category: ParameterCategory::Uniform,
        categories: vec![ParameterCategory::Uniform],
        matrix_layout_mode: MatrixLayoutMode::Unknown,
        generic_param_index: None,
    }
}

fn variable_layout(name: &str, offsets: Vec<CategoryOffset>) -> ReflectionVariableLayout {
    ReflectionVariableLayout {
        variable: ReflectionVariable {
            name: String::from(name),
            ty: scalar_type("float", ScalarType::Float32),
            user_attributes: Vec::new(),
        },
        type_layout: scalar_layout("float", ScalarType::Float32),
        offsets,
        semantic_name: None,
        semantic_index: 0,
        stage: Stage::StageNone,
        binding_index: 0,
        binding_space: 0,
    }
}

fn graph_with_two_parameters() -> Reflection {
    Reflection {
        parameters: vec![
            variable_layout("alpha", Vec::new()),
            variable_layout("beta", Vec::new()),
        ],
        type_parameters: vec![
            ReflectionTypeParameter {
                name: String::from("T"),
            },
            ReflectionTypeParameter {
                name: String::from("U"),
            },
        ],
        entry_points: vec![ReflectionEntryPoint {
            name: String::from("main"),
            stage: Stage::Fragment,
            parameters: vec![variable_layout("uv", Vec::new())],
            compute_thread_group_size: (1, 1, 1),
        }],
        types: vec![
            scalar_type("float", ScalarType::Float32),
            scalar_type("int", ScalarType::Int32),
        ],
        global_constant_buffer_binding: 2,
        global_constant_buffer_size: 64,
    }
}

#[test]
fn count_then_index_enumerates_exactly_once() {
    let graph = graph_with_two_parameters();
    assert_eq!(graph.parameter_count(), 2);
    let mut seen: Vec<String> = Vec::new();
    for i in 0..graph.parameter_count() {
        seen.push(graph.parameter_by_index(i).variable().name().to_string());
    }
    assert_eq!(seen, ["alpha", "beta"]);

    let all = graph.parameters();
    assert_eq!(all.len(), 2);
    assert_eq!(all[0].variable().name(), "alpha");
    assert_eq!(all[1].variable().name(), "beta");

    assert_eq!(graph.type_parameter_count(), 2);
    assert_eq!(graph.type_parameters().len(), 2);
    assert_eq!(graph.entry_point_count(), 1);
    assert_eq!(graph.entry_points().len(), 1);
    assert_eq!(graph.entry_point_by_index(0).name(), "main");
}

#[test]
fn name_lookups_hit_and_miss() {
    let graph = graph_with_two_parameters();
    assert_eq!(graph.find_entry_point_by_name("main").unwrap().stage(), Stage::Fragment);
    assert!(graph.find_entry_point_by_name("absent").is_none());
    assert_eq!(graph.find_type_parameter_by_name("U").unwrap().name, "U");
    assert!(graph.find_type_parameter_by_name("V").is_none());
    let float_type = graph.find_type_by_name("float").unwrap();
    assert_eq!(float_type.kind(), TypeKind::Scalar);
    assert_eq!(float_type.scalar_type(), ScalarType::Float32);
    assert!(graph.find_type_by_name("double").is_none());
}

#[test]
fn global_constant_buffer_queries() {
    let graph = graph_with_two_parameters();
    assert_eq!(graph.global_constant_buffer_binding(), 2);
    assert_eq!(graph.global_constant_buffer_size(), 64);
}

#[test]
fn per_category_bindings_are_independent() {
    // One variable bound under two parameter categories at once: each
    // category must answer its own offset and space, untouched by the
    // other.
    let vl = variable_layout(
        "texture_with_table_slot",
        vec![
            CategoryOffset {
                category: ParameterCategory::ShaderResource,
                offset: 3,
                space: 1,
            },
            CategoryOffset {
                category: ParameterCategory::DescriptorTableSlot,
                offset: 7,
                space: 2,
            },
        ],
    );
    assert_eq!(vl.offset(ParameterCategory::ShaderResource), 3);
    assert_eq!(vl.space(ParameterCategory::ShaderResource), 1);
    assert_eq!(vl.offset(ParameterCategory::DescriptorTableSlot), 7);
    assert_eq!(vl.space(ParameterCategory::DescriptorTableSlot), 2);
    // A category the variable does not occupy reports the zero location.
    assert_eq!(vl.offset(ParameterCategory::Uniform), 0);
    assert_eq!(vl.space(ParameterCategory::Uniform), 0);
}

#[test]
fn type_layout_sizes_are_per_category() {
    let mut layout = scalar_layout("float", ScalarType::Float32);
    layout.sizes = vec![
        CategoryAmount {
            category: ParameterCategory::Uniform,
            amount: 16,
        },
        CategoryAmount {
            category: ParameterCategory::ShaderResource,
            amount: 1,
        },
    ];
    layout.element_strides = vec![CategoryAmount {
        category: ParameterCategory::Uniform,
        amount: 16,
    }];
    assert_eq!(layout.size(ParameterCategory::Uniform), 16);
    assert_eq!(layout.size(ParameterCategory::ShaderResource), 1);
    assert_eq!(layout.size(ParameterCategory::SamplerState), 0);
    assert_eq!(layout.element_stride(ParameterCategory::Uniform), 16);
    assert_eq!(layout.element_stride(ParameterCategory::ShaderResource), 0);
    assert_eq!(layout.parameter_category(), ParameterCategory::Uniform);
    assert_eq!(layout.parameter_category_count(), 1);
    assert_eq!(
        layout.parameter_category_by_index(0),
        ParameterCategory::Uniform
    );
    assert_eq!(layout.matrix_layout_mode(), MatrixLayoutMode::Unknown);
    assert_eq!(layout.generic_param_index(), None);
}

#[test]
fn struct_fields_traverse_through_layout_and_type() {
    let field_x = ReflectionVariable {
        name: String::from("x"),
        ty: scalar_type("float", ScalarType::Float32),
        user_attributes: Vec::new(),
    };
    let field_y = ReflectionVariable {
        name: String::from("y"),
        ty: scalar_type("int", ScalarType::Int32),
        user_attributes: Vec::new(),
    };
    let struct_type = ReflectionType {
        name: Some(String::from("Pair")),
        kind: TypeKind::Struct,
        user_attributes: vec![ReflectionUserAttribute {
            name: String::from("packed"),
        }],
        fields: vec![field_x, field_y],
        element_count: 0,
        element_type: None,
        row_count: 0,
        column_count: 0,
        scalar_type: ScalarType::ScalarNone,
        resource_shape: ResourceShape::ResourceNone,
        resource_access: ResourceAccess::AccessNone,
        resource_result_type: None,
    };
    let layout = ReflectionTypeLayout {
        fields: vec![
            variable_layout("x", Vec::new()),
            variable_layout("y", Vec::new()),
        ],
        ty: struct_type,
        sizes: Vec::new(),
        element_strides: Vec::new(),
        element_type_layout: None,
        element_var_layout: None,
        parameter_category: ParameterCategory::Uniform,
        categories: vec![ParameterCategory::Uniform],
        matrix_layout_mode: MatrixLayoutMode::RowMajor,
        generic_param_index: None,
    };

    // The layout's field count is delegated to the underlying type.
    assert_eq!(layout.field_count(), 2);
    assert_eq!(layout.field_by_index(0).variable().name(), "x");
    assert_eq!(layout.fields().len(), 2);
    assert_eq!(layout.ty().field_count(), 2);
    assert_eq!(layout.ty().field_by_index(1).name(), "y");
    assert_eq!(layout.ty().fields().len(), 2);
    assert_eq!(
        layout.ty().field_by_index(1).ty().scalar_type(),
        ScalarType::Int32
    );

    let attr = layout.ty().user_attribute_by_index(0);
    assert_eq!(attr.name, "packed");
    assert_eq!(layout.ty().user_attribute_count(), 1);
    assert!(layout
        .ty()
        .find_user_attribute_by_name("packed")
        .is_some());
    assert!(layout
        .ty()
        .find_user_attribute_by_name("missing")
        .is_none());
}

#[test]
fn variable_attribute_index_is_total() {
    let var = ReflectionVariable {
        name: String::from("decorated"),
        ty: scalar_type("float", ScalarType::Float32),
        user_attributes: vec![ReflectionUserAttribute {
            name: String::from("hint"),
        }],
    };
    assert_eq!(var.user_attribute_count(), 1);
    assert!(var.user_attribute_by_index(0).is_some());
    assert!(var.user_attribute_by_index(1).is_none());
}

#[test]
fn array_type_reports_element_structure() {
    let element = scalar_type("float", ScalarType::Float32);
    let array_type = ReflectionType {
        name: None,
        kind: TypeKind::Array,
        user_attributes: Vec::new(),
        fields: Vec::new(),
        element_count: 4,
        element_type: Some(Box::new(element)),
        row_count: 0,
        column_count: 0,
        scalar_type: ScalarType::ScalarNone,
        resource_shape: ResourceShape::ResourceNone,
        resource_access: ResourceAccess::AccessNone,
        resource_result_type: None,
    };
    assert_eq!(array_type.kind(), TypeKind::Array);
    assert_eq!(array_type.element_count(), 4);
    assert!(array_type.name().is_none());
    let element = array_type.element_type().unwrap();
    assert_eq!(element.name(), Some("float"));
    assert_eq!(element.scalar_type(), ScalarType::Float32);
    assert!(array_type.resource_result_type().is_none());

    let mut array_layout = scalar_layout("float4", ScalarType::ScalarNone);
    array_layout.element_type_layout =
        Some(Box::new(scalar_layout("float", ScalarType::Float32)));
    let inner = array_layout.element_type_layout().unwrap();
    assert_eq!(inner.ty().name(), Some("float"));
    assert!(array_layout.element_var_layout().is_none());
}

#[test]
fn resource_type_reports_shape_and_access() {
    let result = scalar_type("float", ScalarType::Float32);
    let texture = ReflectionType {
        name: Some(String::from("Texture2D")),
        kind: TypeKind::Resource,
        user_attributes: Vec::new(),
        fields: Vec::new(),
        element_count: 0,
        element_type: None,
        row_count: 0,
        column_count: 0,
        scalar_type: ScalarType::ScalarNone,
        resource_shape: ResourceShape::Texture2d,
        resource_access: ResourceAccess::Read,
        resource_result_type: Some(Box::new(result)),
    };
    assert_eq!(texture.resource_shape(), ResourceShape::Texture2d);
    assert_eq!(texture.resource_access(), ResourceAccess::Read);
    assert_eq!(
        texture.resource_result_type().unwrap().scalar_type(),
        ScalarType::Float32
    );
}

#[test]
fn entry_point_parameters_and_semantics() {
    let mut param = variable_layout("color", Vec::new());
    param.semantic_name = Some(String::from("SV_Target"));
    param.semantic_index = 0;
    param.stage = Stage::Fragment;
    let ep = ReflectionEntryPoint {
        name: String::from("ps_main"),
        stage: Stage::Fragment,
        parameters: vec![param],
        compute_thread_group_size: (1, 1, 1),
    };
    assert_eq!(ep.name(), "ps_main");
    assert_eq!(ep.stage(), Stage::Fragment);
    assert_eq!(ep.parameter_count(), 1);
    let p = ep.parameter_by_index(0);
    assert_eq!(p.semantic_name(), Some("SV_Target"));
    assert_eq!(p.semantic_index(), 0);
    assert_eq!(p.stage(), Stage::Fragment);
    assert_eq!(p.binding_index(), 0);
    assert_eq!(p.binding_space(), 0);
    assert_eq!(ep.parameters().len(), 1);
    assert_eq!(p.type_layout().ty().name(), Some("float"));
    assert_eq!(p.variable().ty().kind(), TypeKind::Scalar);
}
