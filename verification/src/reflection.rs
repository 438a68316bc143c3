//! The reflection graph.
//!
//! After a successful compile the native component describes the program's
//! types and parameter bindings through a read-only query graph. This module
//! holds that graph as plain data: every node kind is a struct of plain
//! values and child collections, and every collection obeys the one uniform
//! traversal contract — `count()` first, then `by_index(i)` for
//! `0 <= i < count()`, where an out-of-range index is a precondition
//! violation rather than a checked error, because the native layer performs
//! no bounds checking of its own.
//!
//! Binding-location and size queries are parameterized by a
//! [`ParameterCategory`], because one variable may occupy several binding
//! categories at once; each category is answered independently.

use vstd::prelude::*;

use crate::enums::MatrixLayoutMode;
use crate::enums::ParameterCategory;
use crate::enums::ResourceAccess;
use crate::enums::ResourceShape;
use crate::enums::ScalarType;
use crate::enums::Stage;
use crate::enums::TypeKind;

verus! {

/// The binding location a variable layout holds under one parameter
/// category: the offset and the register space for that category alone.
#[derive(Copy, Clone, Debug, Eq, PartialEq, Structural)]
pub struct CategoryOffset {
    /// The category this location belongs to.
    pub category: ParameterCategory,
    /// The offset within that category's binding range.
    pub offset: usize,
    /// The register space used for that category.
    pub space: usize,
}

/// A per-category measure of a type layout: the size it occupies, or the
/// stride between elements, under one parameter category.
#[derive(Copy, Clone, Debug, Eq, PartialEq, Structural)]
pub struct CategoryAmount {
    /// The category this measure belongs to.
    pub category: ParameterCategory,
    /// The size or stride under that category.
    pub amount: usize,
}

/// The offset recorded for `cat` among `entries`: the first entry of that
/// category, or 0 when the category is not occupied, matching what the
/// native query reports for an absent category.
pub open spec fn spec_offset_in(entries: Seq<CategoryOffset>, cat: ParameterCategory) -> usize
    decreases entries.len(),
{
    if entries.len() == 0 {
        0
    } else if entries[0].category == cat {
        entries[0].offset
    } else {
        spec_offset_in(entries.drop_first(), cat)
    }
}

/// The register space recorded for `cat` among `entries`, 0 when the
/// category is not occupied.
pub open spec fn spec_space_in(entries: Seq<CategoryOffset>, cat: ParameterCategory) -> usize
    decreases entries.len(),
{
    if entries.len() == 0 {
        0
    } else if entries[0].category == cat {
        entries[0].space
    } else {
        spec_space_in(entries.drop_first(), cat)
    }
}

/// The amount recorded for `cat` among `entries`, 0 when the category is
/// not occupied.
pub open spec fn spec_amount_in(entries: Seq<CategoryAmount>, cat: ParameterCategory) -> usize
    decreases entries.len(),
{
    if entries.len() == 0 {
        0
    } else if entries[0].category == cat {
        entries[0].amount
    } else {
        spec_amount_in(entries.drop_first(), cat)
    }
}

/// True when no two entries claim the same parameter category, so each
/// category has one well-defined binding location.
pub open spec fn offset_categories_distinct(entries: Seq<CategoryOffset>) -> bool {
    forall|i: int, j: int|
        0 <= i < j < entries.len() ==> entries[i].category != entries[j].category
}

/// Per-category independence: when the entries claim pairwise distinct
/// categories, querying entry `i`'s category answers exactly entry `i`'s
/// offset and space, untouched by every other entry. A variable occupying
/// several binding categories therefore reports each category's location
/// independently and correctly.
pub proof fn lemma_category_lookup_independent(entries: Seq<CategoryOffset>, i: int)
    requires
        offset_categories_distinct(entries),
        0 <= i < entries.len(),
    ensures
        spec_offset_in(entries, entries[i].category) == entries[i].offset,
        spec_space_in(entries, entries[i].category) == entries[i].space,
    decreases i,
{
    if i == 0 {
    } else {
        assert(entries[0].category != entries[i].category);
        assert(offset_categories_distinct(entries.drop_first())) by {
            assert forall|p: int, q: int|
                0 <= p < q < entries.drop_first().len() implies entries.drop_first()[p].category
                != entries.drop_first()[q].category by {
                assert(entries.drop_first()[p] == entries[p + 1]);
                assert(entries.drop_first()[q] == entries[q + 1]);
            }
        }
        assert(entries.drop_first()[i - 1] == entries[i]);
        lemma_category_lookup_independent(entries.drop_first(), i - 1);
    }
}

/// Looks up the offset recorded for `cat`, walking the entries in order.
fn lookup_offset(entries: &Vec<CategoryOffset>, cat: ParameterCategory) -> (r: usize)
    ensures
        r == spec_offset_in(entries@, cat),
{
    let mut i: usize = 0;
    assert(entries@.skip(0) =~= entries@);
    while i < entries.len()
        invariant
            0 <= i <= entries@.len(),
            spec_offset_in(entries@, cat) == spec_offset_in(entries@.skip(i as int), cat),
        decreases entries@.len() - i,
    {
        assert(entries@.skip(i as int)[0] == entries@[i as int]);
        if entries[i].category == cat {
            return entries[i].offset;
        }
        assert(entries@.skip(i as int).drop_first() =~= entries@.skip(i as int + 1));
        i = i + 1;
    }
    assert(entries@.skip(i as int) =~= Seq::<CategoryOffset>::empty());
    0
}

/// Looks up the register space recorded for `cat`.
fn lookup_space(entries: &Vec<CategoryOffset>, cat: ParameterCategory) -> (r: usize)
    ensures
        r == spec_space_in(entries@, cat),
{
    let mut i: usize = 0;
    assert(entries@.skip(0) =~= entries@);
    while i < entries.len()
        invariant
            0 <= i <= entries@.len(),
            spec_space_in(entries@, cat) == spec_space_in(entries@.skip(i as int), cat),
        decreases entries@.len() - i,
    {
        assert(entries@.skip(i as int)[0] == entries@[i as int]);
        if entries[i].category == cat {
            return entries[i].space;
        }
        assert(entries@.skip(i as int).drop_first() =~= entries@.skip(i as int + 1));
        i = i + 1;
    }
    assert(entries@.skip(i as int) =~= Seq::<CategoryOffset>::empty());
    0
}

/// Looks up the amount recorded for `cat`.
fn lookup_amount(entries: &Vec<CategoryAmount>, cat: ParameterCategory) -> (r: usize)
    ensures
        r == spec_amount_in(entries@, cat),
{
    let mut i: usize = 0;
    assert(entries@.skip(0) =~= entries@);
    while i < entries.len()
        invariant
            0 <= i <= entries@.len(),
            spec_amount_in(entries@, cat) == spec_amount_in(entries@.skip(i as int), cat),
        decreases entries@.len() - i,
    {
        assert(entries@.skip(i as int)[0] == entries@[i as int]);
        if entries[i].category == cat {
            return entries[i].amount;
        }
        assert(entries@.skip(i as int).drop_first() =~= entries@.skip(i as int + 1));
        i = i + 1;
    }
    assert(entries@.skip(i as int) =~= Seq::<CategoryAmount>::empty());
    0
}

/// The uniform count-then-index traversal, materialized: the borrowed items
/// of a collection, in index order, the `i`-th being exactly the item at
/// index `i`. Iterating `0..count` this way yields every item exactly once,
/// with no gaps and no repeats.
pub fn indexed_items<T>(items: &Vec<T>) -> (r: Vec<&T>)
    ensures
        r@.len() == items@.len(),
        forall|i: int| 0 <= i < r@.len() ==> *r@[i] == items@[i],
{
    let mut out: Vec<&T> = Vec::new();
    let mut i: usize = 0;
    while i < items.len()
        invariant
            0 <= i <= items@.len(),
            out@.len() == i,
            forall|j: int| 0 <= j < i ==> *out@[j] == items@[j],
        decreases items@.len() - i,
    {
        out.push(&items[i]);
        i = i + 1;
    }
    out
}

/// Compares two string slices by their character sequences.
fn str_eq(a: &str, b: &str) -> (r: bool)
    ensures
        r == (a@ == b@),
{
    let owned_a = a.to_owned();
    let owned_b = b.to_owned();
    owned_a == owned_b
}

/// A user-declared attribute attached to a type or variable. Argument
/// introspection is not part of this layer's contract: the native surface
/// for it is explicitly unspecified, so only the attribute's name is
/// carried.
#[derive(Debug)]
pub struct ReflectionUserAttribute {
    /// The attribute's name.
    pub name: String,
}

/// A generic type parameter of the compiled program.
#[derive(Debug)]
pub struct ReflectionTypeParameter {
    /// The type parameter's name.
    pub name: String,
}

/// The abstract structure of a reflected type: its kind, its fields, its
/// element type for arrays and vectors, and its resource description.
#[derive(Debug)]
pub struct ReflectionType {
    /// The type's name, where it has one.
    pub name: Option<String>,
    /// The structural kind of the type.
    pub kind: TypeKind,
    /// User attributes declared on the type.
    pub user_attributes: Vec<ReflectionUserAttribute>,
    /// The fields of a structure type, in declaration order.
    pub fields: Vec<ReflectionVariable>,
    /// The element count of an array type, 0 for an unbounded array.
    pub element_count: usize,
    /// The element type of an array, vector or matrix type.
    pub element_type: Option<Box<ReflectionType>>,
    /// The row count of a matrix type.
    pub row_count: u32,
    /// The column count of a matrix or vector type.
    pub column_count: u32,
    /// The scalar type underlying a scalar, vector or matrix type.
    pub scalar_type: ScalarType,
    /// The shape of a resource type.
    pub resource_shape: ResourceShape,
    /// The access granted by a resource type.
    pub resource_access: ResourceAccess,
    /// The result type of a resource type, where it has one.
    pub resource_result_type: Option<Box<ReflectionType>>,
}

/// A declared variable: a name, a declared type and user attributes.
#[derive(Debug)]
pub struct ReflectionVariable {
    /// The variable's name.
    pub name: String,
    /// The variable's declared type.
    pub ty: ReflectionType,
    /// User attributes declared on the variable.
    pub user_attributes: Vec<ReflectionUserAttribute>,
}

/// The memory and binding layout assigned to a type under specific layout
/// rules, distinct from the type's abstract structure.
#[derive(Debug)]
pub struct ReflectionTypeLayout {
    /// The type this layout was computed for.
    pub ty: ReflectionType,
    /// Per-category sizes the layout occupies.
    pub sizes: Vec<CategoryAmount>,
    /// The layouts of the fields of a structure type, in field order.
    pub fields: Vec<ReflectionVariableLayout>,
    /// Per-category strides between consecutive elements of an array.
    pub element_strides: Vec<CategoryAmount>,
    /// The layout of an array's element type.
    pub element_type_layout: Option<Box<ReflectionTypeLayout>>,
    /// The variable layout of an array's element.
    pub element_var_layout: Option<Box<ReflectionVariableLayout>>,
    /// The single category the layout consumes, or the mixed marker when it
    /// consumes several.
    pub parameter_category: ParameterCategory,
    /// Every parameter category the layout occupies.
    pub categories: Vec<ParameterCategory>,
    /// The matrix storage order the layout assigns.
    pub matrix_layout_mode: MatrixLayoutMode,
    /// The generic parameter index of a generic-parameter type layout.
    pub generic_param_index: Option<u32>,
}

/// The layout of one variable: the variable itself, its type layout, and
/// its binding location under every category it occupies.
#[derive(Debug)]
pub struct ReflectionVariableLayout {
    /// The variable this layout binds.
    pub variable: ReflectionVariable,
    /// The layout of the variable's type.
    pub type_layout: ReflectionTypeLayout,
    /// The binding location under every category the variable occupies.
    pub offsets: Vec<CategoryOffset>,
    /// The system-value semantic attached to the variable, if any.
    pub semantic_name: Option<String>,
    /// The index under the attached semantic.
    pub semantic_index: u32,
    /// The single stage the variable is bound for.
    pub stage: Stage,
    /// The flat binding index reported for the variable's primary category.
    pub binding_index: u32,
    /// The flat binding space reported for the variable's primary category.
    pub binding_space: u32,
}

/// A named, stage-tagged entry point of the compiled program.
#[derive(Debug)]
pub struct ReflectionEntryPoint {
    /// The entry point's name.
    pub name: String,
    /// The pipeline stage the entry point targets.
    pub stage: Stage,
    /// The layouts of the entry point's parameters.
    pub parameters: Vec<ReflectionVariableLayout>,
    /// The compute thread-group size declared by a compute entry point,
    /// per axis.
    pub compute_thread_group_size: (usize, usize, usize),
}

/// The root of the reflection graph: the global parameters, the entry
/// points, the type parameters, and the named types of one compiled
/// program.
#[derive(Debug)]
pub struct Reflection {
    /// The layouts of the global shader parameters.
    pub parameters: Vec<ReflectionVariableLayout>,
    /// The generic type parameters of the program.
    pub type_parameters: Vec<ReflectionTypeParameter>,
    /// The entry points of the program.
    pub entry_points: Vec<ReflectionEntryPoint>,
    /// The named types the program declares, as the native type database
    /// reports them.
    pub types: Vec<ReflectionType>,
    /// The binding index of the global constant buffer.
    pub global_constant_buffer_binding: u32,
    /// The size of the global constant buffer.
    pub global_constant_buffer_size: usize,
}

impl Reflection {
    /// The number of global shader parameters.
    pub fn parameter_count(&self) -> (n: u32)
        requires
            self.parameters@.len() <= 0xffff_ffff,
        ensures
            n == self.parameters@.len(),
    {
        self.parameters.len() as u32
    }

    /// The global parameter at `index`; the index must come from
    /// `0..parameter_count()`.
    pub fn parameter_by_index(&self, index: u32) -> (r: &ReflectionVariableLayout)
        requires
            (index as int) < self.parameters@.len(),
        ensures
            *r == self.parameters@[index as int],
    {
        &self.parameters[index as usize]
    }

    /// Every global parameter, in index order.
    pub fn parameters(&self) -> (r: Vec<&ReflectionVariableLayout>)
        ensures
            r@.len() == self.parameters@.len(),
            forall|i: int| 0 <= i < r@.len() ==> *r@[i] == self.parameters@[i],
    {
        indexed_items(&self.parameters)
    }

    /// The number of generic type parameters.
    pub fn type_parameter_count(&self) -> (n: u32)
        requires
            self.type_parameters@.len() <= 0xffff_ffff,
        ensures
            n == self.type_parameters@.len(),
    {
        self.type_parameters.len() as u32
    }

    /// The type parameter at `index`; the index must come from
    /// `0..type_parameter_count()`.
    pub fn type_parameter_by_index(&self, index: u32) -> (r: &ReflectionTypeParameter)
        requires
            (index as int) < self.type_parameters@.len(),
        ensures
            *r == self.type_parameters@[index as int],
    {
        &self.type_parameters[index as usize]
    }

    /// Every type parameter, in index order.
    pub fn type_parameters(&self) -> (r: Vec<&ReflectionTypeParameter>)
        ensures
            r@.len() == self.type_parameters@.len(),
            forall|i: int| 0 <= i < r@.len() ==> *r@[i] == self.type_parameters@[i],
    {
        indexed_items(&self.type_parameters)
    }

    /// Finds a type parameter by name; absence is a normal outcome.
    pub fn find_type_parameter_by_name(&self, name: &str) -> (r: Option<
        &ReflectionTypeParameter,
    >)
        ensures
            match r {
                Some(tp) => exists|i: int|
                    0 <= i < self.type_parameters@.len() && *tp == self.type_parameters@[i]
                        && self.type_parameters@[i].name@ == name@,
                None => forall|i: int|
                    0 <= i < self.type_parameters@.len()
                        ==> self.type_parameters@[i].name@ != name@,
            },
    {
        let mut i: usize = 0;
        while i < self.type_parameters.len()
            invariant
                0 <= i <= self.type_parameters@.len(),
                forall|j: int| 0 <= j < i ==> self.type_parameters@[j].name@ != name@,
            decreases self.type_parameters@.len() - i,
        {
            if str_eq(self.type_parameters[i].name.as_str(), name) {
                return Some(&self.type_parameters[i]);
            }
            i = i + 1;
        }
        None
    }

    /// Finds a named type by name; absence is a normal outcome.
    pub fn find_type_by_name(&self, name: &str) -> (r: Option<&ReflectionType>)
        ensures
            match r {
                Some(t) => exists|i: int|
                    0 <= i < self.types@.len() && *t == self.types@[i] && (
                    self.types@[i].name matches Some(n) && n@ == name@),
                None => forall|i: int|
                    #![trigger self.types@[i]]
                    0 <= i < self.types@.len() ==> !(self.types@[i].name matches Some(n) && n@
                        == name@),
            },
    {
        let mut i: usize = 0;
        while i < self.types.len()
            invariant
                0 <= i <= self.types@.len(),
                forall|j: int|
                    #![trigger self.types@[j]]
                    0 <= j < i ==> !(self.types@[j].name matches Some(n) && n@ == name@),
            decreases self.types@.len() - i,
        {
            match &self.types[i].name {
                Some(n) => {
                    if str_eq(n.as_str(), name) {
                        return Some(&self.types[i]);
                    }
                },
                None => {},
            }
            i = i + 1;
        }
        None
    }

    /// The number of entry points.
    pub fn entry_point_count(&self) -> (n: u32)
        requires
            self.entry_points@.len() <= 0xffff_ffff,
        ensures
            n == self.entry_points@.len(),
    {
        self.entry_points.len() as u32
    }

    /// The entry point at `index`; the index must come from
    /// `0..entry_point_count()`.
    pub fn entry_point_by_index(&self, index: u32) -> (r: &ReflectionEntryPoint)
        requires
            (index as int) < self.entry_points@.len(),
        ensures
            *r == self.entry_points@[index as int],
    {
        &self.entry_points[index as usize]
    }

    /// Every entry point, in index order.
    pub fn entry_points(&self) -> (r: Vec<&ReflectionEntryPoint>)
        ensures
            r@.len() == self.entry_points@.len(),
            forall|i: int| 0 <= i < r@.len() ==> *r@[i] == self.entry_points@[i],
    {
        indexed_items(&self.entry_points)
    }

    /// Finds an entry point by name; absence is a normal outcome.
    pub fn find_entry_point_by_name(&self, name: &str) -> (r: Option<&ReflectionEntryPoint>)
        ensures
            match r {
                Some(ep) => exists|i: int|
                    0 <= i < self.entry_points@.len() && *ep == self.entry_points@[i]
                        && self.entry_points@[i].name@ == name@,
                None => forall|i: int|
                    0 <= i < self.entry_points@.len() ==> self.entry_points@[i].name@ != name@,
            },
    {
        let mut i: usize = 0;
        while i < self.entry_points.len()
            invariant
                0 <= i <= self.entry_points@.len(),
                forall|j: int| 0 <= j < i ==> self.entry_points@[j].name@ != name@,
            decreases self.entry_points@.len() - i,
        {
            if str_eq(self.entry_points[i].name.as_str(), name) {
                return Some(&self.entry_points[i]);
            }
            i = i + 1;
        }
        None
    }

    /// The binding index of the global constant buffer.
    pub fn global_constant_buffer_binding(&self) -> (r: u32)
        ensures
            r == self.global_constant_buffer_binding,
    {
        self.global_constant_buffer_binding
    }

    /// The size of the global constant buffer.
    pub fn global_constant_buffer_size(&self) -> (r: usize)
        ensures
            r == self.global_constant_buffer_size,
    {
        self.global_constant_buffer_size
    }
}

impl ReflectionVariableLayout {
    /// The variable this layout binds.
    pub fn variable(&self) -> (r: &ReflectionVariable)
        ensures
            *r == self.variable,
    {
        &self.variable
    }

    /// The layout of the variable's type.
    pub fn type_layout(&self) -> (r: &ReflectionTypeLayout)
        ensures
            *r == self.type_layout,
    {
        &self.type_layout
    }

    /// The offset the variable holds under `param_category`, independent of
    /// every other category it occupies; 0 for a category it does not
    /// occupy.
    pub fn offset(&self, param_category: ParameterCategory) -> (r: usize)
        ensures
            r == spec_offset_in(self.offsets@, param_category),
    {
        lookup_offset(&self.offsets, param_category)
    }

    /// The register space the variable uses under `param_category`,
    /// independent of every other category it occupies; 0 for a category it
    /// does not occupy.
    pub fn space(&self, param_category: ParameterCategory) -> (r: usize)
        ensures
            r == spec_space_in(self.offsets@, param_category),
    {
        lookup_space(&self.offsets, param_category)
    }

    /// True when no two binding entries of this layout claim the same
    /// category.
    pub open spec fn bindings_distinct(self) -> bool {
        offset_categories_distinct(self.offsets@)
    }

    /// Per-category independence for this layout: under distinct binding
    /// entries, querying the category of entry `i` answers exactly that
    /// entry's offset and space.
    pub proof fn lemma_per_category_binding(self, i: int)
        requires
            self.bindings_distinct(),
            0 <= i < self.offsets@.len(),
        ensures
            spec_offset_in(self.offsets@, self.offsets@[i].category) == self.offsets@[i].offset,
            spec_space_in(self.offsets@, self.offsets@[i].category) == self.offsets@[i].space,
    {
        lemma_category_lookup_independent(self.offsets@, i);
    }

    /// The system-value semantic attached to the variable, if any.
    pub fn semantic_name(&self) -> (r: Option<&str>)
        ensures
            r matches Some(s) ==> self.semantic_name matches Some(t) && s@ == t@,
            r is None <==> self.semantic_name is None,
    {
        match &self.semantic_name {
            Some(s) => Some(s.as_str()),
            None => None,
        }
    }

    /// The index under the attached semantic.
    pub fn semantic_index(&self) -> (r: u32)
        ensures
            r == self.semantic_index,
    {
        self.semantic_index
    }

    /// The single stage the variable is bound for.
    pub fn stage(&self) -> (r: Stage)
        ensures
            r == self.stage,
    {
        self.stage
    }

    /// The flat binding index reported for the variable's primary category.
    pub fn binding_index(&self) -> (r: u32)
        ensures
            r == self.binding_index,
    {
        self.binding_index
    }

    /// The flat binding space reported for the variable's primary category.
    pub fn binding_space(&self) -> (r: u32)
        ensures
            r == self.binding_space,
    {
        self.binding_space
    }
}

impl ReflectionVariable {
    /// The variable's name.
    pub fn name(&self) -> (r: &str)
        ensures
            r@ == self.name@,
    {
        self.name.as_str()
    }

    /// The variable's declared type.
    pub fn ty(&self) -> (r: &ReflectionType)
        ensures
            *r == self.ty,
    {
        &self.ty
    }

    /// The number of user attributes declared on the variable.
    pub fn user_attribute_count(&self) -> (n: u32)
        requires
            self.user_attributes@.len() <= 0xffff_ffff,
        ensures
            n == self.user_attributes@.len(),
    {
        self.user_attributes.len() as u32
    }

    /// The user attribute at `index`, or `None` for an out-of-range index.
    pub fn user_attribute_by_index(&self, index: u32) -> (r: Option<&ReflectionUserAttribute>)
        ensures
            (index as int) < self.user_attributes@.len() ==> (r matches Some(a) && *a
                == self.user_attributes@[index as int]),
            (index as int) >= self.user_attributes@.len() ==> r is None,
    {
        if (index as usize) < self.user_attributes.len() {
            Some(&self.user_attributes[index as usize])
        } else {
            None
        }
    }
}

impl ReflectionTypeLayout {
    /// The type this layout was computed for.
    pub fn ty(&self) -> (r: &ReflectionType)
        ensures
            *r == self.ty,
    {
        &self.ty
    }

    /// The size the layout occupies under `category`, independent of every
    /// other category; 0 for a category it does not occupy.
    pub fn size(&self, category: ParameterCategory) -> (r: usize)
        ensures
            r == spec_amount_in(self.sizes@, category),
    {
        lookup_amount(&self.sizes, category)
    }

    /// True when the layout carries one field layout per field of its type.
    pub open spec fn fields_consistent(self) -> bool {
        self.fields@.len() == self.ty.fields@.len()
    }

    /// The number of field layouts, delegated to the underlying type's
    /// field count.
    pub fn field_count(&self) -> (n: u32)
        requires
            self.fields_consistent(),
            self.ty.fields@.len() <= 0xffff_ffff,
        ensures
            n == self.fields@.len(),
    {
        self.ty.field_count()
    }

    /// The field layout at `index`; the index must come from
    /// `0..field_count()`.
    pub fn field_by_index(&self, index: u32) -> (r: &ReflectionVariableLayout)
        requires
            (index as int) < self.fields@.len(),
        ensures
            *r == self.fields@[index as int],
    {
        &self.fields[index as usize]
    }

    /// Every field layout, in field order.
    pub fn fields(&self) -> (r: Vec<&ReflectionVariableLayout>)
        ensures
            r@.len() == self.fields@.len(),
            forall|i: int| 0 <= i < r@.len() ==> *r@[i] == self.fields@[i],
    {
        indexed_items(&self.fields)
    }

    /// The stride between consecutive array elements under `category`;
    /// 0 for a category the layout does not occupy.
    pub fn element_stride(&self, category: ParameterCategory) -> (r: usize)
        ensures
            r == spec_amount_in(self.element_strides@, category),
    {
        lookup_amount(&self.element_strides, category)
    }

    /// The layout of an array's element type, where the type has one.
    pub fn element_type_layout(&self) -> (r: Option<&ReflectionTypeLayout>)
        ensures
            r matches Some(t) ==> (self.element_type_layout matches Some(b) && *t == *b),
            r is None <==> self.element_type_layout is None,
    {
        match &self.element_type_layout {
            Some(b) => Some(&**b),
            None => None,
        }
    }

    /// The variable layout of an array's element, where the type has one.
    pub fn element_var_layout(&self) -> (r: Option<&ReflectionVariableLayout>)
        ensures
            r matches Some(v) ==> (self.element_var_layout matches Some(b) && *v == *b),
            r is None <==> self.element_var_layout is None,
    {
        match &self.element_var_layout {
            Some(b) => Some(&**b),
            None => None,
        }
    }

    /// The single category the layout consumes, or the mixed marker when it
    /// consumes several.
    pub fn parameter_category(&self) -> (r: ParameterCategory)
        ensures
            r == self.parameter_category,
    {
        self.parameter_category
    }

    /// The number of parameter categories the layout occupies.
    pub fn parameter_category_count(&self) -> (n: u32)
        requires
            self.categories@.len() <= 0xffff_ffff,
        ensures
            n == self.categories@.len(),
    {
        self.categories.len() as u32
    }

    /// The occupied category at `index`; the index must come from
    /// `0..parameter_category_count()`.
    pub fn parameter_category_by_index(&self, index: u32) -> (r: ParameterCategory)
        requires
            (index as int) < self.categories@.len(),
        ensures
            r == self.categories@[index as int],
    {
        self.categories[index as usize]
    }

    /// The matrix storage order the layout assigns.
    pub fn matrix_layout_mode(&self) -> (r: MatrixLayoutMode)
        ensures
            r == self.matrix_layout_mode,
    {
        self.matrix_layout_mode
    }

    /// The generic parameter index of a generic-parameter type layout, or
    /// `None` where the layout has none.
    pub fn generic_param_index(&self) -> (r: Option<u32>)
        ensures
            r == self.generic_param_index,
    {
        self.generic_param_index
    }
}

impl ReflectionType {
    /// The type's name, where it has one.
    pub fn name(&self) -> (r: Option<&str>)
        ensures
            r matches Some(s) ==> (self.name matches Some(t) && s@ == t@),
            r is None <==> self.name is None,
    {
        match &self.name {
            Some(s) => Some(s.as_str()),
            None => None,
        }
    }

    /// The structural kind of the type.
    pub fn kind(&self) -> (r: TypeKind)
        ensures
            r == self.kind,
    {
        self.kind
    }

    /// The number of user attributes declared on the type.
    pub fn user_attribute_count(&self) -> (n: u32)
        requires
            self.user_attributes@.len() <= 0xffff_ffff,
        ensures
            n == self.user_attributes@.len(),
    {
        self.user_attributes.len() as u32
    }

    /// The user attribute at `index`; the index must come from
    /// `0..user_attribute_count()`.
    pub fn user_attribute_by_index(&self, index: u32) -> (r: &ReflectionUserAttribute)
        requires
            (index as int) < self.user_attributes@.len(),
        ensures
            *r == self.user_attributes@[index as int],
    {
        &self.user_attributes[index as usize]
    }

    /// Finds a user attribute by name; absence is a normal outcome.
    pub fn find_user_attribute_by_name(&self, name: &str) -> (r: Option<
        &ReflectionUserAttribute,
    >)
        ensures
            match r {
                Some(a) => exists|i: int|
                    0 <= i < self.user_attributes@.len() && *a == self.user_attributes@[i]
                        && self.user_attributes@[i].name@ == name@,
                None => forall|i: int|
                    0 <= i < self.user_attributes@.len()
                        ==> self.user_attributes@[i].name@ != name@,
            },
    {
        let mut i: usize = 0;
        while i < self.user_attributes.len()
            invariant
                0 <= i <= self.user_attributes@.len(),
                forall|j: int| 0 <= j < i ==> self.user_attributes@[j].name@ != name@,
            decreases self.user_attributes@.len() - i,
        {
            if str_eq(self.user_attributes[i].name.as_str(), name) {
                return Some(&self.user_attributes[i]);
            }
            i = i + 1;
        }
        None
    }

    /// The number of fields of a structure type.
    pub fn field_count(&self) -> (n: u32)
        requires
            self.fields@.len() <= 0xffff_ffff,
        ensures
            n == self.fields@.len(),
    {
        self.fields.len() as u32
    }

    /// The field at `index`; the index must come from `0..field_count()`.
    pub fn field_by_index(&self, index: u32) -> (r: &ReflectionVariable)
        requires
            (index as int) < self.fields@.len(),
        ensures
            *r == self.fields@[index as int],
    {
        &self.fields[index as usize]
    }

    /// Every field, in declaration order.
    pub fn fields(&self) -> (r: Vec<&ReflectionVariable>)
        ensures
            r@.len() == self.fields@.len(),
            forall|i: int| 0 <= i < r@.len() ==> *r@[i] == self.fields@[i],
    {
        indexed_items(&self.fields)
    }

    /// The element count of an array type.
    pub fn element_count(&self) -> (r: usize)
        ensures
            r == self.element_count,
    {
        self.element_count
    }

    /// The element type of an array, vector or matrix type, where the type
    /// has one.
    pub fn element_type(&self) -> (r: Option<&ReflectionType>)
        ensures
            r matches Some(t) ==> (self.element_type matches Some(b) && *t == *b),
            r is None <==> self.element_type is None,
    {
        match &self.element_type {
            Some(b) => Some(&**b),
            None => None,
        }
    }

    /// The row count of a matrix type.
    pub fn row_count(&self) -> (r: u32)
        ensures
            r == self.row_count,
    {
        self.row_count
    }

    /// The column count of a matrix or vector type.
    pub fn column_count(&self) -> (r: u32)
        ensures
            r == self.column_count,
    {
        self.column_count
    }

    /// The scalar type underlying a scalar, vector or matrix type.
    pub fn scalar_type(&self) -> (r: ScalarType)
        ensures
            r == self.scalar_type,
    {
        self.scalar_type
    }

    /// The shape of a resource type.
    pub fn resource_shape(&self) -> (r: ResourceShape)
        ensures
            r == self.resource_shape,
    {
        self.resource_shape
    }

    /// The access granted by a resource type.
    pub fn resource_access(&self) -> (r: ResourceAccess)
        ensures
            r == self.resource_access,
    {
        self.resource_access
    }

    /// The result type of a resource type, where it has one.
    pub fn resource_result_type(&self) -> (r: Option<&ReflectionType>)
        ensures
            r matches Some(t) ==> (self.resource_result_type matches Some(b) && *t == *b),
            r is None <==> self.resource_result_type is None,
    {
        match &self.resource_result_type {
            Some(b) => Some(&**b),
            None => None,
        }
    }
}

impl ReflectionEntryPoint {
    /// The entry point's name.
    pub fn name(&self) -> (r: &str)
        ensures
            r@ == self.name@,
    {
        self.name.as_str()
    }

    /// The number of entry-point parameters.
    pub fn parameter_count(&self) -> (n: u32)
        requires
            self.parameters@.len() <= 0xffff_ffff,
        ensures
            n == self.parameters@.len(),
    {
        self.parameters.len() as u32
    }

    /// The parameter layout at `index`; the index must come from
    /// `0..parameter_count()`.
    pub fn parameter_by_index(&self, index: u32) -> (r: &ReflectionVariableLayout)
        requires
            (index as int) < self.parameters@.len(),
        ensures
            *r == self.parameters@[index as int],
    {
        &self.parameters[index as usize]
    }

    /// Every parameter layout, in index order.
    pub fn parameters(&self) -> (r: Vec<&ReflectionVariableLayout>)
        ensures
            r@.len() == self.parameters@.len(),
            forall|i: int| 0 <= i < r@.len() ==> *r@[i] == self.parameters@[i],
    {
        indexed_items(&self.parameters)
    }

    /// The pipeline stage the entry point targets.
    pub fn stage(&self) -> (r: Stage)
        ensures
            r == self.stage,
    {
        self.stage
    }

    /// The compute thread-group size declared by a compute entry point.
    pub fn compute_thread_group_size(&self) -> (r: (usize, usize, usize))
        ensures
            r == self.compute_thread_group_size,
    {
        self.compute_thread_group_size
    }
}

} // verus!
