use vstd::prelude::*;
use vstd::string::*;

use crate::data_type::DataType;
use crate::error::{is_invalid_argument, Error, Result};
use crate::limits::Limits;
use crate::text::{decimal, join3, same_text, spec_decimal, text_bytes};

verus! {

/// The name of the implicit string primary key, which no schema may declare.
pub open spec fn primary_key_name() -> Seq<char> {
    "pk"@
}

/// An ASCII letter.
pub open spec fn ascii_letter(b: u8) -> bool {
    (65 <= b <= 90) || (97 <= b <= 122)
}

/// An ASCII letter or digit.
pub open spec fn ascii_letter_or_digit(b: u8) -> bool {
    ascii_letter(b) || (48 <= b <= 57)
}

/// A field name in identifier form: the first byte is an ASCII letter or `_`, and the remaining
/// bytes are ASCII letters, digits or `_`.
pub open spec fn identifier_bytes(bytes: Seq<u8>) -> bool {
    &&& bytes.len() > 0
    &&& (ascii_letter(bytes[0]) || bytes[0] == 95)
    &&& forall|i: int| 1 <= i < bytes.len() ==> ascii_letter_or_digit(#[trigger] bytes[i]) || bytes[i] == 95
}

/// Why a field name is refused, if it is.
pub open spec fn name_error(name: Seq<char>) -> Option<Seq<char>> {
    if name == primary_key_name() {
        Some("field name `pk` is reserved for the implicit string primary key"@)
    } else if text_bytes(name).len() == 0 {
        Some("field name cannot be empty"@)
    } else if !identifier_bytes(text_bytes(name)) {
        Some("field name `"@ + name + "` must be an ASCII identifier"@)
    } else {
        None
    }
}

/// The number of distinct `u32` coordinates, the largest dimension a sparse field may have.
pub open spec fn sparse_coordinate_capacity() -> nat {
    4294967296
}

/// Why a field definition is refused under the given limits, if it is. The checks run in
/// order and the first that fails decides the message.
pub open spec fn field_error(
    name: Seq<char>,
    data_type: DataType,
    dimension: Option<usize>,
    limits: Limits,
) -> Option<Seq<char>> {
    if name_error(name) is Some {
        name_error(name)
    } else if data_type.spec_is_vector() && dimension is None {
        Some("vector field `"@ + name + "` requires a dimension"@)
    } else if !data_type.spec_is_vector() && dimension is Some {
        Some("non-vector field `"@ + name + "` cannot have a dimension"@)
    } else if data_type.spec_is_vector() && dimension == Some(0usize) {
        Some("vector field `"@ + name + "` must have a non-zero dimension"@)
    } else if data_type.spec_is_sparse_vector() && dimension.unwrap() > sparse_coordinate_capacity() {
        Some("sparse vector field `"@ + name + "` dimension "@ + spec_decimal(dimension.unwrap() as nat)
            + " exceeds the u32 coordinate capacity of 4294967296"@)
    } else if data_type.spec_is_vector() && dimension.unwrap() > limits.max_vector_dimension {
        Some("vector field `"@ + name + "` dimension "@ + spec_decimal(dimension.unwrap() as nat)
            + " exceeds limit "@ + spec_decimal(limits.max_vector_dimension as nat))
    } else {
        None
    }
}

/// The shape rules that hold of a field under any limits: a valid name, and a dimension exactly
/// for vector types, non-zero, and within the `u32` coordinate space for sparse vectors.
pub open spec fn field_shape_valid(name: Seq<char>, data_type: DataType, dimension: Option<usize>) -> bool {
    &&& name_error(name) is None
    &&& data_type.spec_is_vector() == dimension is Some
    &&& data_type.spec_is_vector() ==> dimension.unwrap() > 0
    &&& data_type.spec_is_sparse_vector() ==> dimension.unwrap() <= sparse_coordinate_capacity()
}

/// What a field definition holds.
pub struct FieldModel {
    /// The field name.
    pub name: Seq<char>,
    /// The field's logical type.
    pub data_type: DataType,
    /// Whether the field accepts explicit null and may be omitted.
    pub nullable: bool,
    /// The vector dimension, if one was given.
    pub dimension: Option<usize>,
}

impl FieldModel {
    /// Why this definition is refused under the given limits, if it is.
    pub open spec fn error(self, limits: Limits) -> Option<Seq<char>> {
        field_error(self.name, self.data_type, self.dimension, limits)
    }
}

/// The validated definition of one document field.
///
/// Field names use an ASCII identifier form: the first byte is an ASCII letter or `_`, and
/// remaining bytes are ASCII alphanumeric characters or `_`. The exact name `pk` is reserved for
/// the implicit string primary key and cannot be declared in a schema.
#[derive(Debug, Eq, PartialEq)]
pub struct FieldSchema {
    name: String,
    data_type: DataType,
    nullable: bool,
    dimension: Option<usize>,
}

impl View for FieldSchema {
    type V = FieldModel;

    closed spec fn view(&self) -> FieldModel {
        FieldModel {
            name: self.name@,
            data_type: self.data_type,
            nullable: self.nullable,
            dimension: self.dimension,
        }
    }
}

impl Clone for FieldSchema {
    fn clone(&self) -> (r: Self)
        ensures
            r@ == self@,
    {
        proof {
            use_type_invariant(self);
        }
        FieldSchema {
            name: self.name.clone(),
            data_type: self.data_type,
            nullable: self.nullable,
            dimension: self.dimension,
        }
    }
}

/// A chainable builder for [`FieldSchema`].
///
/// Validation is deferred until [`FieldSchemaBuilder::build`] or
/// [`FieldSchemaBuilder::build_with_limits`].
#[derive(Debug)]
#[must_use]
pub struct FieldSchemaBuilder {
    name: String,
    data_type: DataType,
    nullable: bool,
    dimension: Option<usize>,
}

impl Clone for FieldSchemaBuilder {
    fn clone(&self) -> (r: Self)
        ensures
            r@ == self@,
    {
        FieldSchemaBuilder {
            name: self.name.clone(),
            data_type: self.data_type,
            nullable: self.nullable,
            dimension: self.dimension,
        }
    }
}

impl View for FieldSchemaBuilder {
    type V = FieldModel;

    closed spec fn view(&self) -> FieldModel {
        FieldModel {
            name: self.name@,
            data_type: self.data_type,
            nullable: self.nullable,
            dimension: self.dimension,
        }
    }
}

pub(crate) fn invalid(message: String) -> (e: Error)
    ensures
        is_invalid_argument(e, message@),
{
    Error::InvalidArgument { message }
}

pub(crate) fn append_decimal(s: &mut String, n: usize)
    ensures
        final(s)@ == old(s)@ + spec_decimal(n as nat),
{
    let d = decimal(n as u64);
    s.append(d.as_str());
}

fn is_ascii_letter(b: u8) -> (r: bool)
    ensures
        r == ascii_letter(b),
{
    (65 <= b && b <= 90) || (97 <= b && b <= 122)
}

fn is_ascii_letter_or_digit(b: u8) -> (r: bool)
    ensures
        r == ascii_letter_or_digit(b),
{
    is_ascii_letter(b) || (48 <= b && b <= 57)
}

/// Checks a field name: reserved, empty, or not an ASCII identifier.
fn validate_field_name(name: &str) -> (r: Result<()>)
    ensures
        match name_error(name@) {
            None => r is Ok,
            Some(m) => r matches Err(e) && is_invalid_argument(e, m),
        },
{
    if same_text(name, "pk") {
        return Err(Error::invalid_argument("field name `pk` is reserved for the implicit string primary key"));
    }
    let bytes = name.as_bytes();
    let ghost b = text_bytes(name@);
    assert(bytes@ == b);
    if bytes.len() == 0 {
        return Err(Error::invalid_argument("field name cannot be empty"));
    }
    let first = bytes[0];
    let mut ok = is_ascii_letter(first) || first == 95;
    let mut i: usize = 1;
    while i < bytes.len()
        invariant
            bytes@ == b,
            1 <= i <= b.len(),
            ok == ((ascii_letter(b[0]) || b[0] == 95)
                && forall|j: int| 1 <= j < i ==> ascii_letter_or_digit(#[trigger] b[j]) || b[j] == 95),
        decreases b.len() - i,
    {
        let c = bytes[i];
        ok = ok && (is_ascii_letter_or_digit(c) || c == 95);
        i = i + 1;
    }
    if !ok {
        return Err(invalid(join3("field name `", name, "` must be an ASCII identifier")));
    }
    Ok(())
}

impl FieldSchema {
    #[verifier::type_invariant]
    spec fn shape_valid(self) -> bool {
        field_shape_valid(self.name@, self.data_type, self.dimension)
    }

    /// Starts a builder for a field with the given name and logical type.
    pub fn builder(name: &str, data_type: DataType) -> (b: FieldSchemaBuilder)
        ensures
            b@ == (FieldModel { name: name@, data_type, nullable: false, dimension: None }),
    {
        FieldSchemaBuilder { name: name.to_owned(), data_type, nullable: false, dimension: None }
    }

    /// Returns the field name.
    pub fn name(&self) -> (r: &str)
        ensures
            r@ == self@.name,
    {
        self.name.as_str()
    }

    /// Returns the field's logical type.
    pub fn data_type(&self) -> (r: DataType)
        ensures
            r == self@.data_type,
    {
        self.data_type
    }

    /// Returns whether the field accepts explicit null and may be omitted.
    pub fn is_nullable(&self) -> (r: bool)
        ensures
            r == self@.nullable,
    {
        self.nullable
    }

    /// Returns the fixed vector dimension, or `None` for non-vector fields.
    ///
    /// Every field's name and dimension obey the shape rules that hold under any limits.
    pub fn dimension(&self) -> (r: Option<usize>)
        ensures
            r == self@.dimension,
            field_shape_valid(self@.name, self@.data_type, self@.dimension),
    {
        proof {
            use_type_invariant(self);
        }
        self.dimension
    }

    /// Revalidates this field under the given limits.
    fn validate(&self, limits: &Limits) -> (r: Result<()>)
        ensures
            match self@.error(*limits) {
                None => r is Ok,
                Some(m) => r matches Err(e) && is_invalid_argument(e, m),
            },
    {
        check_field(&self.name, self.data_type, self.dimension, limits)
    }
}

/// Checks a field definition under the given limits.
fn check_field(name: &String, data_type: DataType, dimension: Option<usize>, limits: &Limits) -> (r: Result<()>)
    ensures
        match field_error(name@, data_type, dimension, *limits) {
            None => r is Ok,
            Some(m) => r matches Err(e) && is_invalid_argument(e, m),
        },
{
    validate_field_name(name.as_str())?;
    let vector = data_type.requires_dimension();
    match dimension {
        None => {
            if vector {
                return Err(invalid(join3("vector field `", name.as_str(), "` requires a dimension")));
            }
            Ok(())
        },
        Some(d) => {
            if !vector {
                return Err(invalid(join3("non-vector field `", name.as_str(), "` cannot have a dimension")));
            }
            if d == 0 {
                return Err(invalid(join3("vector field `", name.as_str(), "` must have a non-zero dimension")));
            }
            if data_type.is_sparse_vector() && d as u64 > 4294967296u64 {
                let mut s = join3("sparse vector field `", name.as_str(), "` dimension ");
                append_decimal(&mut s, d);
                s.append(" exceeds the u32 coordinate capacity of 4294967296");
                return Err(invalid(s));
            }
            if d > limits.max_vector_dimension {
                let mut s = join3("vector field `", name.as_str(), "` dimension ");
                append_decimal(&mut s, d);
                s.append(" exceeds limit ");
                append_decimal(&mut s, limits.max_vector_dimension);
                return Err(invalid(s));
            }
            Ok(())
        },
    }
}

impl FieldSchemaBuilder {
    /// Sets whether this field accepts explicit null and may be omitted.
    pub fn nullable(self, nullable: bool) -> (b: Self)
        ensures
            b@ == (FieldModel { nullable, ..self@ }),
    {
        FieldSchemaBuilder { nullable, ..self }
    }

    /// Sets the fixed dimension required by a vector field.
    pub fn dimension(self, dimension: usize) -> (b: Self)
        ensures
            b@ == (FieldModel { dimension: Some(dimension), ..self@ }),
    {
        FieldSchemaBuilder { dimension: Some(dimension), ..self }
    }

    /// Validates and builds the field using [`Limits::default`].
    ///
    /// # Errors
    ///
    /// Returns [`Error::InvalidArgument`] for an invalid or reserved name; a missing, unexpected,
    /// or zero dimension; a dimension above the default limit; or a sparse-vector dimension
    /// greater than the number of distinct `u32` coordinates (`u32::MAX + 1`).
    pub fn build(self) -> (r: Result<FieldSchema>)
        ensures
            match self@.error(Limits::spec_default()) {
                None => r matches Ok(f) && f@ == self@,
                Some(m) => r matches Err(e) && is_invalid_argument(e, m),
            },
    {
        let limits = Limits::default();
        self.build_with_limits(&limits)
    }

    /// Validates and builds the field using the supplied limits.
    ///
    /// # Errors
    ///
    /// Returns [`Error::InvalidArgument`] for an invalid or reserved name; a missing, unexpected,
    /// or zero dimension; a dimension above `limits.max_vector_dimension`; or a sparse-vector
    /// dimension greater than the number of distinct `u32` coordinates (`u32::MAX + 1`).
    pub fn build_with_limits(self, limits: &Limits) -> (r: Result<FieldSchema>)
        ensures
            match self@.error(*limits) {
                None => r matches Ok(f) && f@ == self@,
                Some(m) => r matches Err(e) && is_invalid_argument(e, m),
            },
    {
        check_field(&self.name, self.data_type, self.dimension, limits)?;
        Ok(FieldSchema {
            name: self.name,
            data_type: self.data_type,
            nullable: self.nullable,
            dimension: self.dimension,
        })
    }
}


/// Why the field at position `k` is refused: its own definition, or a name already used by an
/// earlier field.
pub open spec fn field_problem(fields: Seq<FieldModel>, limits: Limits, k: int) -> Option<Seq<char>> {
    if fields[k].error(limits) is Some {
        fields[k].error(limits)
    } else if exists|j: int| 0 <= j < k && fields[j].name == fields[k].name {
        Some("duplicate field name `"@ + fields[k].name + "`"@)
    } else {
        None
    }
}

/// The first problem among the first `n` fields, in field order.
pub open spec fn prefix_problem(fields: Seq<FieldModel>, limits: Limits, n: int) -> Option<Seq<char>>
    decreases n,
{
    if n <= 0 {
        None
    } else if prefix_problem(fields, limits, n - 1) is Some {
        prefix_problem(fields, limits, n - 1)
    } else {
        field_problem(fields, limits, n - 1)
    }
}

/// The number of vector fields, dense and sparse.
pub open spec fn vector_field_count(fields: Seq<FieldModel>) -> nat
    decreases fields.len(),
{
    if fields.len() == 0 {
        0
    } else {
        vector_field_count(fields.drop_last()) + if fields.last().data_type.spec_is_vector() {
            1nat
        } else {
            0nat
        }
    }
}

/// Why a schema with these fields and limits is refused, if it is: the first field problem in
/// field order, else too many vector fields.
pub open spec fn schema_error(fields: Seq<FieldModel>, limits: Limits) -> Option<Seq<char>> {
    if prefix_problem(fields, limits, fields.len() as int) is Some {
        prefix_problem(fields, limits, fields.len() as int)
    } else if vector_field_count(fields) > limits.max_vector_fields {
        Some("schema has "@ + spec_decimal(vector_field_count(fields)) + " vector fields, exceeding limit "@
            + spec_decimal(limits.max_vector_fields as nat))
    } else {
        None
    }
}

/// Once a problem is found among the first `m` fields, it stays the first problem.
pub proof fn lemma_prefix_problem_stable(fields: Seq<FieldModel>, limits: Limits, m: int, n: int)
    requires
        m <= n,
        prefix_problem(fields, limits, m) is Some,
    ensures
        prefix_problem(fields, limits, n) == prefix_problem(fields, limits, m),
    decreases n - m,
{
    if m < n {
        lemma_prefix_problem_stable(fields, limits, m, n - 1);
    }
}

/// There is no problem among the first `n` fields exactly when none of them has one.
pub proof fn lemma_no_prefix_problem(fields: Seq<FieldModel>, limits: Limits, n: int)
    requires
        0 <= n <= fields.len(),
    ensures
        prefix_problem(fields, limits, n) is None <==> forall|k: int| 0 <= k < n ==> field_problem(fields, limits, k) is None,
    decreases n,
{
    if n > 0 {
        lemma_no_prefix_problem(fields, limits, n - 1);
    }
}

/// A schema is accepted under its limits exactly when every field is valid under those limits,
/// no two fields share a name, and there are no more vector fields than the limit allows.
pub proof fn lemma_valid_schema(fields: Seq<FieldModel>, limits: Limits)
    ensures
        schema_error(fields, limits) is None <==> {
            &&& forall|k: int| 0 <= k < fields.len() ==> (#[trigger] fields[k]).error(limits) is None
            &&& forall|j: int, k: int| 0 <= j < k < fields.len() ==> fields[j].name != fields[k].name
            &&& vector_field_count(fields) <= limits.max_vector_fields
        },
{
    lemma_no_prefix_problem(fields, limits, fields.len() as int);
    if prefix_problem(fields, limits, fields.len() as int) is None {
        assert forall|k: int| 0 <= k < fields.len() implies (#[trigger] fields[k]).error(limits) is None by {
            assert(field_problem(fields, limits, k) is None);
        }
        assert forall|j: int, k: int| 0 <= j < k < fields.len() implies fields[j].name != fields[k].name by {
            assert(field_problem(fields, limits, k) is None);
        }
    } else {
        let k = choose|k: int| 0 <= k < fields.len() && field_problem(fields, limits, k) is Some;
        if fields[k].error(limits) is None {
            let j = choose|j: int| 0 <= j < k && fields[j].name == fields[k].name;
            assert(fields[j].name == fields[k].name);
        }
    }
}

/// The name `pk` is refused for every field, whatever its type, dimension and limits.
pub proof fn lemma_primary_key_reserved(data_type: DataType, dimension: Option<usize>, limits: Limits)
    ensures
        field_error(primary_key_name(), data_type, dimension, limits)
            == Some("field name `pk` is reserved for the implicit string primary key"@),
{
}

/// Shape validity holds of every field that some limits accept.
pub proof fn lemma_accepted_field_shape(name: Seq<char>, data_type: DataType, dimension: Option<usize>, limits: Limits)
    requires
        field_error(name, data_type, dimension, limits) is None,
    ensures
        field_shape_valid(name, data_type, dimension),
{
}

/// What a schema, or a schema under construction, holds.
pub struct SchemaModel {
    /// The explicit fields in insertion order.
    pub fields: Seq<FieldModel>,
    /// The configured limits.
    pub limits: Limits,
}

/// A validated collection schema and its configured limits.
///
/// The primary key is not represented here: every collection has an implicit string primary key
/// named `pk`, so declaring a field with that name is rejected by [`FieldSchemaBuilder`].
#[derive(Debug, Eq, PartialEq)]
pub struct Schema {
    fields: Vec<FieldSchema>,
    limits: Limits,
}

/// The models of a sequence of field definitions.
pub open spec fn field_models(fields: Seq<FieldSchema>) -> Seq<FieldModel> {
    fields.map_values(|f: FieldSchema| f@)
}

fn clone_fields(fields: &Vec<FieldSchema>) -> (r: Vec<FieldSchema>)
    ensures
        field_models(r@) == field_models(fields@),
{
    let mut out: Vec<FieldSchema> = Vec::new();
    let mut i: usize = 0;
    while i < fields.len()
        invariant
            0 <= i <= fields@.len(),
            out@.len() == i,
            forall|j: int| 0 <= j < i ==> (#[trigger] out@[j])@ == fields@[j]@,
        decreases fields@.len() - i,
    {
        out.push(fields[i].clone());
        i = i + 1;
    }
    assert(field_models(out@) =~= field_models(fields@));
    out
}

impl Clone for Schema {
    fn clone(&self) -> (r: Self)
        ensures
            r@ == self@,
    {
        proof {
            use_type_invariant(self);
        }
        Schema { fields: clone_fields(&self.fields), limits: self.limits.clone() }
    }
}

impl View for Schema {
    type V = SchemaModel;

    closed spec fn view(&self) -> SchemaModel {
        SchemaModel { fields: field_models(self.fields@), limits: self.limits }
    }
}

/// A chainable builder for [`Schema`].
///
/// Fields may be added in any order. Cross-field validation, including duplicate names and the
/// vector field count, occurs in [`SchemaBuilder::build`].
#[derive(Debug)]
#[must_use]
pub struct SchemaBuilder {
    fields: Vec<FieldSchema>,
    limits: Limits,
}

impl Clone for SchemaBuilder {
    fn clone(&self) -> (r: Self)
        ensures
            r@ == self@,
    {
        SchemaBuilder { fields: clone_fields(&self.fields), limits: self.limits.clone() }
    }
}

impl View for SchemaBuilder {
    type V = SchemaModel;

    closed spec fn view(&self) -> SchemaModel {
        SchemaModel { fields: field_models(self.fields@), limits: self.limits }
    }
}

impl Schema {
    #[verifier::type_invariant]
    spec fn accepted(self) -> bool {
        schema_error(field_models(self.fields@), self.limits) is None
    }

    /// Starts an empty schema builder with [`Limits::default`].
    pub fn builder() -> (b: SchemaBuilder)
        ensures
            b@.fields == Seq::<FieldModel>::empty(),
            b@.limits == Limits::spec_default(),
    {
        SchemaBuilder::default()
    }

    /// Returns all explicit fields in insertion order.
    ///
    /// The fields of every schema are accepted under its limits.
    pub fn fields(&self) -> (r: &[FieldSchema])
        ensures
            field_models(r@) == self@.fields,
            schema_error(self@.fields, self@.limits) is None,
    {
        proof {
            use_type_invariant(self);
        }
        self.fields.as_slice()
    }

    /// Looks up an explicit field by its exact name: the first field with that name.
    pub fn field(&self, name: &str) -> (r: Option<&FieldSchema>)
        ensures
            match r {
                Some(f) => exists|i: int|
                    0 <= i < self@.fields.len() && self@.fields[i] == f@ && f@.name == name@
                        && forall|j: int| 0 <= j < i ==> self@.fields[j].name != name@,
                None => forall|i: int| 0 <= i < self@.fields.len() ==> self@.fields[i].name != name@,
            },
    {
        let mut i: usize = 0;
        while i < self.fields.len()
            invariant
                0 <= i <= self.fields@.len(),
                forall|j: int| 0 <= j < i ==> self@.fields[j].name != name@,
            decreases self.fields@.len() - i,
        {
            if same_text(self.fields[i].name(), name) {
                assert(self@.fields[i as int] == self.fields@[i as int]@);
                return Some(&self.fields[i]);
            }
            i = i + 1;
        }
        None
    }

    /// Returns the limits captured when this schema was built.
    pub fn limits(&self) -> (r: &Limits)
        ensures
            *r == self@.limits,
    {
        &self.limits
    }
}

impl Default for SchemaBuilder {
    fn default() -> (b: Self)
        ensures
            b@.fields == Seq::<FieldModel>::empty(),
            b@.limits == Limits::spec_default(),
    {
        let b = SchemaBuilder { fields: Vec::new(), limits: Limits::default() };
        assert(field_models(b.fields@) =~= Seq::<FieldModel>::empty());
        b
    }
}

impl SchemaBuilder {
    /// Adds an explicit field definition.
    pub fn field(self, field: FieldSchema) -> (b: Self)
        ensures
            b@.fields == self@.fields.push(field@),
            b@.limits == self@.limits,
    {
        let mut fields = self.fields;
        let ghost before = fields@;
        fields.push(field);
        assert(field_models(fields@) =~= field_models(before).push(field@));
        SchemaBuilder { fields, limits: self.limits }
    }

    /// Replaces the configurable limits used to validate the schema. The resulting [`Schema`]
    /// retains these limits.
    pub fn limits(self, limits: Limits) -> (b: Self)
        ensures
            b@.fields == self@.fields,
            b@.limits == limits,
    {
        SchemaBuilder { fields: self.fields, limits }
    }

    /// Validates and builds the schema.
    ///
    /// Every field is revalidated against the schema's limits, even if it was originally built
    /// with a different limit set.
    ///
    /// # Errors
    ///
    /// Returns [`Error::InvalidArgument`] when a field is invalid under the selected limits, field
    /// names are duplicated, or the number of vector fields exceeds `limits.max_vector_fields`.
    pub fn build(self) -> (r: Result<Schema>)
        ensures
            match schema_error(self@.fields, self@.limits) {
                None => r matches Ok(s) && s@ == self@,
                Some(m) => r matches Err(e) && is_invalid_argument(e, m),
            },
    {
        let ghost models = self@.fields;
        let ghost limits = self.limits;
        let n = self.fields.len();
        let mut count: usize = 0;
        let mut i: usize = 0;
        while i < n
            invariant
                n == self.fields@.len(),
                models == field_models(self.fields@),
                limits == self.limits,
                0 <= i <= n,
                count <= i,
                prefix_problem(models, limits, i as int) is None,
                count == vector_field_count(models.take(i as int)),
            decreases n - i,
        {
            let field = &self.fields[i];
            assert(models[i as int] == field@);
            match field.validate(&self.limits) {
                Err(e) => {
                    proof {
                        lemma_prefix_problem_stable(models, limits, i + 1, n as int);
                    }
                    return Err(e);
                },
                Ok(()) => {},
            }
            let mut j: usize = 0;
            while j < i
                invariant
                    n == self.fields@.len(),
                    models == field_models(self.fields@),
                    0 <= j <= i < n,
                    field == &self.fields@[i as int],
                    limits == self.limits,
                    models[i as int].error(limits) is None,
                    prefix_problem(models, limits, i as int) is None,
                    forall|k: int| 0 <= k < j ==> models[k].name != models[i as int].name,
                decreases i - j,
            {
                if same_text(self.fields[j].name(), field.name()) {
                    let e = invalid(join3("duplicate field name `", field.name(), "`"));
                    proof {
                        assert(models[j as int].name == models[i as int].name);
                        assert(field_problem(models, limits, i as int) is Some);
                        lemma_prefix_problem_stable(models, limits, i + 1, n as int);
                    }
                    return Err(e);
                }
                j = j + 1;
            }
            assert(field_problem(models, limits, i as int) is None);
            assert(models.take(i + 1).drop_last() =~= models.take(i as int));
            if field.data_type().is_vector() {
                count = count + 1;
            }
            i = i + 1;
        }
        assert(models.take(n as int) =~= models);
        if count > self.limits.max_vector_fields {
            let mut s = "schema has ".to_owned();
            append_decimal(&mut s, count);
            s.append(" vector fields, exceeding limit ");
            append_decimal(&mut s, self.limits.max_vector_fields);
            return Err(invalid(s));
        }
        Ok(Schema { fields: self.fields, limits: self.limits })
    }
}

/// The field-name rule, byte by byte: a name is accepted exactly when it is not `pk`, is not
/// empty, starts with an ASCII letter (`A`–`Z`, `a`–`z`) or `_`, and continues with ASCII
/// letters, digits (`0`–`9`) or `_`.
pub proof fn lemma_field_name_rule(name: Seq<char>)
    ensures
        name_error(name) is None <==> {
            let b = text_bytes(name);
            &&& name != "pk"@
            &&& b.len() > 0
            &&& (65 <= b[0] <= 90 || 97 <= b[0] <= 122 || b[0] == 95)
            &&& forall|i: int| 1 <= i < b.len() ==> {
                let c = #[trigger] b[i];
                48 <= c <= 57 || 65 <= c <= 90 || 97 <= c <= 122 || c == 95
            }
        },
{
}

/// Every lowercase and uppercase ASCII letter counts as a letter, and nothing else does.
pub proof fn lemma_ascii_letters(b: u8)
    ensures
        ascii_letter(b) <==> (0x41 <= b <= 0x5a || 0x61 <= b <= 0x7a),
        ascii_letter_or_digit(b) <==> (0x30 <= b <= 0x39 || 0x41 <= b <= 0x5a || 0x61 <= b <= 0x7a),
{
}

/// Which field definitions limits accept: a valid name, and a dimension given exactly for the
/// vector types (dense `f32`, `f16`, `i8`; sparse `f32`, `f16`), non-zero and within the vector
/// dimension limit, and for sparse vectors at most the 2^32 distinct `u32` coordinates.
pub proof fn lemma_field_acceptance(name: Seq<char>, data_type: DataType, dimension: Option<usize>, limits: Limits)
    ensures
        field_error(name, data_type, dimension, limits) is None <==> {
            let vector = data_type == DataType::DenseVectorF32 || data_type == DataType::DenseVectorF16
                || data_type == DataType::DenseVectorI8 || data_type == DataType::SparseVectorF32
                || data_type == DataType::SparseVectorF16;
            let sparse = data_type == DataType::SparseVectorF32 || data_type == DataType::SparseVectorF16;
            &&& name_error(name) is None
            &&& vector <==> dimension is Some
            &&& vector ==> 0 < dimension.unwrap() <= limits.max_vector_dimension
            &&& sparse ==> dimension.unwrap() <= 0x1_0000_0000nat
        },
{
}

} // verus!
