//! The model generator: from a schema descriptor (an entity name, its
//! fields in order, and the collection that stores it, if any) it derives
//! the capability trait, the insertable and queryable forms, the conversion
//! between them and the CRUD operator bound to the collection.
use vstd::prelude::*;

verus! {

/// One named, typed field of a schema.
#[derive(Debug)]
pub struct FieldDef {
    pub name: String,
    pub ty: String,
}

/// An entity definition: its name, its fields in declared order, and the
/// collection it is stored in (none for a read-only projection).
#[derive(Debug)]
pub struct SchemaDescriptor {
    pub entity: String,
    pub fields: Vec<FieldDef>,
    pub collection: Option<String>,
}

/// Why a schema descriptor cannot be generated from.
#[derive(Debug, Clone, Copy, PartialEq, Eq, Structural)]
pub enum GenerationError {
    /// The schema has no field.
    NoFields,
    /// The field at this position has an empty name.
    UnnamedField(usize),
    /// The fields at these two positions share a name.
    DuplicateField(usize, usize),
    /// The field at this position takes the identifier's name.
    ReservedName(usize),
}

/// Which of the generated types a name denotes.
#[derive(Debug, Clone, Copy, PartialEq, Eq, Structural)]
pub enum Role {
    Capability,
    Insertable,
    Queryable,
}

/// The name of a generated type: the entity's name and the type's role, so
/// that the insertable and queryable forms are always distinct types.
#[derive(Debug)]
pub struct TypeName {
    pub entity: String,
    pub role: Role,
}

/// The capability trait: one read accessor per field, in schema order.
#[derive(Debug)]
pub struct CapabilityDef {
    pub name: TypeName,
    pub accessors: Vec<FieldDef>,
}

/// A generated struct: its fields, its constructor's parameters and the
/// fields its display shows, each in order.
#[derive(Debug)]
pub struct StructDef {
    pub name: TypeName,
    pub has_id: bool,
    pub fields: Vec<FieldDef>,
    pub constructor: Vec<FieldDef>,
    pub display: Vec<String>,
}

/// The conversion from the queryable form to the insertable one: the
/// fields it moves across, in order; the identifier is left behind.
#[derive(Debug)]
pub struct ConversionDef {
    pub source: TypeName,
    pub target: TypeName,
    pub moved: Vec<String>,
}

/// The CRUD operator of one collection: keyed by the identifier column,
/// writing every other column on update.
#[derive(Debug)]
pub struct OperatorDef {
    pub collection: String,
    pub queryable: TypeName,
    pub insertable: TypeName,
    pub key: String,
    pub update_columns: Vec<String>,
}

/// Everything generated from one schema descriptor.
#[derive(Debug)]
pub struct GeneratedModel {
    pub capability: CapabilityDef,
    pub insertable: Option<StructDef>,
    pub queryable: StructDef,
    pub conversion: Option<ConversionDef>,
    pub operator: Option<OperatorDef>,
}

/// Fields as (name, type) pairs.
pub open spec fn field_views(fields: Seq<FieldDef>) -> Seq<(Seq<char>, Seq<char>)> {
    Seq::new(fields.len(), |i: int| (fields[i].name@, fields[i].ty@))
}

/// The names of the fields, in order.
pub open spec fn field_names(fields: Seq<FieldDef>) -> Seq<Seq<char>> {
    Seq::new(fields.len(), |i: int| fields[i].name@)
}

pub open spec fn string_views(names: Seq<String>) -> Seq<Seq<char>> {
    Seq::new(names.len(), |i: int| names[i]@)
}

/// The identifier field that the queryable form puts first.
pub open spec fn id_field() -> (Seq<char>, Seq<char>) {
    (seq!['i', 'd'], seq!['i', '3', '2'])
}

/// Non-empty, with every field named and no name used twice.
pub open spec fn valid_fields(fields: Seq<FieldDef>) -> bool {
    &&& fields.len() > 0
    &&& forall|i: int| 0 <= i < fields.len() ==> fields[i].name@.len() > 0
    &&& forall|i: int| 0 <= i < fields.len() ==> fields[i].name@ != id_field().0
    &&& forall|i: int, j: int|
        0 <= i < j < fields.len() ==> fields[i].name@ != fields[j].name@
}

pub open spec fn names_type(n: TypeName, entity: Seq<char>, role: Role) -> bool {
    n.entity@ == entity && n.role == role
}

/// What a generated struct is for a schema's fields: the identifier comes
/// first in the queryable form only, the schema's fields follow in order.
pub open spec fn struct_matches(s: StructDef, entity: Seq<char>, fields: Seq<FieldDef>, with_id: bool) -> bool {
    &&& names_type(s.name, entity, if with_id { Role::Queryable } else { Role::Insertable })
    &&& s.has_id == with_id
    &&& field_views(s.fields@) == field_views(fields)
    &&& field_views(s.constructor@) == if with_id {
        seq![id_field()] + field_views(fields)
    } else {
        field_views(fields)
    }
    &&& string_views(s.display@) == field_names(fields)
}

/// What the generator yields for a valid schema descriptor.
pub open spec fn generated_from(schema: SchemaDescriptor, m: GeneratedModel) -> bool {
    let entity = schema.entity@;
    let fields = schema.fields@;
    &&& names_type(m.capability.name, entity, Role::Capability)
    &&& field_views(m.capability.accessors@) == field_views(fields)
    &&& struct_matches(m.queryable, entity, fields, true)
    &&& m.insertable is Some <==> schema.collection is Some
    &&& m.conversion is Some <==> schema.collection is Some
    &&& m.operator is Some <==> schema.collection is Some
    &&& m.insertable matches Some(s) ==> struct_matches(s, entity, fields, false)
    &&& m.conversion matches Some(c) ==> {
        &&& names_type(c.source, entity, Role::Queryable)
        &&& names_type(c.target, entity, Role::Insertable)
        &&& string_views(c.moved@) == field_names(fields)
    }
    &&& m.operator matches Some(o) ==> {
        &&& schema.collection matches Some(t) && o.collection@ == t@
        &&& names_type(o.queryable, entity, Role::Queryable)
        &&& names_type(o.insertable, entity, Role::Insertable)
        &&& o.key@ == id_field().0
        &&& string_views(o.update_columns@) == field_names(fields)
    }
}

/// Copies each field, keeping the order.
pub fn map_fields(fields: &Vec<FieldDef>) -> (r: Vec<FieldDef>)
    ensures
        field_views(r@) == field_views(fields@),
{
    let mut r: Vec<FieldDef> = Vec::new();
    let mut i: usize = 0;
    while i < fields.len()
        invariant
            i <= fields@.len(),
            r@.len() == i,
            forall|j: int|
                0 <= j < i ==> r@[j].name@ == fields@[j].name@ && r@[j].ty@ == fields@[j].ty@,
        decreases fields@.len() - i,
    {
        r.push(FieldDef { name: fields[i].name.clone(), ty: fields[i].ty.clone() });
        i = i + 1;
    }
    assert(field_views(r@) =~= field_views(fields@));
    r
}

/// The names of the fields, in order.
pub fn map_names(fields: &Vec<FieldDef>) -> (r: Vec<String>)
    ensures
        string_views(r@) == field_names(fields@),
{
    let mut r: Vec<String> = Vec::new();
    let mut i: usize = 0;
    while i < fields.len()
        invariant
            i <= fields@.len(),
            r@.len() == i,
            forall|j: int| 0 <= j < i ==> r@[j]@ == fields@[j].name@,
        decreases fields@.len() - i,
    {
        r.push(fields[i].name.clone());
        i = i + 1;
    }
    assert(string_views(r@) =~= field_names(fields@));
    r
}

/// Checks a schema's fields: at least one, each named, no name twice.
pub fn validate(fields: &Vec<FieldDef>) -> (r: Result<(), GenerationError>)
    ensures
        r is Ok <==> valid_fields(fields@),
        r == Err::<(), GenerationError>(GenerationError::NoFields) <==> fields@.len() == 0,
        r matches Err(GenerationError::UnnamedField(i)) ==> i < fields@.len()
            && fields@[i as int].name@.len() == 0,
        r matches Err(GenerationError::DuplicateField(i, j)) ==> i < j < fields@.len()
            && fields@[i as int].name@ == fields@[j as int].name@,
        r matches Err(GenerationError::ReservedName(i)) ==> i < fields@.len()
            && fields@[i as int].name@ == id_field().0,
{
    if fields.len() == 0 {
        return Err(GenerationError::NoFields);
    }
    let id_name = "id".to_owned();
    proof {
        reveal_strlit("id");
        assert(id_name@ =~= id_field().0);
    }
    let mut i: usize = 0;
    while i < fields.len()
        invariant
            i <= fields@.len(),
            id_name@ == id_field().0,
            forall|k: int| 0 <= k < i ==> fields@[k].name@.len() > 0,
            forall|k: int| 0 <= k < i ==> fields@[k].name@ != id_field().0,
            forall|k: int, l: int| 0 <= k < l < fields@.len() && k < i ==> fields@[k].name@
                != fields@[l].name@,
        decreases fields@.len() - i,
    {
        if fields[i].name.as_str().is_empty() {
            return Err(GenerationError::UnnamedField(i));
        }
        if fields[i].name == id_name {
            return Err(GenerationError::ReservedName(i));
        }
        let mut j: usize = i + 1;
        while j < fields.len()
            invariant
                i < fields@.len(),
                i < j <= fields@.len(),
                forall|l: int| i < l < j ==> fields@[i as int].name@ != fields@[l].name@,
            decreases fields@.len() - j,
        {
            if fields[i].name == fields[j].name {
                return Err(GenerationError::DuplicateField(i, j));
            }
            j = j + 1;
        }
        i = i + 1;
    }
    Ok(())
}

/// The name of one of an entity's generated types.
pub fn generated_name(entity: &String, role: Role) -> (r: TypeName)
    ensures
        names_type(r, entity@, role),
{
    TypeName { entity: entity.clone(), role }
}

/// The capability trait of an entity.
pub fn write_trait(entity: &String, fields: &Vec<FieldDef>) -> (r: CapabilityDef)
    ensures
        names_type(r.name, entity@, Role::Capability),
        field_views(r.accessors@) == field_views(fields@),
{
    CapabilityDef { name: generated_name(entity, Role::Capability), accessors: map_fields(fields) }
}

/// The insertable form (`persisted`) or the queryable form of an entity.
pub fn write_struct(entity: &String, persisted: bool, fields: &Vec<FieldDef>) -> (r: StructDef)
    ensures
        struct_matches(r, entity@, fields@, !persisted),
{
    let role = if persisted {
        Role::Insertable
    } else {
        Role::Queryable
    };
    let mut constructor: Vec<FieldDef> = Vec::new();
    if !persisted {
        constructor.push(FieldDef { name: "id".to_owned(), ty: "i32".to_owned() });
        proof {
            reveal_strlit("id");
            reveal_strlit("i32");
        }
    }
    let start: usize = constructor.len();
    let ghost prefix = field_views(constructor@);
    proof {
        if !persisted {
            assert(constructor@[0].name@ =~= seq!['i', 'd']);
            assert(constructor@[0].ty@ =~= seq!['i', '3', '2']);
            assert(prefix =~= seq![id_field()]);
        } else {
            assert(prefix =~= Seq::<(Seq<char>, Seq<char>)>::empty());
        }
    }
    let mut i: usize = 0;
    while i < fields.len()
        invariant
            i <= fields@.len(),
            start == prefix.len(),
            constructor@.len() == start + i,
            prefix == if persisted {
                Seq::<(Seq<char>, Seq<char>)>::empty()
            } else {
                seq![id_field()]
            },
            forall|j: int| 0 <= j < start ==> (constructor@[j].name@, constructor@[j].ty@) == prefix[j],
            forall|j: int|
                0 <= j < i ==> constructor@[start + j].name@ == fields@[j].name@
                    && constructor@[start + j].ty@ == fields@[j].ty@,
        decreases fields@.len() - i,
    {
        constructor.push(FieldDef { name: fields[i].name.clone(), ty: fields[i].ty.clone() });
        i = i + 1;
    }
    assert(field_views(constructor@) =~= prefix + field_views(fields@));
    StructDef {
        name: generated_name(entity, role),
        has_id: !persisted,
        fields: map_fields(fields),
        constructor,
        display: map_names(fields),
    }
}

/// The conversion from an entity's queryable form to its insertable form.
pub fn write_from(entity: &String, fields: &Vec<FieldDef>) -> (r: ConversionDef)
    ensures
        names_type(r.source, entity@, Role::Queryable),
        names_type(r.target, entity@, Role::Insertable),
        string_views(r.moved@) == field_names(fields@),
{
    ConversionDef {
        source: generated_name(entity, Role::Queryable),
        target: generated_name(entity, Role::Insertable),
        moved: map_names(fields),
    }
}

/// The CRUD operator of an entity over the named collection.
pub fn write_operator_impl(entity: &String, collection: &String, fields: &Vec<FieldDef>) -> (r:
    OperatorDef)
    ensures
        r.collection@ == collection@,
        names_type(r.queryable, entity@, Role::Queryable),
        names_type(r.insertable, entity@, Role::Insertable),
        r.key@ == id_field().0,
        string_views(r.update_columns@) == field_names(fields@),
{
    proof {
        reveal_strlit("id");
    }
    OperatorDef {
        collection: collection.clone(),
        queryable: generated_name(entity, Role::Queryable),
        insertable: generated_name(entity, Role::Insertable),
        key: "id".to_owned(),
        update_columns: map_names(fields),
    }
}

/// Generates every artifact of a schema descriptor, or says why it cannot.
pub fn datamodel(schema: &SchemaDescriptor) -> (r: Result<GeneratedModel, GenerationError>)
    ensures
        r is Ok <==> valid_fields(schema.fields@),
        r matches Err(e) ==> validate_error(schema.fields@, e),
        r matches Ok(m) ==> generated_from(*schema, m),
{
    match validate(&schema.fields) {
        Err(e) => Err(e),
        Ok(()) => {
            let capability = write_trait(&schema.entity, &schema.fields);
            let queryable = write_struct(&schema.entity, false, &schema.fields);
            let (insertable, conversion, operator) = match &schema.collection {
                Some(collection) => (
                    Some(write_struct(&schema.entity, true, &schema.fields)),
                    Some(write_from(&schema.entity, &schema.fields)),
                    Some(write_operator_impl(&schema.entity, collection, &schema.fields)),
                ),
                None => (None, None, None),
            };
            Ok(GeneratedModel { capability, insertable, queryable, conversion, operator })
        },
    }
}

/// An error `validate` may report for these fields.
pub open spec fn validate_error(fields: Seq<FieldDef>, e: GenerationError) -> bool {
    match e {
        GenerationError::NoFields => fields.len() == 0,
        GenerationError::UnnamedField(i) => i < fields.len() && fields[i as int].name@.len() == 0,
        GenerationError::DuplicateField(i, j) => i < j < fields.len() && fields[i as int].name@
            == fields[j as int].name@,
        GenerationError::ReservedName(i) => i < fields.len() && fields[i as int].name@ == id_field().0,
    }
}

/// The conversion generated for a stored entity is total and loses only the
/// identifier: it moves every other queryable field, unchanged and in order,
/// and those are exactly the insertable form's fields.
pub proof fn lemma_conversion_keeps_fields(schema: SchemaDescriptor, m: GeneratedModel)
    requires
        generated_from(schema, m),
        schema.collection is Some,
    ensures
        m.conversion is Some,
        m.insertable is Some,
        field_views(m.queryable.constructor@)[0] == id_field(),
        string_views(m.conversion.unwrap().moved@) == field_names(
            m.queryable.constructor@,
        ).drop_first(),
        field_views(m.insertable.unwrap().fields@) == field_views(
            m.queryable.constructor@,
        ).drop_first(),
{
    let q = m.queryable.constructor@;
    let fields = schema.fields@;
    assert(field_views(q) == seq![id_field()] + field_views(fields));
    assert(field_views(q).drop_first() =~= field_views(fields));
    assert forall|i: int| 0 <= i < fields.len() implies #[trigger] q[i + 1].name@
        == fields[i].name@ by {
        assert(field_views(q)[i + 1] == field_views(fields)[i]);
    }
    assert(field_names(q).drop_first() =~= field_names(fields));
}

/// Accessors, constructor parameters and displayed fields of every
/// generated type follow the schema's declared field order; the queryable
/// constructor takes the identifier first.
pub proof fn lemma_declared_order(schema: SchemaDescriptor, m: GeneratedModel)
    requires
        generated_from(schema, m),
    ensures
        field_views(m.capability.accessors@) == field_views(schema.fields@),
        field_views(m.queryable.constructor@) == seq![id_field()] + field_views(schema.fields@),
        string_views(m.queryable.display@) == field_names(schema.fields@),
        m.insertable matches Some(s) ==> field_views(s.constructor@) == field_views(
            schema.fields@,
        ) && string_views(s.display@) == field_names(schema.fields@),
{
}

/// Generation is total on valid schemas and depends on nothing but the
/// schema: two results for equal descriptors agree on every artifact.
pub proof fn lemma_generation_deterministic(
    schema: SchemaDescriptor,
    a: GeneratedModel,
    b: GeneratedModel,
)
    requires
        valid_fields(schema.fields@),
        generated_from(schema, a),
        generated_from(schema, b),
    ensures
        field_views(a.capability.accessors@) == field_views(b.capability.accessors@),
        field_views(a.queryable.constructor@) == field_views(b.queryable.constructor@),
        field_views(a.queryable.fields@) == field_views(b.queryable.fields@),
        a.insertable is Some <==> b.insertable is Some,
        a.insertable matches Some(s) ==> field_views(s.constructor@) == field_views(
            b.insertable.unwrap().constructor@,
        ),
{
}

} // verus!
