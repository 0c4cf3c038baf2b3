use datamodel::schema::{datamodel, validate, FieldDef, GenerationError, Role, SchemaDescriptor};

fn field(name: &str, ty: &str) -> FieldDef {
    FieldDef { name: name.to_string(), ty: ty.to_string() }
}

fn users_schema(collection: Option<&str>) -> SchemaDescriptor {
    SchemaDescriptor {
        entity: "User".to_string(),
        fields: vec![
            field("username", "String"),
            field("password", "String"),
            field("created_at", "NaiveDateTime"),
            field("salt", "String"),
        ],
        collection: collection.map(|c| c.to_string()),
    }
}

fn names(fields: &[FieldDef]) -> Vec<&str> {
    fields.iter().map(|f| f.name.as_str()).collect()
}

#[test]
fn empty_schema_is_rejected() {
    assert_eq!(validate(&vec![]), Err(GenerationError::NoFields));
    let s = SchemaDescriptor { entity: "E".to_string(), fields: vec![], collection: None };
    assert_eq!(datamodel(&s).unwrap_err(), GenerationError::NoFields);
}

#[test]
fn unnamed_field_is_rejected() {
    let fields = vec![field("a", "i32"), field("", "i32")];
    assert_eq!(validate(&fields), Err(GenerationError::UnnamedField(1)));
}

#[test]
fn duplicate_field_is_rejected() {
    let fields = vec![field("a", "i32"), field("b", "i32"), field("a", "String")];
    assert_eq!(validate(&fields), Err(GenerationError::DuplicateField(0, 2)));
}

#[test]
fn valid_schema_is_accepted() {
    assert_eq!(validate(&users_schema(None).fields), Ok(()));
}

#[test]
fn stored_entity_gets_every_artifact_in_order() {
    let m = datamodel(&users_schema(Some("users"))).unwrap();
    let order = vec!["username", "password", "created_at", "salt"];
    assert_eq!(m.capability.name.role, Role::Capability);
    assert_eq!(names(&m.capability.accessors), order);
    assert_eq!(m.queryable.name.role, Role::Queryable);
    assert_eq!(m.queryable.name.entity, "User");
    assert!(m.queryable.has_id);
    assert_eq!(
        names(&m.queryable.constructor),
        vec!["id", "username", "password", "created_at", "salt"]
    );
    assert_eq!(m.queryable.constructor[0].ty, "i32");
    assert_eq!(names(&m.queryable.fields), order);
    assert_eq!(m.queryable.display, order);
    let ins = m.insertable.unwrap();
    assert_eq!(ins.name.role, Role::Insertable);
    assert!(!ins.has_id);
    assert_eq!(names(&ins.constructor), order);
    assert_eq!(ins.constructor[2].ty, "NaiveDateTime");
    let conv = m.conversion.unwrap();
    assert_eq!(conv.source.role, Role::Queryable);
    assert_eq!(conv.target.role, Role::Insertable);
    assert_eq!(conv.moved, order);
    let op = m.operator.unwrap();
    assert_eq!(op.collection, "users");
    assert_eq!(op.key, "id");
    assert_eq!(op.update_columns, order);
}

#[test]
fn projection_gets_no_store_artifacts() {
    let m = datamodel(&users_schema(None)).unwrap();
    assert!(m.insertable.is_none());
    assert!(m.conversion.is_none());
    assert!(m.operator.is_none());
    assert_eq!(names(&m.capability.accessors).len(), 4);
}

#[test]
fn generation_is_deterministic() {
    let a = datamodel(&users_schema(Some("users"))).unwrap();
    let b = datamodel(&users_schema(Some("users"))).unwrap();
    assert_eq!(format!("{:?}", a), format!("{:?}", b));
}

#[test]
fn identifier_name_is_reserved() {
    let fields = vec![field("name", "String"), field("id", "i32")];
    assert_eq!(validate(&fields), Err(GenerationError::ReservedName(1)));
}
