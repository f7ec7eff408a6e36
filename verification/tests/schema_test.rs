use zvec::error::{Error, ErrorCode};
use zvec::schema::CollectionSchemaBuilder;

/// Stands for a created field in these tests: its name.
#[derive(Debug, PartialEq)]
struct Field(&'static str);

/// Stands for index parameters in these tests: their kind.
#[derive(Debug, PartialEq)]
struct Params(&'static str);

type Builder = CollectionSchemaBuilder<Field, Params>;

fn null_byte() -> Error {
    Error {
        code: ErrorCode::InvalidArgument,
        message: "string contains null byte".into(),
    }
}

#[test]
fn test_collection_schema_builder_default_values() {
    let builder = Builder::new("test_collection");
    assert_eq!(builder.name, "test_collection");
    assert!(builder.fields.is_empty());
    assert!(builder.max_doc_count_per_segment.is_none());
}

#[test]
fn test_collection_schema_builder_add_field() {
    let builder = Builder::new("test_collection").add_field(Field("test_field"));

    assert_eq!(builder.fields.len(), 1);
    assert_eq!(builder.fields[0].0, Field("test_field"));
    assert!(builder.fields[0].1.is_none());
}

#[test]
fn test_collection_schema_builder_add_vector_field() {
    let builder = Builder::new("test_collection")
        .add_vector_field(Ok(Field("vector")), Params("hnsw"));

    assert_eq!(builder.fields.len(), 1);
    assert_eq!(builder.fields[0].0, Field("vector"));
    assert!(builder.fields[0].1.is_some());
}

#[test]
fn test_collection_schema_builder_add_indexed_field() {
    let builder = Builder::new("test_collection")
        .add_indexed_field(Ok(Field("age")), Params("invert"));

    assert_eq!(builder.fields.len(), 1);
    assert_eq!(builder.fields[0].0, Field("age"));
    assert!(builder.fields[0].1.is_some());
}

#[test]
fn test_collection_schema_builder_max_doc_count_per_segment() {
    let builder = Builder::new("test_collection").max_doc_count_per_segment(1000);

    assert_eq!(builder.max_doc_count_per_segment, Some(1000));
}

#[test]
fn test_collection_schema_builder_multiple_fields() {
    let builder = Builder::new("test_collection")
        .add_field(Field("id"))
        .add_field(Field("name"))
        .add_vector_field(Ok(Field("vector")), Params("hnsw"));

    assert_eq!(builder.fields.len(), 3);
    assert_eq!(builder.fields[0].0, Field("id"));
    assert_eq!(builder.fields[1].0, Field("name"));
    assert_eq!(builder.fields[2].0, Field("vector"));
}

#[test]
fn test_collection_schema_builder_method() {
    let builder = Builder::new("test_collection");
    assert_eq!(builder.name, "test_collection");
    assert!(builder.fields.is_empty());
}

#[test]
fn test_collection_schema_builder_chaining() {
    let builder = Builder::new("chained_collection")
        .add_field(Field("id"))
        .add_vector_field(Ok(Field("embedding")), Params("hnsw"))
        .add_indexed_field(Ok(Field("category")), Params("invert"))
        .max_doc_count_per_segment(5000);

    assert_eq!(builder.fields.len(), 3);
    assert_eq!(builder.max_doc_count_per_segment, Some(5000));
    assert_eq!(builder.fields[0].0, Field("id"));
    assert_eq!(builder.fields[1].0, Field("embedding"));
    assert_eq!(builder.fields[2].0, Field("category"));
}

#[test]
fn build_hands_out_fields_in_order() {
    let plan = Builder::new("docs")
        .add_field(Field("id"))
        .add_vector_field(Ok(Field("embedding")), Params("hnsw"))
        .max_doc_count_per_segment(50000)
        .build()
        .unwrap();
    assert_eq!(plan.name, "docs");
    assert_eq!(plan.fields.len(), 2);
    assert_eq!(plan.fields[0], (Field("id"), None));
    assert_eq!(plan.fields[1], (Field("embedding"), Some(Params("hnsw"))));
    assert_eq!(plan.max_doc_count_per_segment, Some(50000));
}

#[test]
fn build_reports_last_failed_field() {
    let first = Error {
        code: ErrorCode::InternalError,
        message: "failed to create field schema".into(),
    };
    let result = Builder::new("docs")
        .add_vector_field(Err(first.clone()), Params("hnsw"))
        .add_field(Field("id"))
        .build();
    assert_eq!(result.err(), Some(first.clone()));

    let result = Builder::new("docs")
        .add_vector_field(Err(first), Params("hnsw"))
        .add_indexed_field(Err(null_byte()), Params("invert"))
        .add_vector_field(Ok(Field("embedding")), Params("hnsw"))
        .build();
    assert_eq!(result.err(), Some(null_byte()));
}

#[test]
fn failed_field_is_not_listed() {
    let builder = Builder::new("docs")
        .add_field(Field("id"))
        .add_indexed_field(Err(null_byte()), Params("invert"));
    assert_eq!(builder.fields.len(), 1);
    assert_eq!(builder.deferred_error, Some(null_byte()));
}
