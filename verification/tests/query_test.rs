use zvec::error::ErrorCode;
use zvec::query::{QueryStep, SearchQueryBuilder};

fn bits(v: &[f32]) -> Vec<u32> {
    v.iter().map(|x| x.to_bits()).collect()
}

#[test]
fn test_vector_query_builder_default_values() {
    let builder = SearchQueryBuilder::new();
    assert!(builder.field_name.is_none());
    assert!(builder.vector.is_none());
    assert_eq!(builder.topk, 10);
    assert!(builder.filter.is_none());
    assert!(builder.include_vector.is_none());
    assert!(builder.include_doc_id.is_none());
    assert!(builder.output_fields.is_none());
}

#[test]
fn test_vector_query_builder_setters() {
    let builder = SearchQueryBuilder::new()
        .field_name("test_field")
        .vector(&bits(&[1.0, 2.0, 3.0]))
        .topk(5)
        .filter("age > 18")
        .include_vector(true)
        .include_doc_id(false)
        .output_fields(&["name", "age"]);

    assert_eq!(builder.field_name, Some("test_field".to_string()));
    assert_eq!(builder.vector, Some(bits(&[1.0, 2.0, 3.0])));
    assert_eq!(builder.topk, 5);
    assert_eq!(builder.filter, Some("age > 18".to_string()));
    assert_eq!(builder.include_vector, Some(true));
    assert_eq!(builder.include_doc_id, Some(false));
    assert_eq!(
        builder.output_fields,
        Some(vec!["name".to_string(), "age".to_string()])
    );
}

#[test]
fn test_vector_query_builder_build_missing_field_name() {
    let builder = SearchQueryBuilder::new().vector(&bits(&[1.0, 2.0, 3.0]));

    let result = builder.build();
    assert!(result.is_err());
    if let Err(e) = result {
        assert_eq!(e.code, ErrorCode::InvalidArgument);
        assert!(e.message.contains("field_name is required"));
    }
}

#[test]
fn test_vector_query_builder_build_missing_vector() {
    let builder = SearchQueryBuilder::new().field_name("test_field");

    let result = builder.build();
    assert!(result.is_err());
    if let Err(e) = result {
        assert_eq!(e.code, ErrorCode::InvalidArgument);
        assert!(e.message.contains("vector is required"));
    }
}

#[test]
fn test_vector_query_builder_builder_method() {
    let builder = SearchQueryBuilder::new();
    assert!(builder.field_name.is_none());
    assert!(builder.vector.is_none());
    assert_eq!(builder.topk, 10);
}

#[test]
fn test_vector_query_builder_partial_setters() {
    let builder = SearchQueryBuilder::new()
        .field_name("test_field")
        .vector(&bits(&[1.0, 2.0]))
        .filter("status = 'active'");
    assert_eq!(builder.field_name, Some("test_field".to_string()));
    assert_eq!(builder.vector, Some(bits(&[1.0, 2.0])));
    assert_eq!(builder.filter, Some("status = 'active'".to_string()));
    assert!(builder.include_vector.is_none());
    assert!(builder.output_fields.is_none());
}

#[test]
fn test_vector_query_builder_empty_vector() {
    let builder = SearchQueryBuilder::new()
        .field_name("test_field")
        .vector(&[]);
    assert_eq!(builder.vector, Some(vec![]));
}

#[test]
fn test_vector_query_builder_empty_output_fields() {
    let builder = SearchQueryBuilder::new()
        .field_name("test_field")
        .vector(&bits(&[1.0]))
        .output_fields(&[]);
    assert_eq!(builder.output_fields, Some(vec![]));
}

#[test]
fn test_vector_query_builder_topk_zero() {
    let builder = SearchQueryBuilder::new()
        .field_name("test_field")
        .vector(&bits(&[1.0]))
        .topk(0);
    assert_eq!(builder.topk, 0);
}

#[test]
fn test_vector_query_builder_topk_negative() {
    let builder = SearchQueryBuilder::new()
        .field_name("test_field")
        .vector(&bits(&[1.0]))
        .topk(-1);
    assert_eq!(builder.topk, -1);
}

#[test]
fn test_vector_query_builder_overwrite_field_name() {
    let builder = SearchQueryBuilder::new()
        .field_name("first_field")
        .field_name("second_field");
    assert_eq!(builder.field_name, Some("second_field".to_string()));
}

#[test]
fn test_vector_query_builder_large_vector() {
    let large_vector: Vec<f32> = (0..1024).map(|i| i as f32).collect();
    let builder = SearchQueryBuilder::new()
        .field_name("test_field")
        .vector(&bits(&large_vector));
    assert_eq!(builder.vector.as_ref().unwrap().len(), 1024);
}

fn describe(steps: &[QueryStep]) -> Vec<String> {
    steps
        .iter()
        .map(|s| match s {
            QueryStep::CreateQuery => "create".to_string(),
            QueryStep::SetFieldName(f) => format!("field={}", f),
            QueryStep::SetVector(v) => format!("vector={:?}", v.iter().map(|b| f32::from_bits(*b)).collect::<Vec<_>>()),
            QueryStep::SetTopk(k) => format!("topk={}", k),
            QueryStep::SetFilter(f) => format!("filter={}", f),
            QueryStep::SetIncludeVector(b) => format!("include_vector={}", b),
            QueryStep::SetIncludeDocId(b) => format!("include_doc_id={}", b),
            QueryStep::SetOutputFields(v) => format!("outputs={}", v.join(",")),
            QueryStep::CreateFts => "create_fts".to_string(),
            QueryStep::SetFtsQueryString(q) => format!("fts_query={}", q),
            QueryStep::SetFtsMatchString(m) => format!("fts_match={}", m),
            QueryStep::AttachFts => "attach_fts".to_string(),
            QueryStep::Reject(e) => format!("reject={:?}:{}", e.code, e.message),
        })
        .collect()
}

#[test]
fn build_lists_the_calls_in_order() {
    let steps = SearchQueryBuilder::new()
        .field_name("embedding")
        .vector(&bits(&[0.5, 0.25]))
        .topk(3)
        .filter("category = 'even'")
        .include_doc_id(true)
        .output_fields(&["category"])
        .build()
        .unwrap();
    assert_eq!(
        describe(&steps),
        vec![
            "create",
            "field=embedding",
            "vector=[0.5, 0.25]",
            "topk=3",
            "filter=category = 'even'",
            "include_doc_id=true",
            "outputs=category",
        ]
    );
}

#[test]
fn build_adds_fts_part_when_either_string_is_set() {
    let steps = SearchQueryBuilder::new()
        .field_name("content")
        .vector(&[])
        .fts_match_string("learning")
        .build()
        .unwrap();
    assert_eq!(
        describe(&steps),
        vec![
            "create",
            "field=content",
            "vector=[]",
            "topk=10",
            "create_fts",
            "fts_match=learning",
            "attach_fts",
        ]
    );
}

#[test]
fn build_rejects_null_bytes_where_the_string_is_handed_over() {
    let steps = SearchQueryBuilder::new()
        .field_name("embedding")
        .vector(&bits(&[1.0]))
        .filter("x = 1")
        .output_fields(&["ok", "bad\0field"])
        .fts_query_string("also\0bad")
        .build()
        .unwrap();
    assert_eq!(
        describe(&steps),
        vec![
            "create",
            "field=embedding",
            "vector=[1.0]",
            "topk=10",
            "filter=x = 1",
            "reject=InvalidArgument:string contains null byte",
        ]
    );

    let steps = SearchQueryBuilder::new()
        .field_name("emb\0edding")
        .vector(&bits(&[1.0]))
        .build()
        .unwrap();
    assert_eq!(
        describe(&steps),
        vec!["create", "reject=InvalidArgument:string contains null byte"]
    );

    let steps = SearchQueryBuilder::new()
        .field_name("content")
        .vector(&bits(&[1.0]))
        .fts_query_string("deep")
        .fts_match_string("lear\0ning")
        .build()
        .unwrap();
    assert_eq!(
        describe(&steps),
        vec![
            "create",
            "field=content",
            "vector=[1.0]",
            "topk=10",
            "create_fts",
            "fts_query=deep",
            "reject=InvalidArgument:string contains null byte",
        ]
    );
}

#[test]
fn build_reports_missing_field_before_missing_vector() {
    let err = SearchQueryBuilder::new().build().unwrap_err();
    assert_eq!(err.message, "field_name is required");
}

#[test]
fn test_vector_query_builder_missing_field_name() {
    let result = SearchQueryBuilder::new()
        .vector(&bits(&[0.1, 0.2, 0.3]))
        .topk(10)
        .build();

    match result {
        Err(err) => assert!(err.is_invalid_argument()),
        Ok(_) => panic!("expected error for missing field_name"),
    }
}

#[test]
fn test_vector_query_builder_missing_vector() {
    let result = SearchQueryBuilder::new()
        .field_name("embedding")
        .topk(10)
        .build();

    match result {
        Err(err) => assert!(err.is_invalid_argument()),
        Ok(_) => panic!("expected error for missing vector"),
    }
}
