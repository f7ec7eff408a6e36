use zvec::collection::{collect_docs, index_names, WriteResult};

#[test]
fn collect_docs_handles_null_pointer() {
    let docs = collect_docs::<String>(Vec::new());
    assert!(docs.is_empty());
}

#[test]
fn collect_docs_handles_zero_count() {
    let docs = collect_docs::<String>(vec![]);
    assert!(docs.is_empty());
}

#[test]
fn collect_docs_skips_empty_slots_in_order() {
    let docs = collect_docs(vec![Some("a"), None, Some("b"), None, None, Some("c")]);
    assert_eq!(docs, vec!["a", "b", "c"]);
}

#[test]
fn write_result_from_counts() {
    let r = WriteResult::from_counts(97, 3);
    assert_eq!(r.success_count, 97);
    assert_eq!(r.error_count, 3);
    assert_eq!(
        r,
        WriteResult {
            success_count: 97,
            error_count: 3
        }
    );
}

#[test]
fn index_names_fill_missing_with_empty() {
    let names = index_names(vec![Some("embedding".to_string()), None]);
    assert_eq!(names, vec!["embedding".to_string(), String::new()]);
}

#[test]
fn collect_docs_of_joined_slots_joins_the_results() {
    let a = vec![Some(1), None, Some(2)];
    let b = vec![None, Some(3)];
    let mut joined = a.clone();
    joined.extend(b.clone());
    let mut expected = collect_docs(a);
    expected.extend(collect_docs(b));
    assert_eq!(collect_docs(joined), expected);
    assert_eq!(expected, vec![1, 2, 3]);
}
