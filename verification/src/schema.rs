//! Collection schemas: the builder that collects field definitions and index
//! parameters, and the checked plan it turns into.
//!
//! The builder is generic over the field definition `F` and the index
//! parameters `P`, which are handles of the C interface: the builder decides
//! what is kept, in which order, and when building fails; creating the fields
//! and the schema is the caller's part.
use vstd::prelude::*;

use crate::error::Error;

verus! {

/// Builder for a collection schema.
pub struct CollectionSchemaBuilder<F, P> {
    /// Name of the collection.
    pub name: String,
    /// The fields, in the order they were added, each with the index
    /// parameters to set on it, if any.
    pub fields: Vec<(F, Option<P>)>,
    /// Maximum document count per segment, if set.
    pub max_doc_count_per_segment: Option<u64>,
    /// The error of the last field that could not be created, if any.
    pub deferred_error: Option<Error>,
}

/// What building a schema yields: the collection name, the fields in order
/// with their index parameters, and the maximum document count per segment.
#[derive(Debug)]
pub struct SchemaPlan<F, P> {
    pub name: String,
    pub fields: Vec<(F, Option<P>)>,
    pub max_doc_count_per_segment: Option<u64>,
}

/// The contents of a schema builder as plain values.
pub struct SchemaBuilderView<F, P> {
    pub name: Seq<char>,
    pub fields: Seq<(F, Option<P>)>,
    pub max_doc_count_per_segment: Option<u64>,
    pub deferred_error: Option<Error>,
}

impl<F, P> View for CollectionSchemaBuilder<F, P> {
    type V = SchemaBuilderView<F, P>;

    open spec fn view(&self) -> SchemaBuilderView<F, P> {
        SchemaBuilderView {
            name: self.name@,
            fields: self.fields@,
            max_doc_count_per_segment: self.max_doc_count_per_segment,
            deferred_error: self.deferred_error,
        }
    }
}

impl<F, P> SchemaBuilderView<F, P> {
    /// The builder after adding a field without index parameters.
    pub open spec fn added(self, field: F) -> Self {
        SchemaBuilderView { fields: self.fields.push((field, None)), ..self }
    }

    /// The builder after the attempt to create a field with index parameters:
    /// the created field joins the list; a failure is kept as the error that
    /// building reports, in place of any earlier one.
    pub open spec fn with_created(self, field: Result<F, Error>, index_params: P) -> Self {
        match field {
            Ok(f) => SchemaBuilderView { fields: self.fields.push((f, Some(index_params))), ..self },
            Err(e) => SchemaBuilderView { deferred_error: Some(e), ..self },
        }
    }

    /// The builder after setting the segment size.
    pub open spec fn with_max_doc_count(self, count: u64) -> Self {
        SchemaBuilderView { max_doc_count_per_segment: Some(count), ..self }
    }
}

impl<F, P> CollectionSchemaBuilder<F, P> {
    /// Creates a new builder with the given collection name.
    pub fn new(name: &str) -> (r: Self)
        ensures
            r.name@ == name@,
            r.fields@ == Seq::<(F, Option<P>)>::empty(),
            r.max_doc_count_per_segment is None,
            r.deferred_error is None,
    {
        CollectionSchemaBuilder {
            name: String::from_str(name),
            fields: Vec::new(),
            max_doc_count_per_segment: None,
            deferred_error: None,
        }
    }

    /// Adds a field without index parameters.
    pub fn add_field(self, field: F) -> (r: Self)
        ensures
            r@ == self@.added(field),
    {
        let mut s = self;
        s.fields.push((field, None));
        s
    }

    /// Adds a vector field with index parameters, given the result of
    /// creating the field (non-nullable, of the vector's dimension).
    ///
    /// A failure to create the field is kept and reported when building.
    pub fn add_vector_field(self, field: Result<F, Error>, index_params: P) -> (r: Self)
        ensures
            r@ == self@.with_created(field, index_params),
    {
        self.push_created(field, index_params)
    }

    /// Adds a scalar field with an inverted index, given the result of
    /// creating the field (non-nullable, dimension 0).
    ///
    /// A failure to create the field is kept and reported when building.
    pub fn add_indexed_field(self, field: Result<F, Error>, index_params: P) -> (r: Self)
        ensures
            r@ == self@.with_created(field, index_params),
    {
        self.push_created(field, index_params)
    }

    fn push_created(self, field: Result<F, Error>, index_params: P) -> (r: Self)
        ensures
            r@ == self@.with_created(field, index_params),
    {
        let mut s = self;
        match field {
            Ok(f) => {
                s.fields.push((f, Some(index_params)));
            },
            Err(e) => {
                s.deferred_error = Some(e);
            },
        }
        s
    }

    /// Sets the maximum document count per segment.
    pub fn max_doc_count_per_segment(self, count: u64) -> (r: Self)
        ensures
            r@ == self@.with_max_doc_count(count),
    {
        let mut s = self;
        s.max_doc_count_per_segment = Some(count);
        s
    }

    /// Checks the builder and hands out what the schema is built from.
    ///
    /// Fails with the error of the last field that could not be created, if
    /// any; otherwise yields the name, the fields in the order they were
    /// added with their index parameters, and the segment size.
    pub fn build(self) -> (r: Result<SchemaPlan<F, P>, Error>)
        ensures
            r is Err <==> self.deferred_error is Some,
            r matches Err(e) ==> self.deferred_error == Some(e),
            r matches Ok(plan) ==> plan.name@ == self.name@ && plan.fields@ == self.fields@
                && plan.max_doc_count_per_segment == self.max_doc_count_per_segment,
    {
        match self.deferred_error {
            Some(e) => Err(e),
            None => Ok(
                SchemaPlan {
                    name: self.name,
                    fields: self.fields,
                    max_doc_count_per_segment: self.max_doc_count_per_segment,
                },
            ),
        }
    }
}

/// Once a field could not be created, building reports that error whatever
/// is added afterwards (fields, created fields, the segment size), until the
/// creation of another field fails, whose error then replaces it. Fields that
/// were created keep the order in which they were added.
pub proof fn lemma_schema_builder_error_kept<F, P>(
    b: SchemaBuilderView<F, P>,
    e: Error,
    p: P,
    f: F,
    g: F,
    q: P,
    e2: Error,
    r: P,
    n: u64,
)
    ensures
        b.with_created(Err(e), p).added(f).with_created(Ok(g), q).with_max_doc_count(
            n,
        ).deferred_error == Some(e),
        b.with_created(Err(e), p).with_created(Err(e2), r).deferred_error == Some(e2),
        b.added(f).with_created(Ok(g), q).fields == b.fields.push((f, None)).push((g, Some(q))),
        b.with_created(Err(e), p).fields == b.fields,
{
}


/// A created field joins the end of the list with its own index parameters,
/// whatever fields came before it and whatever index parameters they hold;
/// the fields before it, the name, the segment size and any kept error stay
/// as they were. Two created fields in a row both keep their parameters, in
/// the order they were added.
pub proof fn lemma_created_field_keeps_its_index<F, P>(
    b: SchemaBuilderView<F, P>,
    f: F,
    p: P,
    g: F,
    q: P,
)
    ensures
        b.with_created(Ok(f), p).fields.len() == b.fields.len() + 1,
        b.with_created(Ok(f), p).fields.last() == (f, Some(p)),
        forall|i: int|
            0 <= i < b.fields.len() ==> #[trigger] b.with_created(Ok(f), p).fields[i] == b.fields[i],
        b.with_created(Ok(f), p).name == b.name,
        b.with_created(Ok(f), p).max_doc_count_per_segment == b.max_doc_count_per_segment,
        b.with_created(Ok(f), p).deferred_error == b.deferred_error,
        b.with_created(Ok(f), p).with_created(Ok(g), q).fields == b.fields + seq![
            (f, Some(p)),
            (g, Some(q)),
        ],
{
    assert(b.with_created(Ok(f), p).with_created(Ok(g), q).fields =~= b.fields + seq![
        (f, Some(p)),
        (g, Some(q)),
    ]);
}

} // verus!
