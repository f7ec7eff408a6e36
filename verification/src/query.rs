//! Vector search queries: the builder users fill in, and the calls, in
//! order, that building the query makes.
use vstd::prelude::*;

use crate::config::{lemma_filter_all, lemma_filter_concat7, lemma_filter_none};
use crate::error::{
    all_owned_c_compatible, all_strings_c_compatible, c_compatible, is_c_compatible,
    null_byte_error, null_byte_message, owned_strings, same_texts, Error, ErrorCode,
};

verus! {

/// Builder for a vector similarity search query.
///
/// The query vector is held as the bit patterns of its `f32` elements
/// (`f32::to_bits`), element by element.
pub struct SearchQueryBuilder {
    pub field_name: Option<String>,
    pub vector: Option<Vec<u32>>,
    pub topk: i32,
    pub filter: Option<String>,
    pub include_vector: Option<bool>,
    pub include_doc_id: Option<bool>,
    pub output_fields: Option<Vec<String>>,
    pub fts_query_string: Option<String>,
    pub fts_match_string: Option<String>,
}

/// One call that building a query makes, in the order it makes them.
///
/// Building runs the steps in order and stops at the first that fails. A
/// string is checked for null characters at the step that hands it to the C
/// interface: where it holds one, that step is `Reject` with the null-byte
/// error, and no step follows.
#[derive(Debug)]
pub enum QueryStep {
    /// Create the query handle.
    CreateQuery,
    /// Set the name of the vector field to search.
    SetFieldName(String),
    /// Set the query vector (bit patterns of its `f32` elements).
    SetVector(Vec<u32>),
    /// Set the number of results.
    SetTopk(i32),
    /// Set the filter expression.
    SetFilter(String),
    /// Set whether vector data is returned.
    SetIncludeVector(bool),
    /// Set whether the doc ID is returned.
    SetIncludeDocId(bool),
    /// Set the output fields.
    SetOutputFields(Vec<String>),
    /// Create the full-text search payload.
    CreateFts,
    /// Set the payload's query expression.
    SetFtsQueryString(String),
    /// Set the payload's match string.
    SetFtsMatchString(String),
    /// Hand the payload to the query.
    AttachFts,
    /// Fail with this error.
    Reject(Error),
}

/// The plain-value view of a step: strings as their text, the vector and the
/// output fields as sequences, an error as its code and message.
pub enum QueryStepView {
    CreateQuery,
    SetFieldName(Seq<char>),
    SetVector(Seq<u32>),
    SetTopk(i32),
    SetFilter(Seq<char>),
    SetIncludeVector(bool),
    SetIncludeDocId(bool),
    SetOutputFields(Seq<Seq<char>>),
    CreateFts,
    SetFtsQueryString(Seq<char>),
    SetFtsMatchString(Seq<char>),
    AttachFts,
    Reject(ErrorCode, Seq<char>),
}

impl View for QueryStep {
    type V = QueryStepView;

    open spec fn view(&self) -> QueryStepView {
        match self {
            QueryStep::CreateQuery => QueryStepView::CreateQuery,
            QueryStep::SetFieldName(f) => QueryStepView::SetFieldName(f@),
            QueryStep::SetVector(v) => QueryStepView::SetVector(v@),
            QueryStep::SetTopk(k) => QueryStepView::SetTopk(*k),
            QueryStep::SetFilter(f) => QueryStepView::SetFilter(f@),
            QueryStep::SetIncludeVector(b) => QueryStepView::SetIncludeVector(*b),
            QueryStep::SetIncludeDocId(b) => QueryStepView::SetIncludeDocId(*b),
            QueryStep::SetOutputFields(v) => QueryStepView::SetOutputFields(texts(v@)),
            QueryStep::CreateFts => QueryStepView::CreateFts,
            QueryStep::SetFtsQueryString(q) => QueryStepView::SetFtsQueryString(q@),
            QueryStep::SetFtsMatchString(m) => QueryStepView::SetFtsMatchString(m@),
            QueryStep::AttachFts => QueryStepView::AttachFts,
            QueryStep::Reject(e) => QueryStepView::Reject(e.code, e.message@),
        }
    }
}

/// The texts of a list of strings.
pub open spec fn texts(v: Seq<String>) -> Seq<Seq<char>> {
    v.map_values(|s: String| s@)
}

/// The views of a list of steps.
pub open spec fn views(s: Seq<QueryStep>) -> Seq<QueryStepView> {
    s.map_values(|x: QueryStep| x@)
}

/// The step that rejects a string holding a null character.
pub open spec fn null_byte_step() -> QueryStepView {
    QueryStepView::Reject(ErrorCode::InvalidArgument, null_byte_message())
}

/// `steps` when the string they hand over passed the null-character check,
/// else the rejection alone.
pub open spec fn checked(ok: bool, steps: Seq<QueryStepView>) -> Seq<QueryStepView> {
    if ok {
        steps
    } else {
        seq![null_byte_step()]
    }
}

/// Whether an optional string is absent or free of null characters.
pub open spec fn opt_c_compatible(o: Option<String>) -> bool {
    match o {
        Some(s) => c_compatible(s@),
        None => true,
    }
}

/// The end of the full-text search part: the match string, when set, then
/// handing the payload to the query.
pub open spec fn fts_match_steps(m: Option<String>) -> Seq<QueryStepView> {
    match m {
        Some(s) => checked(
            c_compatible(s@),
            seq![QueryStepView::SetFtsMatchString(s@), QueryStepView::AttachFts],
        ),
        None => seq![QueryStepView::AttachFts],
    }
}

/// The full-text search part: nothing when neither string is set; else
/// create the payload, set the query expression when set, set the match
/// string when set, and hand the payload to the query.
pub open spec fn fts_steps(q: Option<String>, m: Option<String>) -> Seq<QueryStepView> {
    if q is None && m is None {
        Seq::empty()
    } else {
        seq![QueryStepView::CreateFts] + match q {
            Some(s) => checked(
                c_compatible(s@),
                seq![QueryStepView::SetFtsQueryString(s@)] + fts_match_steps(m),
            ),
            None => fts_match_steps(m),
        }
    }
}

/// Set the output fields when given, then `rest`.
pub open spec fn output_steps(o: Option<Vec<String>>, rest: Seq<QueryStepView>) -> Seq<
    QueryStepView,
> {
    match o {
        Some(v) => checked(
            all_owned_c_compatible(v@),
            seq![QueryStepView::SetOutputFields(texts(v@))] + rest,
        ),
        None => rest,
    }
}

/// Set whether vector data and whether the doc ID are returned, each when given.
pub open spec fn flag_steps(iv: Option<bool>, id: Option<bool>) -> Seq<QueryStepView> {
    (match iv {
        Some(x) => seq![QueryStepView::SetIncludeVector(x)],
        None => Seq::empty(),
    }) + (match id {
        Some(x) => seq![QueryStepView::SetIncludeDocId(x)],
        None => Seq::empty(),
    })
}

/// Set the filter when given, then `rest`.
pub open spec fn filter_steps(f: Option<String>, rest: Seq<QueryStepView>) -> Seq<QueryStepView> {
    match f {
        Some(s) => checked(c_compatible(s@), seq![QueryStepView::SetFilter(s@)] + rest),
        None => rest,
    }
}

/// The calls that building a query with a field name and a vector makes:
/// create the query; set the field name, the vector and `topk`; then the
/// filter, the two flags, the output fields and the full-text search part,
/// each when given. Each string is checked where it is handed over.
pub open spec fn query_steps(b: SearchQueryBuilder) -> Seq<QueryStepView> {
    match (b.field_name, b.vector) {
        (Some(f), Some(v)) => seq![QueryStepView::CreateQuery] + checked(
            c_compatible(f@),
            seq![
                QueryStepView::SetFieldName(f@),
                QueryStepView::SetVector(v@),
                QueryStepView::SetTopk(b.topk),
            ] + filter_steps(
                b.filter,
                flag_steps(b.include_vector, b.include_doc_id) + output_steps(
                    b.output_fields,
                    fts_steps(b.fts_query_string, b.fts_match_string),
                ),
            ),
        ),
        _ => Seq::empty(),
    }
}

/// One step, then `rest`.
fn then(step: QueryStep, rest: Vec<QueryStep>) -> (r: Vec<QueryStep>)
    ensures
        views(r@) == seq![step@] + views(rest@),
{
    let ghost rest0 = rest@;
    let ghost first = step@;
    let mut r: Vec<QueryStep> = Vec::new();
    r.push(step);
    let mut rest = rest;
    r.append(&mut rest);
    assert(views(r@) =~= seq![first] + views(rest0));
    r
}

/// The rejection of a string holding a null character, alone.
fn rejected() -> (r: Vec<QueryStep>)
    ensures
        views(r@) == seq![null_byte_step()],
{
    let e = null_byte_error();
    let empty: Vec<QueryStep> = Vec::new();
    assert(views(empty@) =~= Seq::<QueryStepView>::empty());
    let r = then(QueryStep::Reject(e), empty);
    assert(views(r@) =~= seq![null_byte_step()]);
    r
}

/// Returns the steps of the match string and of handing the payload over.
fn fts_match_part(m: Option<String>) -> (r: Vec<QueryStep>)
    ensures
        views(r@) == fts_match_steps(m),
{
    let empty: Vec<QueryStep> = Vec::new();
    assert(views(empty@) =~= Seq::<QueryStepView>::empty());
    let attach = then(QueryStep::AttachFts, empty);
    assert(views(attach@) =~= seq![QueryStepView::AttachFts]);
    match m {
        Some(s) => {
            if is_c_compatible(s.as_str()) {
                let r = then(QueryStep::SetFtsMatchString(s), attach);
                assert(views(r@) =~= fts_match_steps(m));
                r
            } else {
                rejected()
            }
        },
        None => attach,
    }
}

/// Returns the steps of the full-text search part.
fn fts_part(q: Option<String>, m: Option<String>) -> (r: Vec<QueryStep>)
    ensures
        views(r@) == fts_steps(q, m),
{
    if q.is_none() && m.is_none() {
        let r: Vec<QueryStep> = Vec::new();
        assert(views(r@) =~= fts_steps(q, m));
        return r;
    }
    let tail = fts_match_part(m);
    let body = match q {
        Some(s) => {
            if is_c_compatible(s.as_str()) {
                then(QueryStep::SetFtsQueryString(s), tail)
            } else {
                rejected()
            }
        },
        None => tail,
    };
    then(QueryStep::CreateFts, body)
}

/// Returns the steps of the output fields, then `rest`.
fn output_part(o: Option<Vec<String>>, rest: Vec<QueryStep>) -> (r: Vec<QueryStep>)
    ensures
        views(r@) == output_steps(o, views(rest@)),
{
    match o {
        Some(v) => {
            if all_strings_c_compatible(&v) {
                then(QueryStep::SetOutputFields(v), rest)
            } else {
                rejected()
            }
        },
        None => rest,
    }
}

/// Returns the steps of the two flags.
fn flag_part(iv: Option<bool>, id: Option<bool>) -> (r: Vec<QueryStep>)
    ensures
        views(r@) == flag_steps(iv, id),
{
    let mut r: Vec<QueryStep> = Vec::new();
    match iv {
        Some(x) => r.push(QueryStep::SetIncludeVector(x)),
        None => {},
    }
    match id {
        Some(x) => r.push(QueryStep::SetIncludeDocId(x)),
        None => {},
    }
    assert(views(r@) =~= flag_steps(iv, id));
    r
}

/// Returns `a` followed by `b`.
fn joined(a: Vec<QueryStep>, b: Vec<QueryStep>) -> (r: Vec<QueryStep>)
    ensures
        views(r@) == views(a@) + views(b@),
{
    let ghost a0 = a@;
    let ghost b0 = b@;
    let mut a = a;
    let mut b = b;
    a.append(&mut b);
    assert(views(a@) =~= views(a0) + views(b0));
    a
}

/// Returns the steps of the filter, then `rest`.
fn filter_part(f: Option<String>, rest: Vec<QueryStep>) -> (r: Vec<QueryStep>)
    ensures
        views(r@) == filter_steps(f, views(rest@)),
{
    match f {
        Some(s) => {
            if is_c_compatible(s.as_str()) {
                then(QueryStep::SetFilter(s), rest)
            } else {
                rejected()
            }
        },
        None => rest,
    }
}

impl SearchQueryBuilder {
    /// Whether every string the builder holds is free of null characters.
    pub open spec fn strings_c_compatible(&self) -> bool {
        &&& opt_c_compatible(self.field_name)
        &&& opt_c_compatible(self.filter)
        &&& (self.output_fields matches Some(v) ==> all_owned_c_compatible(v@))
        &&& opt_c_compatible(self.fts_query_string)
        &&& opt_c_compatible(self.fts_match_string)
    }

    /// A builder with nothing set and `topk` 10.
    pub open spec fn empty() -> SearchQueryBuilder {
        SearchQueryBuilder {
            field_name: None,
            vector: None,
            topk: 10,
            filter: None,
            include_vector: None,
            include_doc_id: None,
            output_fields: None,
            fts_query_string: None,
            fts_match_string: None,
        }
    }

    /// Creates a builder with nothing set and `topk` 10.
    pub fn new() -> (r: SearchQueryBuilder)
        ensures
            r == SearchQueryBuilder::empty(),
    {
        SearchQueryBuilder {
            field_name: None,
            vector: None,
            topk: 10,
            filter: None,
            include_vector: None,
            include_doc_id: None,
            output_fields: None,
            fts_query_string: None,
            fts_match_string: None,
        }
    }

    /// Sets the field name to query.
    pub fn field_name(self, name: &str) -> (r: SearchQueryBuilder)
        ensures
            r.field_name matches Some(f) && f@ == name@,
            r == (SearchQueryBuilder { field_name: r.field_name, ..self }),
    {
        SearchQueryBuilder { field_name: Some(String::from_str(name)), ..self }
    }

    /// Sets the query vector, given as the bit patterns of its `f32` elements.
    pub fn vector(self, vector_bits: &[u32]) -> (r: SearchQueryBuilder)
        ensures
            r.vector matches Some(v) && v@ == vector_bits@,
            r == (SearchQueryBuilder { vector: r.vector, ..self }),
    {
        SearchQueryBuilder { vector: Some(vstd::slice::slice_to_vec(vector_bits)), ..self }
    }

    /// Sets the number of results to return.
    pub fn topk(self, topk: i32) -> (r: SearchQueryBuilder)
        ensures
            r == (SearchQueryBuilder { topk, ..self }),
    {
        SearchQueryBuilder { topk, ..self }
    }

    /// Sets the filter expression.
    pub fn filter(self, filter: &str) -> (r: SearchQueryBuilder)
        ensures
            r.filter matches Some(f) && f@ == filter@,
            r == (SearchQueryBuilder { filter: r.filter, ..self }),
    {
        SearchQueryBuilder { filter: Some(String::from_str(filter)), ..self }
    }

    /// Sets whether to include vector data in results.
    pub fn include_vector(self, enabled: bool) -> (r: SearchQueryBuilder)
        ensures
            r == (SearchQueryBuilder { include_vector: Some(enabled), ..self }),
    {
        SearchQueryBuilder { include_vector: Some(enabled), ..self }
    }

    /// Sets whether to include doc ID in results.
    pub fn include_doc_id(self, enabled: bool) -> (r: SearchQueryBuilder)
        ensures
            r == (SearchQueryBuilder { include_doc_id: Some(enabled), ..self }),
    {
        SearchQueryBuilder { include_doc_id: Some(enabled), ..self }
    }

    /// Sets the output fields.
    pub fn output_fields(self, fields: &[&str]) -> (r: SearchQueryBuilder)
        ensures
            r.output_fields matches Some(v) && same_texts(v@, fields@),
            r == (SearchQueryBuilder { output_fields: r.output_fields, ..self }),
    {
        SearchQueryBuilder { output_fields: Some(owned_strings(fields)), ..self }
    }

    /// Sets the FTS boolean / advanced query expression.
    pub fn fts_query_string(self, query: &str) -> (r: SearchQueryBuilder)
        ensures
            r.fts_query_string matches Some(q) && q@ == query@,
            r == (SearchQueryBuilder { fts_query_string: r.fts_query_string, ..self }),
    {
        SearchQueryBuilder { fts_query_string: Some(String::from_str(query)), ..self }
    }

    /// Sets the FTS natural-language match string.
    pub fn fts_match_string(self, match_str: &str) -> (r: SearchQueryBuilder)
        ensures
            r.fts_match_string matches Some(m) && m@ == match_str@,
            r == (SearchQueryBuilder { fts_match_string: r.fts_match_string, ..self }),
    {
        SearchQueryBuilder { fts_match_string: Some(String::from_str(match_str)), ..self }
    }

    /// Returns the calls, in order, that building the query makes.
    ///
    /// Fails with `InvalidArgument` "field_name is required" when no field name
    /// was set, else with `InvalidArgument` "vector is required" when no vector
    /// was set; no call is made then. Otherwise the steps create the query and
    /// set the field name, the vector and `topk`, then the filter, the flags,
    /// the output fields and the full-text search payload, each when set. A
    /// string holding a null character is rejected, with the null-byte error,
    /// at the step that would hand it over, after the calls before it.
    pub fn build(self) -> (r: Result<Vec<QueryStep>, Error>)
        ensures
            self.field_name is None ==> (r matches Err(e) && e.code == ErrorCode::InvalidArgument
                && e.message@ == "field_name is required"@),
            self.field_name is Some && self.vector is None ==> (r matches Err(e) && e.code
                == ErrorCode::InvalidArgument && e.message@ == "vector is required"@),
            r is Ok <==> self.field_name is Some && self.vector is Some,
            r matches Ok(steps) ==> views(steps@) == query_steps(self),
    {
        let ghost b = self;
        let SearchQueryBuilder {
            field_name,
            vector,
            topk,
            filter,
            include_vector,
            include_doc_id,
            output_fields,
            fts_query_string,
            fts_match_string,
        } = self;
        let field_name = match field_name {
            Some(f) => f,
            None => {
                return Err(
                    Error {
                        code: ErrorCode::InvalidArgument,
                        message: String::from_str("field_name is required"),
                    },
                );
            },
        };
        let vector = match vector {
            Some(v) => v,
            None => {
                return Err(
                    Error {
                        code: ErrorCode::InvalidArgument,
                        message: String::from_str("vector is required"),
                    },
                );
            },
        };
        let fts = fts_part(fts_query_string, fts_match_string);
        let outputs = output_part(output_fields, fts);
        let flags = flag_part(include_vector, include_doc_id);
        let after_filter = joined(flags, outputs);
        let from_filter = filter_part(filter, after_filter);
        let body = if is_c_compatible(field_name.as_str()) {
            let with_topk = then(QueryStep::SetTopk(topk), from_filter);
            let with_vector = then(QueryStep::SetVector(vector), with_topk);
            then(QueryStep::SetFieldName(field_name), with_vector)
        } else {
            rejected()
        };
        let steps = then(QueryStep::CreateQuery, body);
        assert(views(steps@) =~= query_steps(b));
        Ok(steps)
    }
}


/// Whether no step of a list rejects.
pub open spec fn clean(s: Seq<QueryStepView>) -> bool {
    forall|i: int| 0 <= i < s.len() ==> !(#[trigger] s[i] is Reject)
}

/// Whether a list of steps ends with the null-byte rejection and no step
/// before it rejects.
pub open spec fn ends_rejected(s: Seq<QueryStepView>) -> bool {
    &&& s.len() > 0
    &&& s.last() == null_byte_step()
    &&& forall|i: int| 0 <= i < s.len() - 1 ==> !(#[trigger] s[i] is Reject)
}

/// Steps that do not reject, followed by steps that do not reject or that end
/// with the rejection, keep that property.
proof fn lemma_concat_outcome(a: Seq<QueryStepView>, b: Seq<QueryStepView>)
    requires
        clean(a),
    ensures
        clean(b) ==> clean(a + b),
        ends_rejected(b) ==> ends_rejected(a + b),
{
    if ends_rejected(b) {
        assert forall|i: int| 0 <= i < (a + b).len() - 1 implies !(#[trigger] (a + b)[i] is Reject) by {
            if i >= a.len() {
                assert((a + b)[i] == b[i - a.len()]);
            }
        }
    }
}

/// A step guarded by the null-character check of the string it hands over,
/// followed by `rest`: it rejects where the string fails the check, and
/// otherwise has the outcome of `rest`.
proof fn lemma_checked_outcome(ok: bool, p: Seq<QueryStepView>, rest: Seq<QueryStepView>)
    requires
        clean(p),
        clean(rest) || ends_rejected(rest),
    ensures
        ok && clean(rest) ==> clean(checked(ok, p + rest)),
        !(ok && clean(rest)) ==> ends_rejected(checked(ok, p + rest)),
{
    lemma_concat_outcome(p, rest);
    assert(null_byte_step() is Reject);
    if !ok {
        assert(seq![null_byte_step()].last() == null_byte_step());
    } else if !clean(rest) {
        assert(ends_rejected(rest));
    }
}

/// The full-text search part rejects exactly where one of its strings holds a
/// null character.
proof fn lemma_fts_outcome(q: Option<String>, m: Option<String>)
    ensures
        opt_c_compatible(q) && opt_c_compatible(m) ==> clean(fts_steps(q, m)),
        !(opt_c_compatible(q) && opt_c_compatible(m)) ==> ends_rejected(fts_steps(q, m)),
{
    let attach = seq![QueryStepView::AttachFts];
    assert(clean(attach));
    assert(clean(Seq::<QueryStepView>::empty()));
    let tail = fts_match_steps(m);
    match m {
        Some(s) => {
            assert(seq![QueryStepView::SetFtsMatchString(s@), QueryStepView::AttachFts] =~= seq![
                QueryStepView::SetFtsMatchString(s@),
            ] + attach);
            lemma_checked_outcome(c_compatible(s@), seq![QueryStepView::SetFtsMatchString(s@)], attach);
        },
        None => {},
    }
    if !(q is None && m is None) {
        let create = seq![QueryStepView::CreateFts];
        assert(clean(create));
        match q {
            Some(s) => {
                lemma_checked_outcome(c_compatible(s@), seq![QueryStepView::SetFtsQueryString(s@)], tail);
                lemma_concat_outcome(create, checked(c_compatible(s@), seq![QueryStepView::SetFtsQueryString(s@)] + tail));
            },
            None => {
                lemma_concat_outcome(create, tail);
            },
        }
    }
}

/// Building rejects exactly where one of the builder's strings holds a null
/// character: then the steps end with the null-byte rejection and nothing
/// before it rejects; otherwise no step rejects. Either way the query is
/// created first.
pub proof fn lemma_build_rejects_exactly_bad_strings(b: SearchQueryBuilder)
    requires
        b.field_name is Some,
        b.vector is Some,
    ensures
        query_steps(b)[0] == QueryStepView::CreateQuery,
        b.strings_c_compatible() ==> clean(query_steps(b)),
        !b.strings_c_compatible() ==> ends_rejected(query_steps(b)),
{
    let f = b.field_name->0;
    let v = b.vector->0;
    lemma_fts_outcome(b.fts_query_string, b.fts_match_string);
    let fts = fts_steps(b.fts_query_string, b.fts_match_string);
    let outs = output_steps(b.output_fields, fts);
    match b.output_fields {
        Some(o) => {
            assert(clean(seq![QueryStepView::SetOutputFields(texts(o@))]));
            lemma_checked_outcome(
                all_owned_c_compatible(o@),
                seq![QueryStepView::SetOutputFields(texts(o@))],
                fts,
            );
        },
        None => {},
    }
    let flags = flag_steps(b.include_vector, b.include_doc_id);
    assert(clean(flags));
    lemma_concat_outcome(flags, outs);
    let after = flags + outs;
    let from_filter = filter_steps(b.filter, after);
    match b.filter {
        Some(s) => {
            assert(clean(seq![QueryStepView::SetFilter(s@)]));
            lemma_checked_outcome(c_compatible(s@), seq![QueryStepView::SetFilter(s@)], after);
        },
        None => {},
    }
    let head = seq![
        QueryStepView::SetFieldName(f@),
        QueryStepView::SetVector(v@),
        QueryStepView::SetTopk(b.topk),
    ];
    assert(clean(head));
    lemma_checked_outcome(c_compatible(f@), head, from_filter);
    let create = seq![QueryStepView::CreateQuery];
    assert(clean(create));
    lemma_concat_outcome(create, checked(c_compatible(f@), head + from_filter));
    assert(query_steps(b) == create + checked(c_compatible(f@), head + from_filter));
}



/// The filter step, when a filter is given.
spec fn filter_opt(f: Option<String>) -> Seq<QueryStepView> {
    match f {
        Some(s) => seq![QueryStepView::SetFilter(s@)],
        None => Seq::empty(),
    }
}

/// The include-vector step, when the flag is given.
spec fn include_vector_opt(x: Option<bool>) -> Seq<QueryStepView> {
    match x {
        Some(v) => seq![QueryStepView::SetIncludeVector(v)],
        None => Seq::empty(),
    }
}

/// The include-doc-ID step, when the flag is given.
spec fn include_doc_id_opt(x: Option<bool>) -> Seq<QueryStepView> {
    match x {
        Some(v) => seq![QueryStepView::SetIncludeDocId(v)],
        None => Seq::empty(),
    }
}

/// The output-fields step, when output fields are given.
spec fn outputs_opt(o: Option<Vec<String>>) -> Seq<QueryStepView> {
    match o {
        Some(v) => seq![QueryStepView::SetOutputFields(texts(v@))],
        None => Seq::empty(),
    }
}

/// The query-expression step, when one is given.
spec fn fts_query_opt(q: Option<String>) -> Seq<QueryStepView> {
    match q {
        Some(s) => seq![QueryStepView::SetFtsQueryString(s@)],
        None => Seq::empty(),
    }
}

/// The match-string step, when one is given.
spec fn fts_match_opt(m: Option<String>) -> Seq<QueryStepView> {
    match m {
        Some(s) => seq![QueryStepView::SetFtsMatchString(s@)],
        None => Seq::empty(),
    }
}

/// The full-text search steps when no string holds a null character.
spec fn plain_fts_steps(q: Option<String>, m: Option<String>) -> Seq<QueryStepView> {
    if q is None && m is None {
        Seq::empty()
    } else {
        seq![QueryStepView::CreateFts] + fts_query_opt(q) + fts_match_opt(m) + seq![
            QueryStepView::AttachFts,
        ]
    }
}

/// The first four steps of every built query.
spec fn query_head(b: SearchQueryBuilder) -> Seq<QueryStepView> {
    seq![
        QueryStepView::CreateQuery,
        QueryStepView::SetFieldName(b.field_name->0@),
        QueryStepView::SetVector(b.vector->0@),
        QueryStepView::SetTopk(b.topk),
    ]
}

/// Without a null character in its strings, the full-text search part is
/// the plain one.
proof fn lemma_fts_steps_plain(q: Option<String>, m: Option<String>)
    requires
        opt_c_compatible(q),
        opt_c_compatible(m),
    ensures
        fts_steps(q, m) == plain_fts_steps(q, m),
{
    assert(fts_match_steps(m) =~= fts_match_opt(m) + seq![QueryStepView::AttachFts]);
    assert(fts_steps(q, m) =~= plain_fts_steps(q, m));
}

/// The steps of a builder none of whose strings holds a null character.
spec fn plain_query_steps(b: SearchQueryBuilder) -> Seq<QueryStepView> {
    query_head(b) + filter_opt(b.filter) + include_vector_opt(b.include_vector) + include_doc_id_opt(
        b.include_doc_id,
    ) + outputs_opt(b.output_fields) + plain_fts_steps(b.fts_query_string, b.fts_match_string)
}

/// A filter free of null characters is one step, then `rest`.
proof fn lemma_filter_steps_plain(f: Option<String>, rest: Seq<QueryStepView>)
    requires
        opt_c_compatible(f),
    ensures
        filter_steps(f, rest) == filter_opt(f) + rest,
{
    assert(filter_steps(f, rest) =~= filter_opt(f) + rest);
}

/// Output fields free of null characters are one step, then `rest`.
proof fn lemma_output_steps_plain(o: Option<Vec<String>>, rest: Seq<QueryStepView>)
    requires
        o matches Some(v) ==> all_owned_c_compatible(v@),
    ensures
        output_steps(o, rest) == outputs_opt(o) + rest,
{
    assert(output_steps(o, rest) =~= outputs_opt(o) + rest);
}

/// The flags are the include-vector step, then the include-doc-ID step.
proof fn lemma_flag_steps_split(iv: Option<bool>, id: Option<bool>)
    ensures
        flag_steps(iv, id) == include_vector_opt(iv) + include_doc_id_opt(id),
{
    assert(flag_steps(iv, id) =~= include_vector_opt(iv) + include_doc_id_opt(id));
}

/// Regrouping the runs of a built query.
proof fn lemma_regroup<A>(c: A, h: Seq<A>, a: Seq<A>, x: Seq<A>, y: Seq<A>, o: Seq<A>, t: Seq<A>)
    ensures
        seq![c] + (h + (a + (x + y + (o + t)))) == seq![c] + h + a + x + y + o + t,
{
    assert(seq![c] + (h + (a + (x + y + (o + t)))) =~= seq![c] + h + a + x + y + o + t);
}

/// Without a null character in the field name, building creates the query,
/// sets its field name, vector and `topk`, then makes the filter's calls.
proof fn lemma_query_steps_head(b: SearchQueryBuilder)
    requires
        b.field_name is Some,
        b.vector is Some,
        opt_c_compatible(b.field_name),
    ensures
        query_steps(b) == seq![QueryStepView::CreateQuery] + (seq![
            QueryStepView::SetFieldName(b.field_name->0@),
            QueryStepView::SetVector(b.vector->0@),
            QueryStepView::SetTopk(b.topk),
        ] + filter_steps(
            b.filter,
            flag_steps(b.include_vector, b.include_doc_id) + output_steps(
                b.output_fields,
                fts_steps(b.fts_query_string, b.fts_match_string),
            ),
        )),
{
}

/// Without a null character in any string, building makes, one run after the
/// other: the query's creation and its field name, vector and `topk`; the
/// filter; the two flags; the output fields; the full-text search part.
#[verifier::spinoff_prover]
proof fn lemma_query_steps_plain(b: SearchQueryBuilder)
    requires
        b.field_name is Some,
        b.vector is Some,
        b.strings_c_compatible(),
    ensures
        query_steps(b) == plain_query_steps(b),
{
    let fts0 = fts_steps(b.fts_query_string, b.fts_match_string);
    let fts = plain_fts_steps(b.fts_query_string, b.fts_match_string);
    let outs = outputs_opt(b.output_fields);
    let iv = include_vector_opt(b.include_vector);
    let id = include_doc_id_opt(b.include_doc_id);
    let filt = filter_opt(b.filter);
    lemma_query_steps_head(b);
    lemma_fts_steps_plain(b.fts_query_string, b.fts_match_string);
    lemma_output_steps_plain(b.output_fields, fts0);
    lemma_flag_steps_split(b.include_vector, b.include_doc_id);
    lemma_filter_steps_plain(b.filter, iv + id + (outs + fts));
    let h3 = seq![
        QueryStepView::SetFieldName(b.field_name->0@),
        QueryStepView::SetVector(b.vector->0@),
        QueryStepView::SetTopk(b.topk),
    ];
    lemma_regroup(QueryStepView::CreateQuery, h3, filt, iv, id, outs, fts);
    assert(seq![QueryStepView::CreateQuery] + h3 == query_head(b)) by {
        assert(seq![QueryStepView::CreateQuery] + h3 =~= query_head(b));
    }
}

/// Whether a step sets whether vector data is returned.
pub open spec fn is_include_vector_step(s: QueryStepView) -> bool {
    s is SetIncludeVector
}

/// Whether a step sets whether the doc ID is returned.
pub open spec fn is_include_doc_id_step(s: QueryStepView) -> bool {
    s is SetIncludeDocId
}

/// Whether a step belongs to the full-text search part.
pub open spec fn is_fts_step(s: QueryStepView) -> bool {
    s is CreateFts || s is SetFtsQueryString || s is SetFtsMatchString || s is AttachFts
}

/// The test for steps that set whether vector data is returned.
pub open spec fn sets_include_vector() -> spec_fn(QueryStepView) -> bool {
    |s: QueryStepView| is_include_vector_step(s)
}

/// The test for steps that set whether the doc ID is returned.
pub open spec fn sets_include_doc_id() -> spec_fn(QueryStepView) -> bool {
    |s: QueryStepView| is_include_doc_id_step(s)
}

/// The test for full-text search steps.
pub open spec fn fts_related() -> spec_fn(QueryStepView) -> bool {
    |s: QueryStepView| is_fts_step(s)
}

/// Whether no step of a run passes `f`.
spec fn none_pass(s: Seq<QueryStepView>, f: spec_fn(QueryStepView) -> bool) -> bool {
    forall|i: int| 0 <= i < s.len() ==> !f(#[trigger] s[i])
}

/// Whether every step of a run passes `f`.
spec fn all_pass(s: Seq<QueryStepView>, f: spec_fn(QueryStepView) -> bool) -> bool {
    forall|i: int| 0 <= i < s.len() ==> f(#[trigger] s[i])
}

/// Filtering six runs, one after the other, where only the run `k` (counted
/// from 0) holds steps that pass and all of its steps pass, gives that run.
proof fn lemma_filter_picks_run(
    r0: Seq<QueryStepView>,
    r1: Seq<QueryStepView>,
    r2: Seq<QueryStepView>,
    r3: Seq<QueryStepView>,
    r4: Seq<QueryStepView>,
    r5: Seq<QueryStepView>,
    k: int,
    f: spec_fn(QueryStepView) -> bool,
)
    requires
        0 <= k < 6,
        if k == 0 { all_pass(r0, f) } else { none_pass(r0, f) },
        if k == 1 { all_pass(r1, f) } else { none_pass(r1, f) },
        if k == 2 { all_pass(r2, f) } else { none_pass(r2, f) },
        if k == 3 { all_pass(r3, f) } else { none_pass(r3, f) },
        if k == 4 { all_pass(r4, f) } else { none_pass(r4, f) },
        if k == 5 { all_pass(r5, f) } else { none_pass(r5, f) },
    ensures
        (r0 + r1 + r2 + r3 + r4 + r5).filter(f) == if k == 0 {
            r0
        } else if k == 1 {
            r1
        } else if k == 2 {
            r2
        } else if k == 3 {
            r3
        } else if k == 4 {
            r4
        } else {
            r5
        },
{
    let e = Seq::<QueryStepView>::empty();
    lemma_filter_concat7(r0, r1, r2, r3, r4, r5, e, f);
    assert(r0 + r1 + r2 + r3 + r4 + r5 + e =~= r0 + r1 + r2 + r3 + r4 + r5);
    if k == 0 { lemma_filter_all(r0, f); } else { lemma_filter_none(r0, f); }
    if k == 1 { lemma_filter_all(r1, f); } else { lemma_filter_none(r1, f); }
    if k == 2 { lemma_filter_all(r2, f); } else { lemma_filter_none(r2, f); }
    if k == 3 { lemma_filter_all(r3, f); } else { lemma_filter_none(r3, f); }
    if k == 4 { lemma_filter_all(r4, f); } else { lemma_filter_none(r4, f); }
    if k == 5 { lemma_filter_all(r5, f); } else { lemma_filter_none(r5, f); }
    lemma_filter_none(e, f);
    assert(e + e =~= e);
    assert(r0 + e =~= r0);
    assert(e + r1 =~= r1);
    assert(r1 + e =~= r1);
    assert(e + r2 =~= r2);
    assert(r2 + e =~= r2);
    assert(e + r3 =~= r3);
    assert(r3 + e =~= r3);
    assert(e + r4 =~= r4);
    assert(r4 + e =~= r4);
    assert(e + r5 =~= r5);
}

/// What kind of step each run of a built query holds: the head, the filter
/// and the output fields hold no flag and no full-text search step; each
/// flag run holds only its own flag; the full-text search run only
/// full-text search steps.
proof fn lemma_runs_kinds(b: SearchQueryBuilder)
    ensures
        forall|i: int|
            0 <= i < query_head(b).len() ==> {
                let s = #[trigger] query_head(b)[i];
                !is_include_vector_step(s) && !is_include_doc_id_step(s) && !is_fts_step(s)
            },
        forall|i: int|
            0 <= i < filter_opt(b.filter).len() ==> {
                let s = #[trigger] filter_opt(b.filter)[i];
                !is_include_vector_step(s) && !is_include_doc_id_step(s) && !is_fts_step(s)
            },
        forall|i: int|
            0 <= i < include_vector_opt(b.include_vector).len() ==> {
                let s = #[trigger] include_vector_opt(b.include_vector)[i];
                is_include_vector_step(s) && !is_include_doc_id_step(s) && !is_fts_step(s)
            },
        forall|i: int|
            0 <= i < include_doc_id_opt(b.include_doc_id).len() ==> {
                let s = #[trigger] include_doc_id_opt(b.include_doc_id)[i];
                !is_include_vector_step(s) && is_include_doc_id_step(s) && !is_fts_step(s)
            },
        forall|i: int|
            0 <= i < outputs_opt(b.output_fields).len() ==> {
                let s = #[trigger] outputs_opt(b.output_fields)[i];
                !is_include_vector_step(s) && !is_include_doc_id_step(s) && !is_fts_step(s)
            },
        forall|i: int|
            0 <= i < plain_fts_steps(b.fts_query_string, b.fts_match_string).len() ==> {
                let s = #[trigger] plain_fts_steps(b.fts_query_string, b.fts_match_string)[i];
                !is_include_vector_step(s) && !is_include_doc_id_step(s) && is_fts_step(s)
            },
{
}

/// The include-vector steps of the plain steps: its step, when the flag is given.
#[verifier::spinoff_prover]
proof fn lemma_plain_include_vector(b: SearchQueryBuilder)
    ensures
        plain_query_steps(b).filter(sets_include_vector()) == include_vector_opt(b.include_vector),
{
    let f = sets_include_vector();
    let head = query_head(b);
    let filt = filter_opt(b.filter);
    let iv = include_vector_opt(b.include_vector);
    let id = include_doc_id_opt(b.include_doc_id);
    let outs = outputs_opt(b.output_fields);
    let fts = plain_fts_steps(b.fts_query_string, b.fts_match_string);
    lemma_runs_kinds(b);
    assert(none_pass(head, f));
    assert(none_pass(filt, f));
    assert(all_pass(iv, f));
    assert(none_pass(id, f));
    assert(none_pass(outs, f));
    assert(none_pass(fts, f));
    lemma_filter_picks_run(head, filt, iv, id, outs, fts, 2, f);
}

/// The include-doc-ID steps of the plain steps: its step, when the flag is given.
#[verifier::spinoff_prover]
proof fn lemma_plain_include_doc_id(b: SearchQueryBuilder)
    ensures
        plain_query_steps(b).filter(sets_include_doc_id()) == include_doc_id_opt(b.include_doc_id),
{
    let f = sets_include_doc_id();
    let head = query_head(b);
    let filt = filter_opt(b.filter);
    let iv = include_vector_opt(b.include_vector);
    let id = include_doc_id_opt(b.include_doc_id);
    let outs = outputs_opt(b.output_fields);
    let fts = plain_fts_steps(b.fts_query_string, b.fts_match_string);
    lemma_runs_kinds(b);
    assert(none_pass(head, f));
    assert(none_pass(filt, f));
    assert(none_pass(iv, f));
    assert(all_pass(id, f));
    assert(none_pass(outs, f));
    assert(none_pass(fts, f));
    lemma_filter_picks_run(head, filt, iv, id, outs, fts, 3, f);
}

/// The full-text search steps of the plain steps.
#[verifier::spinoff_prover]
proof fn lemma_plain_fts(b: SearchQueryBuilder)
    ensures
        plain_query_steps(b).filter(fts_related()) == plain_fts_steps(
            b.fts_query_string,
            b.fts_match_string,
        ),
{
    let f = fts_related();
    let head = query_head(b);
    let filt = filter_opt(b.filter);
    let iv = include_vector_opt(b.include_vector);
    let id = include_doc_id_opt(b.include_doc_id);
    let outs = outputs_opt(b.output_fields);
    let fts = plain_fts_steps(b.fts_query_string, b.fts_match_string);
    lemma_runs_kinds(b);
    assert(none_pass(head, f));
    assert(none_pass(filt, f));
    assert(none_pass(iv, f));
    assert(none_pass(id, f));
    assert(none_pass(outs, f));
    assert(all_pass(fts, f));
    lemma_filter_picks_run(head, filt, iv, id, outs, fts, 5, f);
}

/// With a full-text search string, the plain steps end by handing the payload over.
proof fn lemma_plain_ends_with_attach(b: SearchQueryBuilder)
    requires
        b.fts_query_string is Some || b.fts_match_string is Some,
    ensures
        plain_query_steps(b).last() == QueryStepView::AttachFts,
{
    let fts = plain_fts_steps(b.fts_query_string, b.fts_match_string);
    assert(fts.last() == QueryStepView::AttachFts);
}

/// Building a query whose strings are free of null characters tells the C
/// interface whether to return vector data exactly when the builder was told,
/// once, with the value it was given (`true` stays `true`, `false` stays
/// `false`), and never when it was not told.
pub proof fn lemma_build_passes_include_vector(b: SearchQueryBuilder)
    requires
        b.field_name is Some,
        b.vector is Some,
        b.strings_c_compatible(),
    ensures
        query_steps(b).filter(sets_include_vector()) == match b.include_vector {
            Some(x) => seq![QueryStepView::SetIncludeVector(x)],
            None => Seq::<QueryStepView>::empty(),
        },
{
    lemma_query_steps_plain(b);
    lemma_plain_include_vector(b);
}

/// Building a query whose strings are free of null characters tells the C
/// interface whether to return the doc ID exactly when the builder was told,
/// once, with the value it was given, and never when it was not told.
pub proof fn lemma_build_passes_include_doc_id(b: SearchQueryBuilder)
    requires
        b.field_name is Some,
        b.vector is Some,
        b.strings_c_compatible(),
    ensures
        query_steps(b).filter(sets_include_doc_id()) == match b.include_doc_id {
            Some(x) => seq![QueryStepView::SetIncludeDocId(x)],
            None => Seq::<QueryStepView>::empty(),
        },
{
    lemma_query_steps_plain(b);
    lemma_plain_include_doc_id(b);
}

/// Building a query whose strings are free of null characters, with a
/// full-text query expression or match string set, ends by handing the
/// full-text search payload to the query; its full-text search calls are:
/// create the payload, set the query expression when given, set the match
/// string when given, hand the payload over. With neither string set, it
/// makes no full-text search call.
pub proof fn lemma_build_hands_over_fts(b: SearchQueryBuilder)
    requires
        b.field_name is Some,
        b.vector is Some,
        b.strings_c_compatible(),
    ensures
        b.fts_query_string is Some || b.fts_match_string is Some ==> query_steps(b).last()
            == QueryStepView::AttachFts,
        query_steps(b).filter(fts_related()) == if b.fts_query_string is None
            && b.fts_match_string is None {
            Seq::<QueryStepView>::empty()
        } else {
            seq![QueryStepView::CreateFts] + match b.fts_query_string {
                Some(q) => seq![QueryStepView::SetFtsQueryString(q@)],
                None => Seq::<QueryStepView>::empty(),
            } + match b.fts_match_string {
                Some(m) => seq![QueryStepView::SetFtsMatchString(m@)],
                None => Seq::<QueryStepView>::empty(),
            } + seq![QueryStepView::AttachFts]
        },
{
    lemma_query_steps_plain(b);
    lemma_plain_fts(b);
    if b.fts_query_string is Some || b.fts_match_string is Some {
        lemma_plain_ends_with_attach(b);
    }
}

} // verus!
