//! Results of collection operations.
use vstd::prelude::*;

verus! {

/// Result of a write operation (insert/update/upsert/delete).
#[derive(Debug, Clone, Copy, PartialEq, Eq, Structural)]
pub struct WriteResult {
    pub success_count: u64,
    pub error_count: u64,
}

impl WriteResult {
    /// The result of a write, from the counts the C interface reports.
    pub fn from_counts(success_count: usize, error_count: usize) -> (r: WriteResult)
        ensures
            r.success_count == success_count,
            r.error_count == error_count,
    {
        WriteResult { success_count: success_count as u64, error_count: error_count as u64 }
    }
}

/// The items that are present, in order.
pub open spec fn present<T>(s: Seq<Option<T>>) -> Seq<T>
    decreases s.len(),
{
    if s.len() == 0 {
        Seq::empty()
    } else {
        let rest = present(s.drop_last());
        match s.last() {
            Some(x) => rest.push(x),
            None => rest,
        }
    }
}

/// Collects the documents a query or fetch returned: the slots that hold a
/// document, in order; empty slots (null pointers) are skipped.
pub fn collect_docs<T>(slots: Vec<Option<T>>) -> (r: Vec<T>)
    ensures
        r@ == present(slots@),
{
    let ghost all = slots@;
    let mut rest = slots;
    let mut out: Vec<T> = Vec::new();
    let n = rest.len();
    let mut i: usize = 0;
    while i < n
        invariant
            n == all.len(),
            i <= n,
            rest@ == all.skip(i as int),
            out@ == present(all.take(i as int)),
        decreases n - i,
    {
        let slot = rest.remove(0);
        assert(all.take(i + 1).drop_last() == all.take(i as int));
        assert(slot == all[i as int]);
        match slot {
            Some(x) => out.push(x),
            None => {},
        }
        i = i + 1;
        assert(rest@ == all.skip(i as int));
    }
    assert(all.take(n as int) == all);
    out
}

/// Collecting keeps every document, in order: the documents of two runs of
/// slots, one after the other, are those of the first run followed by those of
/// the second; when no slot is empty, nothing is dropped.
pub proof fn lemma_present_concat<T>(a: Seq<Option<T>>, b: Seq<Option<T>>)
    ensures
        present(a + b) == present(a) + present(b),
        present(a).len() <= a.len(),
        (forall|i: int| 0 <= i < a.len() ==> a[i] is Some) ==> present(a).len() == a.len(),
    decreases b.len(), a.len(),
{
    if b.len() == 0 {
        assert(a + b =~= a);
        assert(present(a) + present(b) =~= present(a));
        lemma_present_len(a);
    } else {
        lemma_present_concat(a, b.drop_last());
        assert((a + b).drop_last() =~= a + b.drop_last());
        assert((a + b).last() == b.last());
        match b.last() {
            Some(x) => {
                assert(present(a) + present(b.drop_last()).push(x) =~= (present(a) + present(
                    b.drop_last(),
                )).push(x));
            },
            None => {},
        }
    }
}

proof fn lemma_present_len<T>(a: Seq<Option<T>>)
    ensures
        present(a).len() <= a.len(),
        (forall|i: int| 0 <= i < a.len() ==> a[i] is Some) ==> present(a).len() == a.len(),
    decreases a.len(),
{
    if a.len() > 0 {
        lemma_present_len(a.drop_last());
        assert(forall|i: int| 0 <= i < a.drop_last().len() ==> a.drop_last()[i] == a[i]);
    }
}

/// The names of the indexes that collection statistics list: the name the C
/// interface reports for each index, or the empty string where it reports none.
pub open spec fn index_names_spec(raw: Seq<Option<String>>) -> Seq<Seq<char>> {
    Seq::new(
        raw.len(),
        |i: int|
            match raw[i] {
                Some(s) => s@,
                None => Seq::empty(),
            },
    )
}

/// Returns the names of the indexes listed in collection statistics.
pub fn index_names(raw: Vec<Option<String>>) -> (r: Vec<String>)
    ensures
        r@.map_values(|s: String| s@) == index_names_spec(raw@),
{
    let mut out: Vec<String> = Vec::new();
    let mut i: usize = 0;
    while i < raw.len()
        invariant
            i <= raw@.len(),
            out@.len() == i,
            forall|j: int| 0 <= j < i ==> (#[trigger] out@[j])@ == index_names_spec(raw@)[j],
        decreases raw@.len() - i,
    {
        let name = match &raw[i] {
            Some(s) => s.clone(),
            None => String::new(),
        };
        out.push(name);
        i = i + 1;
    }
    assert(out@.map_values(|s: String| s@) =~= index_names_spec(raw@));
    out
}

} // verus!
