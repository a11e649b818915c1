use vstd::prelude::*;

use crate::listing::{listed, EntryRead};
use crate::naming::entry_name;
use crate::retrieve::{fetch_error, FetchError, Lookup};
use crate::upload::{plan_of, FormView, UploadPlan};

verus! {

/// The storage directory: the bytes of each entry, by name.
pub type Dir = Map<Seq<char>, Seq<u8>>;

/// The directory after an upload has been carried out.
pub open spec fn after_upload(dir: Dir, p: UploadPlan) -> Dir {
    match p {
        UploadPlan::Write { name, bytes } => dir.insert(name, bytes),
        _ => dir,
    }
}

/// The directory after a sequence of uploads, carried out in order.
pub open spec fn after_uploads(dir: Dir, forms: Seq<FormView>) -> Dir
    decreases forms.len(),
{
    if forms.len() == 0 {
        dir
    } else {
        after_upload(after_uploads(dir, forms.drop_last()), plan_of(forms.last()))
    }
}

/// What a lookup of `name` finds in `dir`.
pub open spec fn lookup_in(dir: Dir, name: Seq<char>) -> Lookup {
    if dir.contains_key(name) {
        Lookup::Opened { size: dir[name].len() as u64 }
    } else {
        Lookup::Missing
    }
}

/// Every entry of the directory is a single path segment.
pub open spec fn is_flat(dir: Dir) -> bool {
    forall|k: Seq<char>| #[trigger] dir.contains_key(k) ==> entry_name(k)
}

/// The names that an enumeration reads, where every read is a name.
pub open spec fn read_names(reads: Seq<EntryRead>) -> Seq<Seq<char>> {
    reads.map_values(
        |r: EntryRead|
            match r {
                EntryRead::Name(n) => n@,
                _ => Seq::empty(),
            },
    )
}

/// An enumeration that reads each entry of `dir` exactly once, without failure.
pub open spec fn enumerates(reads: Seq<EntryRead>, dir: Dir) -> bool {
    &&& forall|i: int| 0 <= i < reads.len() ==> #[trigger] reads[i] is Name
    &&& read_names(reads).no_duplicates()
    &&& read_names(reads).to_set() == dir.dom()
}

/// The stored names of a sequence of uploads that are all written.
pub open spec fn written_names(forms: Seq<FormView>) -> Seq<Seq<char>> {
    forms.map_values(|f: FormView| plan_of(f)->name)
}

/// Uploads never place an entry outside the storage directory: a flat
/// directory stays flat.
pub proof fn upload_keeps_flat(dir: Dir, form: FormView)
    requires
        is_flat(dir),
    ensures
        is_flat(after_upload(dir, plan_of(form))),
{
}

/// An upload without alias stores the payload under the client's file name,
/// and a download of that name then succeeds with exactly those bytes.
pub proof fn download_after_upload(dir: Dir, file_name: Seq<char>, bytes: Seq<u8>)
    requires
        entry_name(file_name),
    ensures
        ({
            let form = FormView { alias: None, file_name: Some(file_name), bytes: Some(bytes) };
            let d = after_upload(dir, plan_of(form));
            &&& plan_of(form) == (UploadPlan::Write { name: file_name, bytes })
            &&& d.contains_key(file_name)
            &&& d[file_name] == bytes
            &&& fetch_error(file_name, lookup_in(d, file_name)) is None
        }),
{
}

/// Two uploads with the same stored name leave one entry of that name, which
/// holds the second payload; the first leaves no trace.
pub proof fn second_upload_wins(dir: Dir, first: FormView, second: FormView)
    requires
        plan_of(first) is Write,
        plan_of(second) is Write,
        plan_of(first)->name == plan_of(second)->name,
    ensures
        ({
            let name = plan_of(second)->name;
            let d = after_upload(after_upload(dir, plan_of(first)), plan_of(second));
            &&& d == after_upload(dir, plan_of(second))
            &&& d.dom() == dir.dom().insert(name)
            &&& d[name] == plan_of(second)->bytes
        }),
{
    let d = after_upload(after_upload(dir, plan_of(first)), plan_of(second));
    assert(d =~= after_upload(dir, plan_of(second)));
}

proof fn lemma_listed_names(reads: Seq<EntryRead>)
    requires
        forall|i: int| 0 <= i < reads.len() ==> #[trigger] reads[i] is Name,
    ensures
        listed(reads) == read_names(reads),
    decreases reads.len(),
{
    if reads.len() > 0 {
        let rest = reads.drop_first();
        assert forall|i: int| 0 <= i < rest.len() implies #[trigger] rest[i] is Name by {
            assert(rest[i] == reads[i + 1]);
        }
        lemma_listed_names(rest);
        assert(read_names(reads) =~= seq![read_names(reads)[0]] + read_names(rest));
    }
}

/// A listing shows each entry of the directory once and nothing else.
pub proof fn listing_matches_directory(reads: Seq<EntryRead>, dir: Dir)
    requires
        enumerates(reads, dir),
    ensures
        listed(reads).no_duplicates(),
        listed(reads).to_set() == dir.dom(),
{
    lemma_listed_names(reads);
}

/// The listing of an empty directory is empty.
pub proof fn listing_of_empty_directory(reads: Seq<EntryRead>)
    requires
        enumerates(reads, Map::empty()),
    ensures
        listed(reads).len() == 0,
{
    lemma_listed_names(reads);
    read_names(reads).lemma_cardinality_of_empty_set_is_0();
}

proof fn lemma_uploaded_domain(forms: Seq<FormView>)
    requires
        forall|i: int| 0 <= i < forms.len() ==> #[trigger] plan_of(forms[i]) is Write,
    ensures
        after_uploads(Map::empty(), forms).dom() == written_names(forms).to_set(),
    decreases forms.len(),
{
    if forms.len() > 0 {
        let prev = forms.drop_last();
        assert forall|i: int| 0 <= i < prev.len() implies #[trigger] plan_of(prev[i]) is Write by {
            assert(prev[i] == forms[i]);
        }
        lemma_uploaded_domain(prev);
        assert(plan_of(forms[forms.len() - 1]) is Write);
        let last = plan_of(forms.last())->name;
        assert(written_names(forms) =~= written_names(prev) + seq![last]);
        Seq::lemma_to_set_insert_commutes(written_names(prev), last);
        assert(after_uploads(Map::empty(), forms).dom() =~= written_names(forms).to_set());
    }
}

/// After uploads of distinct stored names into an empty directory, the
/// listing shows exactly those names, each once.
pub proof fn listing_after_uploads(forms: Seq<FormView>, reads: Seq<EntryRead>)
    requires
        forall|i: int| 0 <= i < forms.len() ==> #[trigger] plan_of(forms[i]) is Write,
        written_names(forms).no_duplicates(),
        enumerates(reads, after_uploads(Map::empty(), forms)),
    ensures
        listed(reads).to_set() == written_names(forms).to_set(),
        listed(reads).len() == forms.len(),
{
    lemma_uploaded_domain(forms);
    lemma_listed_names(reads);
    read_names(reads).unique_seq_to_set();
    written_names(forms).unique_seq_to_set();
}

/// A name with no entry is not found, by a download and by a playback alike.
pub proof fn missing_entry_not_found(dir: Dir, name: Seq<char>)
    requires
        !dir.contains_key(name),
    ensures
        fetch_error(name, lookup_in(dir, name)) == Some(FetchError::NotFound),
{
}

/// Uploads of two different stored names do not interfere: either order
/// gives the same directory, and each entry holds its own payload and can
/// be fetched.
pub proof fn distinct_uploads_commute(dir: Dir, a: FormView, b: FormView)
    requires
        plan_of(a) is Write,
        plan_of(b) is Write,
        plan_of(a)->name != plan_of(b)->name,
    ensures
        ({
            let (pa, pb) = (plan_of(a), plan_of(b));
            let d = after_upload(after_upload(dir, pa), pb);
            &&& d == after_upload(after_upload(dir, pb), pa)
            &&& d[pa->name] == pa->bytes
            &&& d[pb->name] == pb->bytes
            &&& fetch_error(pa->name, lookup_in(d, pa->name)) is None
            &&& fetch_error(pb->name, lookup_in(d, pb->name)) is None
        }),
{
    let (pa, pb) = (plan_of(a), plan_of(b));
    assert(after_upload(after_upload(dir, pa), pb) =~= after_upload(after_upload(dir, pb), pa));
}

} // verus!
