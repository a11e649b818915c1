use vstd::prelude::*;

verus! {

/// One step of enumerating the storage directory.
pub enum EntryRead {
    /// An entry whose name is valid text.
    Name(String),
    /// An entry whose name cannot be shown as text.
    Undecodable,
    /// The enumeration failed; nothing after this is read.
    Failed,
}

/// One listed file.
pub struct FileInfo {
    pub name: String,
}

/// The names that a listing shows for an enumeration: those of the
/// decodable entries read before the first failure, in order.
pub open spec fn listed(reads: Seq<EntryRead>) -> Seq<Seq<char>>
    decreases reads.len(),
{
    if reads.len() == 0 {
        Seq::empty()
    } else {
        match reads[0] {
            EntryRead::Name(n) => seq![n@] + listed(reads.drop_first()),
            EntryRead::Undecodable => listed(reads.drop_first()),
            EntryRead::Failed => Seq::empty(),
        }
    }
}

/// The names shown by `files`.
pub open spec fn names_of(files: Seq<FileInfo>) -> Seq<Seq<char>> {
    files.map_values(|f: FileInfo| f.name@)
}

/// The listing for an enumeration of the storage directory. An unreadable
/// directory is handed over as no entries at all.
pub fn list_files(reads: &Vec<EntryRead>) -> (r: Vec<FileInfo>)
    ensures
        names_of(r@) == listed(reads@),
{
    let mut out: Vec<FileInfo> = Vec::new();
    let mut i: usize = 0;
    assert(reads@.subrange(0, reads@.len() as int) =~= reads@);
    assert(names_of(out@) =~= Seq::<Seq<char>>::empty());
    while i < reads.len()
        invariant
            i <= reads@.len(),
            listed(reads@) == names_of(out@) + listed(reads@.subrange(i as int, reads@.len() as int)),
        decreases reads@.len() - i,
    {
        let ghost rest = reads@.subrange(i as int, reads@.len() as int);
        assert(rest.drop_first() =~= reads@.subrange(i + 1, reads@.len() as int));
        match &reads[i] {
            EntryRead::Name(n) => {
                let ghost prev = out@;
                out.push(FileInfo { name: n.clone() });
                assert(names_of(out@) =~= names_of(prev) + seq![n@]);
            },
            EntryRead::Undecodable => {},
            EntryRead::Failed => {
                assert(names_of(out@) + listed(rest) =~= names_of(out@));
                return out;
            },
        }
        i += 1;
    }
    assert(names_of(out@) + listed(reads@.subrange(i as int, reads@.len() as int)) =~= names_of(out@));
    out
}

} // verus!
