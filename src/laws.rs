use vstd::prelude::*;
use crate::file::{FileError, FileView};

verus! {

/// A freshly created file cannot be read: reading it fails with
/// `InvalidState` and leaves the buffer as it was.
pub proof fn lemma_created_not_readable(name: Seq<char>, dest: Seq<u8>)
    ensures
        FileView::created(name).read_outcome(dest) == (
        Err::<usize, FileError>(FileError::InvalidState),
        dest,
        ),
{
}

/// Once opened, a file with an empty payload reads zero bytes and appends
/// nothing to the buffer.
pub proof fn lemma_open_empty_reads_nothing(v: FileView, dest: Seq<u8>)
    requires
        v.data.len() == 0,
    ensures
        v.opened().read_outcome(dest) == (Ok::<usize, FileError>(0), dest),
{
    assert(dest + v.data =~= dest);
}

/// Opening and then closing a file makes it unreadable again, whatever
/// state it started in.
pub proof fn lemma_open_close_not_readable(v: FileView, dest: Seq<u8>)
    ensures
        v.opened().closed().read_outcome(dest) == (
        Err::<usize, FileError>(FileError::InvalidState),
        dest,
        ),
{
}

/// A successful read returns the file's length and appends exactly that many
/// bytes, the payload itself.
pub proof fn lemma_len_counts_read(v: FileView, dest: Seq<u8>)
    requires
        v.is_open(),
    ensures
        v.read_outcome(dest).0 == Ok::<usize, FileError>(v.data.len() as usize),
        v.read_outcome(dest).1.len() == dest.len() + v.data.len(),
        v.read_outcome(dest).1.subrange(dest.len() as int, v.read_outcome(dest).1.len() as int)
            == v.data,
{
    assert((dest + v.data).subrange(dest.len() as int, (dest + v.data).len() as int) =~= v.data);
}

/// A file keeps the name it was created with: opening and closing do not
/// change it.
pub proof fn lemma_name_kept(name: Seq<char>, v: FileView)
    ensures
        FileView::created(name).name == name,
        v.opened().name == v.name,
        v.closed().name == v.name,
{
}

} // verus!
