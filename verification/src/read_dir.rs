//! A directory stream that is driven from outside: the caller makes the
//! platform's calls and hands in what they returned; the stream decides what
//! each result means.

use crate::cbytes::{until_nul, CBytes};
use crate::error::{checked, cvt, FsError};
use crate::file_type::{opt_mode, tag_mode, FileAttr, FileType};
use std::sync::Arc;
use vstd::prelude::*;

verus! {

/// The flag that makes a lookup describe a symbolic link itself.
pub const AT_SYMLINK_NOFOLLOW: i32 = 0x100;

/// What is copied out of a native directory record before the next read
/// overwrites it: the inode number, the type tag, and the name field from its
/// first byte to the end of the record.
pub struct RawEntry {
    pub d_ino: u64,
    pub d_type: u8,
    pub d_name: Vec<u8>,
}

/// What one native read of a directory returned.
pub enum RawRead {
    /// No record. `errno` is the platform's error number after the call; it was
    /// cleared before the call, so zero means that the directory has ended.
    Null { errno: i32 },
    /// A record.
    Record(RawEntry),
}

/// What a native open of a directory returned.
pub enum Opened<H> {
    /// The handle of the open directory.
    Handle(H),
    /// No handle; `errno` is the platform's error number after the call.
    Failed { errno: i32 },
}

/// What a directory entry is, apart from the stream it came from.
pub struct Entry {
    pub name: Seq<u8>,
    pub ino: u64,
    pub tag: u8,
}

/// Whether `name` is one of the two names that every directory holds for
/// itself and for its parent.
pub open spec fn is_dot(name: Seq<u8>) -> bool {
    name == seq![46u8] || name == seq![46u8, 46u8]
}

/// The entry that a record describes.
pub open spec fn entry_of(raw: RawEntry) -> Entry {
    Entry { name: until_nul(raw.d_name@), ino: raw.d_ino, tag: raw.d_type }
}

struct InnerReadDir<H> {
    dirp: H,
    root: Vec<u8>,
}

struct DirentMin {
    d_ino: u64,
    d_type: u8,
}

/// An entry of a directory. It owns its name and shares the directory's handle
/// with the stream and with the other entries.
pub struct DirEntry<H> {
    dir: Arc<InnerReadDir<H>>,
    entry: DirentMin,
    name: CBytes,
}

impl<H> View for DirEntry<H> {
    type V = Entry;

    closed spec fn view(&self) -> Entry {
        Entry { name: self.name@, ino: self.entry.d_ino, tag: self.entry.d_type }
    }
}

/// What is asked of the platform to look an entry up: the descriptor of the
/// directory, the entry's name in native form, and the flags of the lookup.
pub struct StatRequest<'a> {
    pub fd: i32,
    pub name: &'a CBytes,
    pub flags: i32,
}

/// The mode that a lookup gave, or the error that it gave.
pub open spec fn looked_up_mode(metadata: Result<FileAttr, FsError>) -> Result<u32, FsError> {
    match metadata {
        Ok(attr) => Ok(attr.st_mode),
        Err(e) => Err(e),
    }
}

/// The mode of a file type, or the error in its place.
pub open spec fn mode_or_error(t: Result<FileType, FsError>) -> Result<u32, FsError> {
    match t {
        Ok(t) => Ok(t@),
        Err(e) => Err(e),
    }
}

impl<H> DirEntry<H> {
    #[verifier::type_invariant]
    spec fn well_formed(self) -> bool {
        !is_dot(self.name@)
    }

    /// The handle of the directory that the entry came from.
    pub closed spec fn spec_handle(&self) -> &H {
        &self.dir.dirp
    }

    /// The path that the directory was opened with.
    pub closed spec fn spec_root(&self) -> Seq<u8> {
        self.dir.root@
    }

    /// The handle of the directory that the entry came from.
    #[verifier::when_used_as_spec(spec_handle)]
    pub fn handle(&self) -> (handle: &H)
        ensures
            handle == self.spec_handle(),
    {
        &self.dir.dirp
    }

    /// The entry's name: never `.` or `..`, and without a NUL byte.
    pub fn file_name_os_str(&self) -> (name: &[u8])
        ensures
            name@ == self@.name,
            !is_dot(name@),
            !name@.contains(0u8),
    {
        proof {
            use_type_invariant(self);
        }
        self.name.to_bytes()
    }

    /// A copy of the entry's name.
    pub fn file_name(&self) -> (name: Vec<u8>)
        ensures
            name@ == self@.name,
    {
        vstd::slice::slice_to_vec(self.name.to_bytes())
    }

    /// The entry's name in native form.
    pub fn name_cstr(&self) -> (name: &CBytes)
        ensures
            name@ == self@.name,
    {
        &self.name
    }

    /// The inode number that the directory record gave.
    pub fn ino(&self) -> (ino: u64)
        ensures
            ino == self@.ino,
    {
        self.entry.d_ino
    }

    /// What to ask of the platform to look the entry up, given what asking the
    /// handle for its descriptor returned. Without a descriptor there is nothing
    /// to ask. The lookup is relative to the directory and does not follow a
    /// symbolic link.
    pub fn stat_request(&self, dirfd: i32, errno: i32) -> (request: Result<StatRequest<'_>, FsError>)
        ensures
            match request {
                Ok(r) => {
                    &&& checked(dirfd, errno) == Ok::<i32, FsError>(r.fd)
                    &&& r.name@ == self@.name
                    &&& r.flags == AT_SYMLINK_NOFOLLOW
                },
                Err(e) => checked(dirfd, errno) == Err::<i32, FsError>(e),
            },
    {
        match cvt(dirfd, errno) {
            Ok(fd) => Ok(StatRequest { fd, name: &self.name, flags: AT_SYMLINK_NOFOLLOW }),
            Err(e) => Err(e),
        }
    }

    /// The attributes of the entry, given what the lookup returned and the record
    /// that it filled. Nothing is kept from one lookup to the next: the result is
    /// that of this lookup alone.
    pub fn metadata(&self, ret: i32, errno: i32, stat: FileAttr) -> (attr: Result<FileAttr, FsError>)
        ensures
            attr == match checked(ret, errno) {
                Ok(_) => Ok::<FileAttr, FsError>(stat),
                Err(e) => Err(e),
            },
    {
        match cvt(ret, errno) {
            Ok(_) => Ok(stat),
            Err(e) => Err(e),
        }
    }

    /// The kind that the directory record itself names. A record that names none
    /// leaves the kind to a lookup.
    pub fn file_type(&self) -> (t: Option<FileType>)
        ensures
            opt_mode(t) == tag_mode(self@.tag),
    {
        FileType::from_tag(self.entry.d_type)
    }

    /// The kind of the entry, given what a lookup of it returned: the kind that
    /// the directory record names if it names one, else the kind that the lookup
    /// found, or the lookup's error.
    pub fn file_type_from(&self, metadata: Result<FileAttr, FsError>) -> (t: Result<
        FileType,
        FsError,
    >)
        ensures
            mode_or_error(t) == match tag_mode(self@.tag) {
                Some(mode) => Ok(mode),
                None => looked_up_mode(metadata),
            },
    {
        match FileType::from_tag(self.entry.d_type) {
            Some(t) => Ok(t),
            None => match metadata {
                Ok(attr) => Ok(attr.file_type()),
                Err(e) => Err(e),
            },
        }
    }
}

/// What a step of the stream gave.
pub enum Step<H> {
    /// The record was `.` or `..`: read again.
    Again,
    /// The next entry.
    Entry(DirEntry<H>),
    /// The read failed.
    Error(FsError),
    /// The directory has ended, or the stream had ended before.
    End,
}

/// A step's result, apart from the stream.
pub enum Outcome {
    Again,
    Entry(Entry),
    Error(FsError),
    End,
}

impl<H> View for Step<H> {
    type V = Outcome;

    open spec fn view(&self) -> Outcome {
        match *self {
            Step::Again => Outcome::Again,
            Step::Entry(e) => Outcome::Entry(e@),
            Step::Error(e) => Outcome::Error(e),
            Step::End => Outcome::End,
        }
    }
}

/// What a read means to a stream that has ended (`done`) or not.
pub open spec fn outcome(done: bool, read: RawRead) -> Outcome {
    if done {
        Outcome::End
    } else {
        match read {
            RawRead::Null { errno } => if errno == 0 {
                Outcome::End
            } else {
                Outcome::Error(FsError::OsError(errno))
            },
            RawRead::Record(raw) => if is_dot(until_nul(raw.d_name@)) {
                Outcome::Again
            } else {
                Outcome::Entry(entry_of(raw))
            },
        }
    }
}

/// Whether a stream has ended after a read: it ends with the first read that
/// returns no record, be it the end of the directory or an error.
pub open spec fn done_after(done: bool, read: RawRead) -> bool {
    done || read is Null
}

/// A stream over the entries of an open directory.
pub struct ReadDir<H> {
    inner: Arc<InnerReadDir<H>>,
    end_of_stream: bool,
}

impl<H> ReadDir<H> {
    /// The handle of the open directory.
    pub closed spec fn spec_handle(&self) -> &H {
        &self.inner.dirp
    }

    /// The path that the directory was opened with.
    pub closed spec fn spec_root(&self) -> Seq<u8> {
        self.inner.root@
    }

    /// Whether the stream has ended.
    pub closed spec fn spec_end_of_stream(&self) -> bool {
        self.end_of_stream
    }

    /// The handle of the open directory, for the next read.
    #[verifier::when_used_as_spec(spec_handle)]
    pub fn handle(&self) -> (handle: &H)
        ensures
            handle == self.spec_handle(),
    {
        &self.inner.dirp
    }

    /// The path that the directory was opened with.
    pub fn root(&self) -> (root: &[u8])
        ensures
            root@ == self.spec_root(),
    {
        self.inner.root.as_slice()
    }

    /// Whether the stream has ended: no read is to be made for it any more.
    #[verifier::when_used_as_spec(spec_end_of_stream)]
    pub fn end_of_stream(&self) -> (done: bool)
        ensures
            done == self.spec_end_of_stream(),
    {
        self.end_of_stream
    }

    /// Takes what the next native read returned and says what it means. The
    /// error number must have been cleared before that read. A record gives an
    /// entry that shares the stream's handle, unless it is `.` or `..`. No
    /// record ends the stream, with an error where the error number is set.
    /// A stream that has ended stays so, whatever it is handed.
    pub fn next(&mut self, read: RawRead) -> (step: Step<H>)
        ensures
            step@ == outcome(old(self).spec_end_of_stream(), read),
            final(self).spec_end_of_stream() == done_after(old(self).spec_end_of_stream(), read),
            final(self).spec_handle() == old(self).spec_handle(),
            final(self).spec_root() == old(self).spec_root(),
            step matches Step::Entry(e) ==> e.spec_handle() == old(self).spec_handle()
                && e.spec_root() == old(self).spec_root(),
    {
        if self.end_of_stream {
            return Step::End;
        }
        match read {
            RawRead::Null { errno } => {
                self.end_of_stream = true;
                if errno == 0 {
                    Step::End
                } else {
                    Step::Error(FsError::OsError(errno))
                }
            },
            RawRead::Record(raw) => {
                let name = CBytes::from_field(raw.d_name.as_slice());
                if dot_name(name.to_bytes()) {
                    Step::Again
                } else {
                    Step::Entry(
                        DirEntry {
                            dir: Arc::clone(&self.inner),
                            entry: DirentMin { d_ino: raw.d_ino, d_type: raw.d_type },
                            name,
                        },
                    )
                }
            },
        }
    }
}

/// Whether `name` is `.` or `..`.
pub fn dot_name(name: &[u8]) -> (dot: bool)
    ensures
        dot == is_dot(name@),
{
    let dot = (name.len() == 1 && name[0] == 46) || (name.len() == 2 && name[0] == 46 && name[1]
        == 46);
    proof {
        if dot {
            assert(name@ =~= seq![46u8] || name@ =~= seq![46u8, 46u8]);
        } else if is_dot(name@) {
            assert(seq![46u8].len() == 1 && seq![46u8][0] == 46u8);
            assert(seq![46u8, 46u8].len() == 2 && seq![46u8, 46u8][0] == 46u8 && seq![
                46u8,
                46u8,
            ][1] == 46u8);
        }
    }
    dot
}

/// Makes the stream of a directory from the path it was opened with and from
/// what the native open returned: a stream at its start where there is a
/// handle, else the error that the platform named.
pub fn readdir<H>(path: &CBytes, opened: Opened<H>) -> (stream: Result<ReadDir<H>, FsError>)
    ensures
        match opened {
            Opened::Handle(handle) => stream matches Ok(dir) && *dir.spec_handle() == handle
                && dir.spec_root() == path@ && !dir.spec_end_of_stream(),
            Opened::Failed { errno } => stream matches Err(e) && e == FsError::OsError(errno),
        },
{
    match opened {
        Opened::Handle(dirp) => {
            let root = vstd::slice::slice_to_vec(path.to_bytes());
            let inner = InnerReadDir { dirp, root };
            Ok(ReadDir { inner: Arc::new(inner), end_of_stream: false })
        },
        Opened::Failed { errno } => Err(FsError::OsError(errno)),
    }
}

/// The results of the steps of a stream that is handed `reads` one after the
/// other, `done` saying whether it had ended before the first of them.
pub open spec fn outcomes(done: bool, reads: Seq<RawRead>) -> Seq<Outcome>
    decreases reads.len(),
{
    if reads.len() == 0 {
        Seq::empty()
    } else {
        seq![outcome(done, reads[0])] + outcomes(done_after(done, reads[0]), reads.drop_first())
    }
}

/// The entries among `outs`, in their order.
pub open spec fn entries(outs: Seq<Outcome>) -> Seq<Entry>
    decreases outs.len(),
{
    if outs.len() == 0 {
        Seq::empty()
    } else {
        match outs[0] {
            Outcome::Entry(e) => seq![e] + entries(outs.drop_first()),
            _ => entries(outs.drop_first()),
        }
    }
}

/// The reads of a directory that holds `records` and is read to its end
/// without an error: each record in turn, then none with the error number clear.
pub open spec fn reads_of(records: Seq<RawEntry>) -> Seq<RawRead> {
    records.map_values(|raw: RawEntry| RawRead::Record(raw)).push(RawRead::Null { errno: 0 })
}

/// What a directory that holds `records` lists: the entries that the records
/// describe, in their order, without `.` and `..`.
pub open spec fn listing(records: Seq<RawEntry>) -> Seq<Entry> {
    records.map_values(|raw: RawEntry| entry_of(raw)).filter(|e: Entry| !is_dot(e.name))
}

/// A stream at its start that is handed the reads of a whole directory yields
/// exactly the directory's listing: every entry but `.` and `..`, each once and
/// in the order of the records. No step fails, and the last one ends the stream.
pub proof fn lemma_iteration_lists_directory(records: Seq<RawEntry>)
    ensures
        entries(outcomes(false, reads_of(records))) == listing(records),
        forall|i: int|
            0 <= i < listing(records).len() ==> !is_dot((#[trigger] listing(records)[i]).name),
        outcomes(false, reads_of(records)).len() == records.len() + 1,
        outcomes(false, reads_of(records)).last() == Outcome::End,
        forall|i: int|
            0 <= i < records.len() + 1 ==> !(#[trigger] outcomes(false, reads_of(records))[i]
                is Error),
    decreases records.len(),
{
    let reads = reads_of(records);
    let outs = outcomes(false, reads);
    let keep = |e: Entry| !is_dot(e.name);
    assert forall|i: int| 0 <= i < listing(records).len() implies !is_dot(
        (#[trigger] listing(records)[i]).name,
    ) by {
        records.map_values(|raw: RawEntry| entry_of(raw)).lemma_filter_pred(keep, i);
    }
    reveal(Seq::filter);
    if records.len() == 0 {
        assert(reads =~= seq![RawRead::Null { errno: 0 }]);
        assert(reads.drop_first() =~= Seq::<RawRead>::empty());
        assert(outcomes(true, reads.drop_first()) =~= Seq::<Outcome>::empty());
        assert(outs =~= seq![Outcome::End]);
        assert(outs.drop_first() =~= Seq::<Outcome>::empty());
        assert(entries(outs.drop_first()) =~= Seq::<Entry>::empty());
        assert(entries(outs) =~= Seq::<Entry>::empty());
        assert(listing(records) =~= Seq::<Entry>::empty());
    } else {
        let first = records[0];
        let rest = records.drop_first();
        lemma_iteration_lists_directory(rest);
        let rest_outs = outcomes(false, reads_of(rest));
        assert(reads[0] == RawRead::Record(first));
        assert(reads.drop_first() =~= reads_of(rest));
        assert(outs == seq![outcome(false, reads[0])] + rest_outs);
        assert(outs.drop_first() =~= rest_outs);
        assert(outs.last() == rest_outs.last());
        assert forall|i: int| 0 <= i < records.len() + 1 implies !(#[trigger] outs[i]
            is Error) by {
            if i > 0 {
                assert(outs[i] == rest_outs[i - 1]);
            }
        }
        let mapped = records.map_values(|raw: RawEntry| entry_of(raw));
        let mapped_rest = rest.map_values(|raw: RawEntry| entry_of(raw));
        let head = seq![entry_of(first)];
        assert(mapped =~= head + mapped_rest);
        Seq::filter_distributes_over_add(head, mapped_rest, keep);
        assert(head.drop_last() =~= Seq::<Entry>::empty());
        assert(Seq::<Entry>::empty().filter(keep) =~= Seq::<Entry>::empty());
        assert(head.last() == entry_of(first));
        assert(head.filter(keep) =~= if is_dot(entry_of(first).name) {
            Seq::<Entry>::empty()
        } else {
            head
        });
        assert(listing(records) =~= head.filter(keep) + listing(rest));
        assert(entries(outs) =~= head.filter(keep) + entries(rest_outs));
    }
}

/// Iterating a directory that holds nothing but `.` and `..` yields no entry
/// and no error.
pub proof fn lemma_empty_directory(records: Seq<RawEntry>)
    requires
        forall|i: int| 0 <= i < records.len() ==> is_dot(until_nul(#[trigger] records[i].d_name@)),
    ensures
        entries(outcomes(false, reads_of(records))) == Seq::<Entry>::empty(),
        forall|i: int|
            0 <= i < records.len() + 1 ==> !(#[trigger] outcomes(false, reads_of(records))[i]
                is Error),
{
    lemma_iteration_lists_directory(records);
    let mapped = records.map_values(|raw: RawEntry| entry_of(raw));
    let keep = |e: Entry| !is_dot(e.name);
    let listed = mapped.filter(keep);
    if listed.len() > 0 {
        mapped.lemma_filter_pred(keep, 0);
        mapped.lemma_filter_contains_rev(keep, listed[0]);
        let j = choose|j: int| 0 <= j < mapped.len() && mapped[j] == listed[0];
        assert(is_dot(until_nul(records[j].d_name@)));
    }
    assert(listed =~= Seq::<Entry>::empty());
}

/// A stream that has ended yields nothing more: whatever it is handed, every
/// step says that it has ended.
pub proof fn lemma_ended_stream_stays_ended(reads: Seq<RawRead>)
    ensures
        outcomes(true, reads).len() == reads.len(),
        forall|i: int| 0 <= i < reads.len() ==> #[trigger] outcomes(true, reads)[i] == Outcome::End,
    decreases reads.len(),
{
    if reads.len() > 0 {
        let rest = reads.drop_first();
        lemma_ended_stream_stays_ended(rest);
        assert forall|i: int| 0 <= i < reads.len() implies #[trigger] outcomes(true, reads)[i]
            == Outcome::End by {
            if i > 0 {
                assert(outcomes(true, reads)[i] == outcomes(true, rest)[i - 1]);
            }
        }
    }
}

} // verus!
