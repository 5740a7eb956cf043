//! Directory enumeration and path resolution.
//!
//! A directory's data is a run of variable-length records: inode number
//! at +0x0, record length at +0x4, name length at +0x6, name bytes at
//! +0x8.  The record length advances the scan; a record with inode number
//! zero terminates the usable entries, and an exhausted region terminates
//! them as well.  Names are byte strings, exactly as stored on disk.

use vstd::prelude::*;

use crate::error::{Error, Structure};
use crate::extent::spec_data_range;
use crate::inode::{spec_filetype_of_mode, Filetype, Inode, InodeNumber};
use crate::inode::{INODE_BLOCK_PAYLOAD_LEN, ROOT_INODE};
use crate::reader::{le16, le16_at, le32, le32_at, Reader};
use crate::source::ReadSource;
use crate::superblock::Superblock;

verus! {

/// One name-to-inode binding as decoded, in mathematical form.
pub ghost struct SpecDirEntry {
    pub inode: u64,
    pub rec_len: u64,
    pub name: Seq<u8>,
}

/// One name-to-inode binding in a directory's data.
#[derive(Debug, Clone, PartialEq, Eq)]
pub struct DirectoryEntry {
    /// The bound inode number; never zero in a decoded entry.
    pub inode: u64,
    /// On-disk record length; the distance to the next record.
    pub rec_len: u64,
    /// The name, exactly the bytes stored on disk.
    pub name: Vec<u8>,
}

impl View for DirectoryEntry {
    type V = SpecDirEntry;

    open spec fn view(&self) -> SpecDirEntry {
        SpecDirEntry { inode: self.inode, rec_len: self.rec_len, name: self.name@ }
    }
}

/// The mathematical value of a decoded entry list.
pub open spec fn entries_view(es: Seq<DirectoryEntry>) -> Seq<SpecDirEntry> {
    es.map_values(|e: DirectoryEntry| e@)
}

/// What enumerating a directory's data region from byte `off` on means.
///
/// The scan stops, successfully, at a record whose inode number is zero
/// or when fewer than eight bytes (one record header) remain; a record
/// whose name runs past the region or whose record length cannot even
/// hold its own name is a format error, with offsets relative to the
/// region.  A record length reaching past the region ends the scan after
/// that record.
pub open spec fn spec_entries_from(s: Seq<u8>, off: int) -> Result<Seq<SpecDirEntry>, Error>
    decreases s.len() - off,
    when 0 <= off
{
    if off + 8 > s.len() {
        Ok(Seq::empty())
    } else {
        let ino = le32_at(s, off);
        let rl = le16_at(s, off + 4);
        let nl = s[off + 6] as int;
        if ino == 0 {
            Ok(Seq::empty())
        } else if off + 8 + nl > s.len() {
            Err(Error::Format {
                structure: Structure::DirectoryEntry,
                offset: off as u64,
                expected: nl as u64,
                found: (s.len() - off - 8) as u64,
            })
        } else if rl < 8 + nl {
            Err(Error::Format {
                structure: Structure::DirectoryEntry,
                offset: off as u64,
                expected: (8 + nl) as u64,
                found: rl as u64,
            })
        } else {
            let e = SpecDirEntry {
                inode: ino as u64,
                rec_len: rl as u64,
                name: s.subrange(off + 8, off + 8 + nl),
            };
            if off + rl > s.len() {
                Ok(seq![e])
            } else {
                match spec_entries_from(s, off + rl) {
                    Err(err) => Err(err),
                    Ok(rest) => Ok(seq![e].add(rest)),
                }
            }
        }
    }
}

/// The already-collected entries `acc` followed by whatever enumeration
/// yields from `off` on make up exactly `total`.
pub open spec fn spec_entries_continue(
    total: Result<Seq<SpecDirEntry>, Error>,
    acc: Seq<SpecDirEntry>,
    s: Seq<u8>,
    off: int,
) -> bool {
    match spec_entries_from(s, off) {
        Ok(rest) => total == Ok::<Seq<SpecDirEntry>, Error>(acc.add(rest)),
        Err(e) => total == Err::<Seq<SpecDirEntry>, Error>(e),
    }
}

/// Enumerate the directory entries of one decoded data region.
///
/// The outcome is exactly `spec_entries_from` of the region: the same
/// entries in the same order, or the same error.  The scan never reads
/// past the region's length.
pub fn decode_dir_entries(data: &[u8]) -> (r: Result<Vec<DirectoryEntry>, Error>)
    ensures
        match r {
            Ok(v) => spec_entries_from(data@, 0) == Ok::<Seq<SpecDirEntry>, Error>(
                entries_view(v@),
            ),
            Err(e) => spec_entries_from(data@, 0) == Err::<Seq<SpecDirEntry>, Error>(e),
        },
{
    let n = data.len();
    let ghost total = spec_entries_from(data@, 0);
    let mut entries: Vec<DirectoryEntry> = Vec::new();
    let mut off: usize = 0;
    proof {
        assert(entries_view(entries@).add(Seq::<SpecDirEntry>::empty()) =~= entries_view(
            entries@,
        ));
        if let Ok(rest) = spec_entries_from(data@, 0) {
            assert(entries_view(entries@).add(rest) =~= rest);
        }
    }
    loop
        invariant
            n == data@.len(),
            off <= n,
            total == spec_entries_from(data@, 0),
            spec_entries_continue(total, entries_view(entries@), data@, off as int),
        decreases n - off,
    {
        if n < 8 || off > n - 8 {
            proof {
                assert(spec_entries_from(data@, off as int) == Ok::<Seq<SpecDirEntry>, Error>(
                    Seq::empty(),
                ));
                assert(entries_view(entries@).add(Seq::<SpecDirEntry>::empty()) =~= entries_view(
                    entries@,
                ));
            }
            return Ok(entries);
        }
        let ino = le32(data, off);
        if ino == 0 {
            proof {
                assert(spec_entries_from(data@, off as int) == Ok::<Seq<SpecDirEntry>, Error>(
                    Seq::empty(),
                ));
                assert(entries_view(entries@).add(Seq::<SpecDirEntry>::empty()) =~= entries_view(
                    entries@,
                ));
            }
            return Ok(entries);
        }
        let rl = le16(data, off + 4) as usize;
        let nl = data[off + 6] as usize;
        if nl > n - off - 8 {
            return Err(Error::Format {
                structure: Structure::DirectoryEntry,
                offset: off as u64,
                expected: nl as u64,
                found: (n - off - 8) as u64,
            });
        }
        if rl < 8 + nl {
            return Err(Error::Format {
                structure: Structure::DirectoryEntry,
                offset: off as u64,
                expected: (8 + nl) as u64,
                found: rl as u64,
            });
        }
        let mut name: Vec<u8> = Vec::new();
        let mut i: usize = 0;
        while i < nl
            invariant
                n == data@.len(),
                off + 8 + nl <= n,
                i <= nl,
                name@ == data@.subrange(off + 8, off + 8 + i),
            decreases nl - i,
        {
            name.push(data[off + 8 + i]);
            assert(name@ == data@.subrange(off + 8, off + 8 + i + 1));
            i = i + 1;
        }
        let ghost prev = entries_view(entries@);
        let entry = DirectoryEntry { inode: ino as u64, rec_len: rl as u64, name };
        let ghost e = entry@;
        entries.push(entry);
        proof {
            assert(entries_view(entries@) =~= prev.push(e));
        }
        if rl > n - off {
            proof {
                assert(spec_entries_from(data@, off as int) == Ok::<Seq<SpecDirEntry>, Error>(
                    seq![e],
                ));
                assert(prev.add(seq![e]) =~= prev.push(e));
            }
            return Ok(entries);
        }
        proof {
            if let Ok(rest) = spec_entries_from(data@, off + rl) {
                assert(prev.add(seq![e].add(rest)) =~= prev.push(e).add(rest));
            }
        }
        off = off + rl;
    }
}

/// The inode bound to the first entry whose name equals `name`, if any.
pub open spec fn spec_find_child(entries: Seq<SpecDirEntry>, name: Seq<u8>) -> Option<
    crate::inode::InodeNumber,
>
    decreases entries.len(),
{
    if entries.len() == 0 {
        None
    } else if entries[0].name == name {
        Some(crate::inode::InodeNumber(entries[0].inode))
    } else {
        spec_find_child(entries.drop_first(), name)
    }
}

/// Compare two byte strings.
fn bytes_eq(a: &[u8], b: &[u8]) -> (r: bool)
    ensures
        r == (a@ == b@),
{
    if a.len() != b.len() {
        return false;
    }
    let n = a.len();
    let mut i: usize = 0;
    while i < n
        invariant
            n == a@.len() == b@.len(),
            i <= n,
            forall|j: int| 0 <= j < i ==> a@[j] == b@[j],
        decreases n - i,
    {
        if a[i] != b[i] {
            return false;
        }
        i = i + 1;
    }
    proof {
        assert(a@ =~= b@);
    }
    true
}

/// Look a name up in a decoded entry list: the first match wins, a
/// missing name is `None`.
pub fn find_child(entries: &Vec<DirectoryEntry>, name: &[u8]) -> (r: Option<
    crate::inode::InodeNumber,
>)
    ensures
        r == spec_find_child(entries_view(entries@), name@),
{
    let ghost all = entries_view(entries@);
    let n = entries.len();
    let mut i: usize = 0;
    proof {
        assert(all.skip(0) =~= all);
    }
    while i < n
        invariant
            n == entries@.len(),
            i <= n,
            all == entries_view(entries@),
            spec_find_child(all, name@) == spec_find_child(all.skip(i as int), name@),
        decreases n - i,
    {
        if bytes_eq(entries[i].name.as_slice(), name) {
            assert(all.skip(i as int)[0] == entries@[i as int]@);
            return Some(crate::inode::InodeNumber(entries[i].inode));
        }
        proof {
            assert(all.skip(i as int).drop_first() =~= all.skip(i + 1));
        }
        i = i + 1;
    }
    proof {
        assert(all.skip(n as int) =~= Seq::<SpecDirEntry>::empty());
    }
    None
}

/// A lookup is not-found exactly when no decoded entry bears the name.
pub proof fn lemma_find_child_absent(entries: Seq<SpecDirEntry>, name: Seq<u8>)
    ensures
        (spec_find_child(entries, name) is None) <==> (forall|i: int|
            0 <= i < entries.len() ==> entries[i].name != name),
    decreases entries.len(),
{
    if entries.len() > 0 {
        lemma_find_child_absent(entries.drop_first(), name);
        if entries[0].name != name {
            assert(forall|i: int|
                1 <= i < entries.len() ==> entries[i] == entries.drop_first()[i - 1]);
        }
    }
}

/// A lookup of a present name returns the inode number bound to its
/// first occurrence in the entry list.
pub proof fn lemma_find_child_present(entries: Seq<SpecDirEntry>, name: Seq<u8>, i: int)
    requires
        0 <= i < entries.len(),
        entries[i].name == name,
        forall|j: int| 0 <= j < i ==> entries[j].name != name,
    ensures
        spec_find_child(entries, name) == Some(crate::inode::InodeNumber(entries[i].inode)),
    decreases i,
{
    if i > 0 {
        lemma_find_child_present(entries.drop_first(), name, i - 1);
    }
}

/// Enumeration stops exactly at an inode-number-zero sentinel: nothing
/// at or after the sentinel is decoded.
pub proof fn lemma_sentinel_stops_enumeration(s: Seq<u8>, off: int)
    requires
        0 <= off,
        off + 8 <= s.len(),
        le32_at(s, off) == 0,
    ensures
        spec_entries_from(s, off) == Ok::<Seq<SpecDirEntry>, Error>(Seq::empty()),
{
}

/// A successful lookup returns an inode number bound by some entry, so a
/// lookup in a decoded entry list never returns zero.
pub proof fn lemma_find_child_bound(entries: Seq<SpecDirEntry>, name: Seq<u8>)
    requires
        forall|i: int| 0 <= i < entries.len() ==> (#[trigger] entries[i]).inode >= 1,
    ensures
        spec_find_child(entries, name) matches Some(x) ==> x.0 >= 1,
    decreases entries.len(),
{
    if entries.len() > 0 && entries[0].name != name {
        assert(forall|i: int|
            0 <= i < entries.drop_first().len() ==> (#[trigger] entries.drop_first()[i]).inode
                >= 1);
        lemma_find_child_bound(entries.drop_first(), name);
    }
}

/// Every decoded entry binds a nonzero inode number.
pub proof fn lemma_entries_nonzero(s: Seq<u8>, off: int)
    requires
        0 <= off,
    ensures
        spec_entries_from(s, off) matches Ok(es) ==> forall|i: int|
            0 <= i < es.len() ==> (#[trigger] es[i]).inode >= 1,
    decreases s.len() - off,
{
    if off + 8 > s.len() {
    } else {
        let ino = le32_at(s, off);
        let rl = le16_at(s, off + 4);
        let nl = s[off + 6] as int;
        if ino != 0 && off + 8 + nl <= s.len() && rl >= 8 + nl && off + rl <= s.len() {
            lemma_entries_nonzero(s, off + rl);
        }
    }
}

/// What enumerating a directory inode's entries out of a whole image
/// means: resolve the payload to a data range, cut that range out of the
/// image, enumerate it.
pub open spec fn spec_dir_entries(payload: Seq<u8>, contents: Seq<u8>, sb: Superblock) -> Result<
    Seq<SpecDirEntry>,
    Error,
> {
    match spec_data_range(payload, sb.block_size) {
        Err(e) => Err(e),
        Ok(range) => {
            if range.end() <= contents.len() {
                spec_entries_from(contents.subrange(range.offset as int, range.end()), 0)
            } else {
                Err(Error::Io { offset: range.offset, len: range.len })
            }
        },
    }
}

/// An enumeration agrees with its specification: the same entries in the
/// same order, or the same error.
pub open spec fn dir_result_matches(
    r: Result<Vec<DirectoryEntry>, Error>,
    s: Result<Seq<SpecDirEntry>, Error>,
) -> bool {
    match (r, s) {
        (Ok(v), Ok(es)) => entries_view(v@) == es,
        (Err(a), Err(b)) => a == b,
        _ => false,
    }
}

/// What looking one name up in a directory inode means.
pub open spec fn spec_child(
    payload: Seq<u8>,
    contents: Seq<u8>,
    sb: Superblock,
    name: Seq<u8>,
) -> Result<Option<InodeNumber>, Error> {
    match spec_dir_entries(payload, contents, sb) {
        Err(e) => Err(e),
        Ok(es) => Ok(spec_find_child(es, name)),
    }
}

impl Inode {
    /// Enumerate the directory entries held in this inode's data.
    ///
    /// Apart from a read failure of the source itself, the outcome is
    /// exactly `spec_dir_entries` of the payload and the image.
    pub fn dir_entries<S: ReadSource>(&self, sb: &Superblock, dev: &S) -> (r: Result<
        Vec<DirectoryEntry>,
        Error,
    >)
        requires
            self.wf(),
            sb.wf(),
        ensures
            (r matches Err(e) && e.is_io()) || dir_result_matches(
                r,
                spec_dir_entries(self.block@, dev.contents(), *sb),
            ),
            spec_data_range(self.block@, sb.block_size) matches Err(e) ==> r == Err::<
                Vec<DirectoryEntry>,
                Error,
            >(e),
            dev.infallible() ==> dir_result_matches(
                r,
                spec_dir_entries(self.block@, dev.contents(), *sb),
            ),
    {
        let range = match self.data(sb) {
            Ok(x) => x,
            Err(e) => {
                return Err(e);
            },
        };
        let data = match Reader::new(dev).vec(range.offset, range.len as usize) {
            Ok(d) => d,
            Err(e) => {
                return Err(e);
            },
        };
        decode_dir_entries(data.as_slice())
    }

    /// The inode number bound to `name` in this directory, or `None` when
    /// no entry bears the name (a normal outcome, not a failure).
    ///
    /// Apart from a read failure of the source itself, the outcome is
    /// exactly `spec_child` of the payload, the image and the name.
    pub fn child<S: ReadSource>(&self, name: &[u8], sb: &Superblock, dev: &S) -> (r: Result<
        Option<InodeNumber>,
        Error,
    >)
        requires
            self.wf(),
            sb.wf(),
        ensures
            (r matches Err(e) && e.is_io()) || r == spec_child(
                self.block@,
                dev.contents(),
                *sb,
                name@,
            ),
            spec_data_range(self.block@, sb.block_size) matches Err(e) ==> r == Err::<
                Option<InodeNumber>,
                Error,
            >(e),
            dev.infallible() ==> r == spec_child(self.block@, dev.contents(), *sb, name@),
    {
        let entries = match self.dir_entries(sb, dev) {
            Ok(es) => es,
            Err(e) => {
                return Err(e);
            },
        };
        Ok(find_child(&entries, name))
    }
}

/// The byte strings of a path's components.
pub open spec fn path_view(path: Seq<Vec<u8>>) -> Seq<Seq<u8>> {
    path.map_values(|v: Vec<u8>| v@)
}

/// What resolving the remaining `path` components starting at inode
/// `cur` means: decode the current inode, require it to be a directory,
/// look the next component up, recurse; an absent component resolves the
/// whole path to `None`.
pub open spec fn spec_resolve_from(
    contents: Seq<u8>,
    sb: Superblock,
    path: Seq<Seq<u8>>,
    cur: InodeNumber,
) -> Result<Option<InodeNumber>, Error>
    decreases path.len(),
{
    if path.len() == 0 {
        Ok(Some(cur))
    } else {
        match cur.spec_region(contents, sb) {
            Err(e) => Err(e),
            Ok(region) => {
                let mode = le16_at(region, 0x0) as u16;
                match spec_filetype_of_mode(mode) {
                    None => Err(Error::Format {
                        structure: Structure::Inode,
                        offset: 0,
                        expected: 0,
                        found: (mode & 0xF000) as u64,
                    }),
                    Some(ft) => {
                        if ft != Filetype::Directory {
                            Err(Error::NotDirectory { inode: cur.0 })
                        } else {
                            let payload = region.subrange(0x28, 0x28 + INODE_BLOCK_PAYLOAD_LEN);
                            match spec_child(payload, contents, sb, path[0]) {
                                Err(e) => Err(e),
                                Ok(None) => Ok(None),
                                Ok(Some(next)) => spec_resolve_from(
                                    contents,
                                    sb,
                                    path.drop_first(),
                                    next,
                                ),
                            }
                        }
                    },
                }
            },
        }
    }
}

/// What resolving a whole path from the root directory means.
pub open spec fn spec_resolve(contents: Seq<u8>, sb: Superblock, path: Seq<Seq<u8>>) -> Result<
    Option<InodeNumber>,
    Error,
> {
    spec_resolve_from(contents, sb, path, InodeNumber(ROOT_INODE))
}

/// Resolve a path, one component at a time, starting at the root
/// directory (inode 2).
///
/// `Ok(Some(n))` is the inode number the full path leads to;
/// `Ok(None)` means some component was absent from its directory.  Apart
/// from a read failure of the source itself, the outcome is exactly
/// `spec_resolve` of the image and the path.
pub fn resolve_path<S: ReadSource>(dev: &S, sb: &Superblock, path: &[Vec<u8>]) -> (r: Result<
    Option<InodeNumber>,
    Error,
>)
    requires
        sb.wf(),
    ensures
        (r matches Err(e) && e.is_io()) || r == spec_resolve(dev.contents(), *sb, path_view(path@)),
        r matches Ok(Some(n)) ==> n.wf(),
        path@.len() == 0 ==> r == Ok::<Option<InodeNumber>, Error>(Some(InodeNumber(ROOT_INODE))),
        dev.infallible() ==> r == spec_resolve(dev.contents(), *sb, path_view(path@)),
{
    let ghost full = spec_resolve(dev.contents(), *sb, path_view(path@));
    let n = path.len();
    let mut cur = InodeNumber(ROOT_INODE);
    let mut i: usize = 0;
    proof {
        assert(path_view(path@).skip(0) =~= path_view(path@));
    }
    while i < n
        invariant
            n == path@.len(),
            i <= n,
            sb.wf(),
            cur.wf(),
            full == spec_resolve(dev.contents(), *sb, path_view(path@)),
            full == spec_resolve_from(
                dev.contents(),
                *sb,
                path_view(path@).skip(i as int),
                cur,
            ),
        decreases n - i,
    {
        let ghost rest = path_view(path@).skip(i as int);
        let ino = match cur.inode(sb, dev) {
            Ok(x) => x,
            Err(e) => {
                return Err(e);
            },
        };
        let ft = match ino.filetype() {
            Ok(f) => f,
            Err(e) => {
                return Err(e);
            },
        };
        match ft {
            Filetype::Directory => {},
            _ => {
                return Err(Error::NotDirectory { inode: cur.0 });
            },
        }
        let next_opt = match ino.child(path[i].as_slice(), sb, dev) {
            Ok(o) => o,
            Err(e) => {
                return Err(e);
            },
        };
        proof {
            assert(rest[0] == path_view(path@)[i as int]);
        }
        let next = match next_opt {
            None => {
                return Ok(None);
            },
            Some(x) => x,
        };
        proof {
            let region = cur.spec_region(dev.contents(), *sb)->Ok_0;
            let payload = region.subrange(0x28, 0x28 + INODE_BLOCK_PAYLOAD_LEN);
            assert(ino.block@ == payload);
            if let Ok(es) = spec_dir_entries(payload, dev.contents(), *sb) {
                if let Ok(dr) = spec_data_range(payload, sb.block_size) {
                    lemma_entries_nonzero(
                        dev.contents().subrange(dr.offset as int, dr.end()),
                        0,
                    );
                }
                lemma_find_child_bound(es, rest[0]);
            }
            assert(rest.drop_first() =~= path_view(path@).skip(i + 1));
        }
        cur = next;
        i = i + 1;
    }
    proof {
        assert(path_view(path@).skip(n as int) =~= Seq::<Seq<u8>>::empty());
    }
    Ok(Some(cur))
}

} // verus!
