//! Archive packing and unpacking.
//!
//! A directory tree is represented as a list of entries, each a relative
//! path and the file's bytes.  Packing turns the entries into a
//! gzip-compressed tar stream; unpacking recovers the entries from such a
//! stream.  The application walks directories and writes files; this
//! module only transforms between entries and bytes.

use vstd::prelude::*;

verus! {

/// One file of a packed directory tree: a relative path and its contents.
#[derive(Clone, Debug)]
pub struct ArchiveEntry {
    pub path: Vec<u8>,
    pub data: Vec<u8>,
}

impl View for ArchiveEntry {
    type V = (Seq<u8>, Seq<u8>);

    open spec fn view(&self) -> (Seq<u8>, Seq<u8>) {
        (self.path@, self.data@)
    }
}

impl DeepView for ArchiveEntry {
    type V = (Seq<u8>, Seq<u8>);

    open spec fn deep_view(&self) -> (Seq<u8>, Seq<u8>) {
        self@
    }
}

/// A component boundary: position `j` is the end of the path or a `/`.
pub open spec fn spec_component_end(p: Seq<u8>, j: int) -> bool {
    j == p.len() || (0 <= j < p.len() && p[j] == 47)
}

/// Position `i` starts a path component.
pub open spec fn spec_component_start(p: Seq<u8>, i: int) -> bool {
    0 <= i < p.len() && (i == 0 || p[i - 1] == 47)
}

/// The component starting at `i` is `.` or `..`.
pub open spec fn spec_dots_component(p: Seq<u8>, i: int) -> bool {
    &&& 0 <= i < p.len()
    &&& p[i] == 46
    &&& (spec_component_end(p, i + 1) || (i + 1 < p.len() && p[i + 1] == 46 && spec_component_end(
        p,
        i + 2,
    )))
}

/// A plain relative path, stored in an archive exactly as written:
/// NUL-free UTF-8, relative, with no empty and no `.` or `..`
/// components.  Its length is unbounded: names beyond the tar header's
/// name field travel in a long-name record.
pub open spec fn spec_plain_path(p: Seq<u8>) -> bool {
    &&& 1 <= p.len()
    &&& vstd::utf8::valid_utf8(p)
    &&& (forall|i: int| 0 <= i < p.len() ==> (#[trigger] p[i]) != 0)
    &&& p[0] != 47
    &&& p[p.len() - 1] != 47
    &&& (forall|i: int| 0 <= i < p.len() - 1 ==> !(#[trigger] p[i] == 47 && p[i + 1] == 47))
    &&& (forall|i: int| #[trigger] spec_component_start(p, i) ==> !spec_dots_component(p, i))
}

/// Relies on str::from_utf8: it succeeds exactly on valid UTF-8.
#[verifier::external_body]
fn utf8_valid(v: &Vec<u8>) -> (r: bool)
    ensures
        r == vstd::utf8::valid_utf8(v@),
{
    std::str::from_utf8(v.as_slice()).is_ok()
}

/// All entries of a tree have plain paths.
pub open spec fn spec_entries_plain(es: Seq<(Seq<u8>, Seq<u8>)>) -> bool {
    forall|i: int| 0 <= i < es.len() ==> spec_plain_path((#[trigger] es[i]).0)
}

/// Checks that a path is plain: NUL-free UTF-8, relative, with no empty
/// and no `.` or `..` components.
pub fn is_plain_path(p: &Vec<u8>) -> (r: bool)
    ensures
        r == spec_plain_path(p@),
{
    let len = p.len();
    if len < 1 {
        return false;
    }
    if !utf8_valid(p) {
        return false;
    }
    if p[0] == 47 || p[len - 1] == 47 {
        return false;
    }
    let mut i: usize = 0;
    while i < len
        invariant
            0 <= i <= len,
            len == p@.len(),
            forall|k: int| 0 <= k < i ==> (#[trigger] p@[k]) != 0,
            forall|k: int| 0 <= k < i - 1 ==> !(#[trigger] p@[k] == 47 && p@[k + 1] == 47),
        decreases len - i,
    {
        let c = p[i];
        if c == 0 {
            return false;
        }
        if i > 0 && c == 47 && p[i - 1] == 47 {
            proof {
                assert(p@[i - 1] == 47 && p@[i - 1 + 1] == 47);
            }
            return false;
        }
        i = i + 1;
    }
    let mut j: usize = 0;
    while j < len
        invariant
            0 <= j <= len,
            len == p@.len(),
            forall|k: int|
                0 <= k < j && #[trigger] spec_component_start(p@, k) ==> !spec_dots_component(
                    p@,
                    k,
                ),
        decreases len - j,
    {
        let starts = j == 0 || p[j - 1] == 47;
        if starts && p[j] == 46 {
            let end1 = j + 1 == len || p[j + 1] == 47;
            if end1 {
                proof {
                    assert(spec_component_start(p@, j as int) && spec_dots_component(p@, j as int));
                }
                return false;
            }
            if p[j + 1] == 46 {
                let end2 = j + 2 == len || p[j + 2] == 47;
                if end2 {
                    proof {
                        assert(spec_component_start(p@, j as int) && spec_dots_component(
                            p@,
                            j as int,
                        ));
                    }
                    return false;
                }
            }
        }
        j = j + 1;
    }
    true
}

/// Checks that every entry of a tree has a plain path.
pub fn entries_are_plain(entries: &Vec<ArchiveEntry>) -> (r: bool)
    ensures
        r == spec_entries_plain(entries.deep_view()),
{
    let mut i: usize = 0;
    while i < entries.len()
        invariant
            0 <= i <= entries.len(),
            entries.deep_view().len() == entries@.len(),
            forall|k: int| 0 <= k < i ==> spec_plain_path((#[trigger] entries.deep_view()[k]).0),
        decreases entries.len() - i,
    {
        if !is_plain_path(&entries[i].path) {
            proof {
                assert(entries.deep_view()[i as int].0 == entries@[i as int].path@);
            }
            return false;
        }
        proof {
            assert(entries.deep_view()[i as int].0 == entries@[i as int].path@);
        }
        i = i + 1;
    }
    true
}

/// The bytes of the gzip-compressed tar stream holding the given entries,
/// in order; the encoding is a function of the entries alone, and two
/// distinct plain-path entry lists never encode to the same bytes.
pub uninterp spec fn spec_targz_of(es: Seq<(Seq<u8>, Seq<u8>)>) -> Seq<u8>;

/// An in-progress archive: a tar builder writing through a gzip encoder
/// into memory.  The type is opaque here; its contents are tracked by
/// [`spec_builder_entries`].
#[verifier::external_body]
pub struct ArchiveBuilder {
    inner: tar::Builder<flate2::write::GzEncoder<Vec<u8>>>,
}

/// The entries appended to a tar builder so far.
pub uninterp spec fn spec_builder_entries(b: ArchiveBuilder) -> Seq<(Seq<u8>, Seq<u8>)>;

/// Relies on tar::Builder::new and flate2's GzEncoder::new: a fresh
/// builder over an in-memory gzip encoder holds no entries.
#[verifier::external_body]
fn archive_builder_new() -> (b: ArchiveBuilder)
    ensures
        spec_builder_entries(b) == Seq::<(Seq<u8>, Seq<u8>)>::empty(),
{
    ArchiveBuilder {
        inner: tar::Builder::new(
            flate2::write::GzEncoder::new(Vec::new(), flate2::Compression::default()),
        ),
    }
}

/// Relies on tar::Builder::append_data: the entry, under the given plain
/// path and with the given contents, is appended after the entries
/// already written.  A plain path is stored verbatim — in the GNU
/// header's name field when it fits, through the long-name record
/// otherwise — and the writer underneath is an in-memory buffer, so the
/// call cannot fail on these inputs.
#[verifier::external_body]
fn archive_builder_append(b: &mut ArchiveBuilder, path: &Vec<u8>, data: &Vec<u8>)
    requires
        spec_plain_path(path@),
    ensures
        spec_builder_entries(*final(b)) == spec_builder_entries(*old(b)).push((path@, data@)),
{
    let mut header = tar::Header::new_gnu();
    header.set_size(data.len() as u64);
    header.set_mode(0o644);
    header.set_mtime(0);
    header.set_cksum();
    let path_str = std::str::from_utf8(path).unwrap();
    b.inner.append_data(&mut header, path_str, data.as_slice()).unwrap();
}

/// Relies on tar::Builder::into_inner and GzEncoder::finish: the finished
/// stream's bytes are a function of the appended entries alone.  Both
/// calls only flush into the in-memory buffer and cannot fail.
#[verifier::external_body]
fn archive_builder_finish(b: ArchiveBuilder) -> (r: Vec<u8>)
    ensures
        r@ == spec_targz_of(spec_builder_entries(b)),
{
    let encoder = b.inner.into_inner().unwrap();
    encoder.finish().unwrap()
}

/// The unpacking guarantee: whenever the input bytes are the packed form
/// of some plain-path entry list, the result is exactly that list.
pub open spec fn spec_unpack_recovers(bytes: Seq<u8>, r: Option<Vec<ArchiveEntry>>) -> bool {
    forall|es: Seq<(Seq<u8>, Seq<u8>)>|
        bytes == #[trigger] spec_targz_of(es) && spec_entries_plain(es) ==> (r matches Some(v)
            && v.deep_view() == es)
}

/// Relies on flate2's GzDecoder and tar::Archive: extracting a stream the
/// packer produced from plain-path entries recovers exactly those entries.
#[verifier::external_body]
fn targz_decode(bytes: &Vec<u8>) -> (r: Option<Vec<ArchiveEntry>>)
    ensures
        spec_unpack_recovers(bytes@, r),
{
    let decoder = flate2::read::GzDecoder::new(std::io::Cursor::new(bytes));
    let mut archive = tar::Archive::new(decoder);
    let mut out: Vec<ArchiveEntry> = Vec::new();
    for entry in archive.entries().ok()? {
        let mut entry = entry.ok()?;
        let path = entry.path_bytes().to_vec();
        let mut data = Vec::new();
        std::io::Read::read_to_end(&mut entry, &mut data).ok()?;
        out.push(ArchiveEntry { path, data });
    }
    Some(out)
}

/// Packs a directory tree into a gzip-compressed tar stream.  Packing
/// succeeds exactly when every entry has a plain path; the stream is then
/// the encoding of the entries.
pub fn pack_entries(entries: &Vec<ArchiveEntry>) -> (r: Option<Vec<u8>>)
    ensures
        (r is Some) == spec_entries_plain(entries.deep_view()),
        r matches Some(bytes) ==> bytes@ == spec_targz_of(entries.deep_view()),
{
    if !entries_are_plain(entries) {
        return None;
    }
    let mut b = archive_builder_new();
    let mut i: usize = 0;
    while i < entries.len()
        invariant
            0 <= i <= entries.len(),
            spec_entries_plain(entries.deep_view()),
            entries.deep_view().len() == entries@.len(),
            spec_builder_entries(b) == entries.deep_view().take(i as int),
        decreases entries.len() - i,
    {
        proof {
            assert(entries.deep_view()[i as int] == (entries@[i as int].path@,
            entries@[i as int].data@));
        }
        archive_builder_append(&mut b, &entries[i].path, &entries[i].data);
        proof {
            assert(entries.deep_view().take(i + 1) =~= entries.deep_view().take(i as int).push(
                entries.deep_view()[i as int],
            ));
        }
        i = i + 1;
    }
    proof {
        assert(entries.deep_view().take(entries@.len() as int) =~= entries.deep_view());
    }
    Some(archive_builder_finish(b))
}

/// Unpacks a gzip-compressed tar stream into the entries it holds.  For
/// any stream the packer produced from plain-path entries, exactly those
/// entries come back.
pub fn unpack_stream(bytes: &Vec<u8>) -> (r: Option<Vec<ArchiveEntry>>)
    ensures
        spec_unpack_recovers(bytes@, r),
{
    targz_decode(bytes)
}

/// Law: packing a directory tree and unpacking the resulting stream
/// reproduces the same set of relative paths with byte-identical
/// contents; for a tree of plain paths the round trip always succeeds.
pub fn pack_unpack_round_trip(entries: &Vec<ArchiveEntry>) -> (r: Option<Vec<ArchiveEntry>>)
    ensures
        r matches Some(v) ==> v.deep_view() == entries.deep_view(),
        spec_entries_plain(entries.deep_view()) ==> r is Some,
{
    match pack_entries(entries) {
        None => None,
        Some(bytes) => unpack_stream(&bytes),
    }
}

} // verus!
