//! Reading a package archive: its header with the declared content hash,
//! and the table of contents that says where its sections lie.
//!
//! An archive begins with a header of 115 bytes: the two magic bytes
//! `3b 3b`, the format version `01`, the 32 bytes of the declared hash, and
//! the table of contents. The table has five entries, for the manifest, the
//! licence, the icon, the container images and the instructions, in this
//! order. An entry is the position of the section in the archive and its
//! length, each as eight bytes with the highest first. The instructions are
//! optional: an entry of length zero, wherever it points, says that there
//! are none. The canonical bytes, over which the hash is taken, are all that
//! follow the header.

use crate::error::{Error, ErrorKind, ErrorView};
use crate::hash::{content_digest, hex_text, sha256_digest, to_hex};
use crate::text::bytes_equal;
use vstd::prelude::*;

verus! {

/// First magic byte of an archive.
pub const MAGIC_0: u8 = 0x3b;

/// Second magic byte of an archive.
pub const MAGIC_1: u8 = 0x3b;

/// The format version that this reader reads.
pub const FORMAT_VERSION: u8 = 1;

/// Where the declared hash begins in the header.
pub const HASH_START: usize = 3;

/// Where the table of contents begins in the header.
pub const TOC_START: usize = 35;

/// Length of one entry of the table of contents.
pub const TOC_ENTRY_LEN: usize = 16;

/// Length of the header.
pub const HEADER_LEN: usize = 115;

/// A section of an archive.
#[derive(Clone, Copy, Debug, PartialEq, Eq, Structural)]
pub enum Section {
    Manifest,
    License,
    Icon,
    DockerImages,
    Instructions,
}

/// Where a section lies in an archive.
#[derive(Clone, Copy, Debug, PartialEq, Eq, Structural)]
pub struct FileSection {
    pub position: u64,
    pub length: u64,
}

/// The table of contents of an archive.
#[derive(Clone, Copy, Debug, PartialEq, Eq, Structural)]
pub struct TableOfContents {
    pub manifest: FileSection,
    pub license: FileSection,
    pub icon: FileSection,
    pub docker_images: FileSection,
    pub instructions: FileSection,
}

/// An archive whose header has been read and whose hash has not been
/// checked yet.
#[derive(Debug)]
pub struct S9pkReader {
    /// The hash that the header declares.
    pub declared_hash: Vec<u8>,
    pub toc: TableOfContents,
    /// Length of the whole archive in bytes.
    pub size: u64,
}

/// The mathematical value of an [`S9pkReader`].
pub struct ReaderView {
    pub declared_hash: Seq<u8>,
    pub toc: TableOfContents,
    pub size: u64,
}

impl View for S9pkReader {
    type V = ReaderView;

    open spec fn view(&self) -> ReaderView {
        ReaderView { declared_hash: self.declared_hash@, toc: self.toc, size: self.size }
    }
}

/// An archive whose hash has been checked: its sections can be read.
#[derive(Debug)]
pub struct ValidatedReader {
    reader: S9pkReader,
    validated_bytes: u64,
}

impl View for ValidatedReader {
    type V = ReaderView;

    closed spec fn view(&self) -> ReaderView {
        self.reader@
    }
}

/// The number that bytes stand for, the highest byte first.
pub open spec fn be_value(bytes: Seq<u8>) -> nat
    decreases bytes.len(),
{
    if bytes.len() == 0 {
        0
    } else {
        be_value(bytes.drop_last()) * 256 + bytes.last() as nat
    }
}

/// The number in the eight bytes of a header from `at` on.
pub open spec fn number_at(header: Seq<u8>, at: int) -> nat {
    be_value(header.subrange(at, at + 8))
}

/// An entry of the table of contents in a header.
pub open spec fn entry_at(header: Seq<u8>, index: int) -> FileSection {
    FileSection {
        position: number_at(header, TOC_START + index * TOC_ENTRY_LEN) as u64,
        length: number_at(header, TOC_START + index * TOC_ENTRY_LEN + 8) as u64,
    }
}

/// The table of contents in a header.
pub open spec fn toc_of(header: Seq<u8>) -> TableOfContents {
    TableOfContents {
        manifest: entry_at(header, 0),
        license: entry_at(header, 1),
        icon: entry_at(header, 2),
        docker_images: entry_at(header, 3),
        instructions: entry_at(header, 4),
    }
}

/// Whether bytes begin as an archive does: with the magic bytes and the
/// format version.
pub open spec fn has_magic(header: Seq<u8>) -> bool {
    header.len() >= 3 && header[0] == MAGIC_0 && header[1] == MAGIC_1 && header[2]
        == FORMAT_VERSION
}

/// The error for bytes that do not begin as an archive does.
pub open spec fn bad_magic() -> ErrorView {
    ErrorView { kind: ErrorKind::InvalidArchive, message: "magic bytes do not match"@ }
}

/// The error for a header that ends before its table of contents does.
pub open spec fn truncated_toc() -> ErrorView {
    ErrorView { kind: ErrorKind::InvalidArchive, message: "table of contents is truncated"@ }
}

/// The error for a hash that is not the declared one.
pub open spec fn hash_mismatch() -> ErrorView {
    ErrorView {
        kind: ErrorKind::HashMismatch,
        message: "content hash is not the hash that the header declares"@,
    }
}

/// The error for a section that the archive does not hold.
pub open spec fn section_missing() -> ErrorView {
    ErrorView { kind: ErrorKind::SectionMissing, message: "section is missing"@ }
}

/// What reading a header gives: the declared hash and the table of
/// contents if the bytes begin with the magic bytes and hold the whole
/// header, and an error for an invalid archive if they do not.
pub open spec fn read_header(header: Seq<u8>, size: u64) -> Result<ReaderView, ErrorView> {
    if !has_magic(header) {
        Err(bad_magic())
    } else if header.len() < HEADER_LEN {
        Err(truncated_toc())
    } else {
        Ok(
            ReaderView {
                declared_hash: header.subrange(HASH_START as int, TOC_START as int),
                toc: toc_of(header),
                size,
            },
        )
    }
}

/// The views of an outcome and of what it is said to be are the same.
pub open spec fn same_outcome<T: View>(got: Result<T, Error>, said: Result<T::V, ErrorView>) -> bool {
    match got {
        Ok(value) => said == Ok::<T::V, ErrorView>(value@),
        Err(e) => said == Err::<T::V, ErrorView>(e@),
    }
}

fn shift_in(high: u64, low: u8) -> (value: u64)
    requires
        high < 0x100_0000_0000_0000,
    ensures
        value == high * 256 + low,
{
    high * 256 + low as u64
}

fn read_number(header: &[u8], at: usize) -> (value: u64)
    requires
        at + 8 <= header@.len(),
    ensures
        value == number_at(header@, at as int),
{
    let ghost s = header@.subrange(at as int, at + 8);
    proof {
        reveal_with_fuel(be_value, 9);
        let s7 = s.drop_last();
        let s6 = s7.drop_last();
        let s5 = s6.drop_last();
        let s4 = s5.drop_last();
        let s3 = s4.drop_last();
        let s2 = s3.drop_last();
        let s1 = s2.drop_last();
        assert(s1.drop_last().len() == 0);
        assert(s1.last() == header@[at as int]);
        assert(s2.last() == header@[at + 1]);
        assert(s3.last() == header@[at + 2]);
        assert(s4.last() == header@[at + 3]);
        assert(s5.last() == header@[at + 4]);
        assert(s6.last() == header@[at + 5]);
        assert(s7.last() == header@[at + 6]);
        assert(s.last() == header@[at + 7]);
    }
    let v1 = shift_in(0, header[at]);
    let v2 = shift_in(v1, header[at + 1]);
    let v3 = shift_in(v2, header[at + 2]);
    let v4 = shift_in(v3, header[at + 3]);
    let v5 = shift_in(v4, header[at + 4]);
    let v6 = shift_in(v5, header[at + 5]);
    let v7 = shift_in(v6, header[at + 6]);
    shift_in(v7, header[at + 7])
}

fn read_entry(header: &[u8], index: usize) -> (entry: FileSection)
    requires
        index < 5,
        header@.len() >= HEADER_LEN,
    ensures
        entry == entry_at(header@, index as int),
{
    let at = TOC_START + index * TOC_ENTRY_LEN;
    FileSection { position: read_number(header, at), length: read_number(header, at + 8) }
}

fn copy_range(bytes: &[u8], from: usize, to: usize) -> (copy: Vec<u8>)
    requires
        from <= to <= bytes@.len(),
    ensures
        copy@ == bytes@.subrange(from as int, to as int),
{
    let mut copy: Vec<u8> = Vec::new();
    let mut i: usize = from;
    while i < to
        invariant
            from <= i <= to <= bytes@.len(),
            copy@ == bytes@.subrange(from as int, i as int),
        decreases to - i,
    {
        copy.push(bytes[i]);
        assert(copy@ =~= bytes@.subrange(from as int, i + 1));
        i += 1;
    }
    copy
}

impl TableOfContents {
    /// The entry of a section.
    pub open spec fn entry_of(self, section: Section) -> FileSection {
        match section {
            Section::Manifest => self.manifest,
            Section::License => self.license,
            Section::Icon => self.icon,
            Section::DockerImages => self.docker_images,
            Section::Instructions => self.instructions,
        }
    }

    /// The entry of a section.
    pub fn entry(&self, section: Section) -> (entry: FileSection)
        ensures
            entry == self.entry_of(section),
    {
        match section {
            Section::Manifest => self.manifest,
            Section::License => self.license,
            Section::Icon => self.icon,
            Section::DockerImages => self.docker_images,
            Section::Instructions => self.instructions,
        }
    }
}

impl FileSection {
    /// Whether the entry says that the section is empty.
    pub open spec fn is_empty(self) -> bool {
        self.length == 0
    }

    /// Whether the section lies in an archive of the given size: it is not
    /// empty, begins behind the header and ends before the archive does.
    pub open spec fn lies_in(self, size: u64) -> bool {
        &&& self.length > 0
        &&& self.position >= HEADER_LEN
        &&& self.position + self.length <= size
    }
}

/// Where a section lies in an archive: nowhere if it is the instructions
/// and the table says that they are empty; where the table says, if that
/// lies in the archive; and otherwise the section is missing.
pub open spec fn located(r: ReaderView, section: Section) -> Result<Option<FileSection>, ErrorView> {
    let entry = r.toc.entry_of(section);
    if section is Instructions && entry.is_empty() {
        Ok(None)
    } else if entry.lies_in(r.size) {
        Ok(Some(entry))
    } else {
        Err(section_missing())
    }
}

impl S9pkReader {
    /// Reads the header of an archive. `header` holds the first bytes of
    /// the archive, at least [`HEADER_LEN`] of them if the archive is as
    /// long; `size` is the length of the whole archive.
    pub fn from_reader(header: &[u8], size: u64) -> (reader: Result<S9pkReader, Error>)
        ensures
            same_outcome(reader, read_header(header@, size)),
    {
        if header.len() < 3 || header[0] != MAGIC_0 || header[1] != MAGIC_1 || header[2]
            != FORMAT_VERSION {
            return Err(Error::new(ErrorKind::InvalidArchive, "magic bytes do not match"));
        }
        if header.len() < HEADER_LEN {
            return Err(Error::new(ErrorKind::InvalidArchive, "table of contents is truncated"));
        }
        let toc = TableOfContents {
            manifest: read_entry(header, 0),
            license: read_entry(header, 1),
            icon: read_entry(header, 2),
            docker_images: read_entry(header, 3),
            instructions: read_entry(header, 4),
        };
        Ok(S9pkReader { declared_hash: copy_range(header, HASH_START, TOC_START), toc, size })
    }

    /// The declared hash in lower-case hexadecimal.
    pub fn hash_str(&self) -> (text: String)
        ensures
            text@ == hex_text(self@.declared_hash),
    {
        to_hex(self.declared_hash.as_slice())
    }

    /// Judges a digest of the canonical bytes: the archive is valid if the
    /// digest is the declared hash, and fails with a hash mismatch if it is
    /// not. `total` is the number of bytes that were hashed.
    pub fn accept_digest(self, digest: &[u8], total: u64) -> (validated: Result<
        ValidatedReader,
        Error,
    >)
        ensures
            validated is Ok <==> digest@ == self@.declared_hash,
            validated matches Ok(v) ==> v@ == self@ && v.checked_bytes() == total,
            validated matches Err(e) ==> e@ == hash_mismatch(),
    {
        if bytes_equal(digest, self.declared_hash.as_slice()) {
            Ok(ValidatedReader { reader: self, validated_bytes: total })
        } else {
            Err(
                Error::new(
                    ErrorKind::HashMismatch,
                    "content hash is not the hash that the header declares",
                ),
            )
        }
    }

    /// Checks the hash of the archive over its canonical bytes. The reader
    /// is used up: an archive is validated once, and its sections can be
    /// read only after that.
    pub fn validate(self, canonical: &[u8]) -> (validated: Result<ValidatedReader, Error>)
        ensures
            validated is Ok <==> sha256_digest(canonical@) == self@.declared_hash,
            validated matches Ok(v) ==> v@ == self@ && v.checked_bytes() == canonical@.len(),
            validated matches Err(e) ==> e@ == hash_mismatch(),
    {
        let digest = content_digest(canonical);
        self.accept_digest(digest.as_slice(), canonical.len() as u64)
    }
}

impl ValidatedReader {
    /// Over how many bytes the hash was checked.
    pub closed spec fn checked_bytes(&self) -> u64 {
        self.validated_bytes
    }

    /// Over how many bytes the hash was checked.
    pub fn validated(&self) -> (total: u64)
        ensures
            total == self.checked_bytes(),
    {
        self.validated_bytes
    }

    /// The declared hash in lower-case hexadecimal.
    pub fn hash_str(&self) -> (text: String)
        ensures
            text@ == hex_text(self@.declared_hash),
    {
        self.reader.hash_str()
    }

    /// Where a section lies in the archive.
    pub fn section(&self, section: Section) -> (range: Result<Option<FileSection>, Error>)
        ensures
            match range {
                Ok(found) => located(self@, section) == Ok::<Option<FileSection>, ErrorView>(found),
                Err(e) => located(self@, section) == Err::<Option<FileSection>, ErrorView>(e@),
            },
    {
        let entry = self.reader.toc.entry(section);
        let is_instructions = match section {
            Section::Instructions => true,
            _ => false,
        };
        if is_instructions && entry.length == 0 {
            return Ok(None);
        }
        let end = entry.position.checked_add(entry.length);
        let lies_in = match end {
            Some(end) => entry.length > 0 && entry.position >= HEADER_LEN as u64 && end
                <= self.reader.size,
            None => false,
        };
        if lies_in {
            Ok(Some(entry))
        } else {
            Err(Error::new(ErrorKind::SectionMissing, "section is missing"))
        }
    }

    /// Where the manifest lies.
    pub fn manifest(&self) -> (range: Result<FileSection, Error>)
        ensures
            match range {
                Ok(found) => located(self@, Section::Manifest) == Ok::<
                    Option<FileSection>,
                    ErrorView,
                >(Some(found)),
                Err(e) => located(self@, Section::Manifest) == Err::<
                    Option<FileSection>,
                    ErrorView,
                >(e@),
            },
    {
        self.required(Section::Manifest)
    }

    /// Where the licence lies.
    pub fn license(&self) -> (range: Result<FileSection, Error>)
        ensures
            match range {
                Ok(found) => located(self@, Section::License) == Ok::<
                    Option<FileSection>,
                    ErrorView,
                >(Some(found)),
                Err(e) => located(self@, Section::License) == Err::<Option<FileSection>, ErrorView>(
                    e@,
                ),
            },
    {
        self.required(Section::License)
    }

    /// Where the icon lies.
    pub fn icon(&self) -> (range: Result<FileSection, Error>)
        ensures
            match range {
                Ok(found) => located(self@, Section::Icon) == Ok::<Option<FileSection>, ErrorView>(
                    Some(found),
                ),
                Err(e) => located(self@, Section::Icon) == Err::<Option<FileSection>, ErrorView>(
                    e@,
                ),
            },
    {
        self.required(Section::Icon)
    }

    /// Where the container images lie.
    pub fn docker_images(&self) -> (range: Result<FileSection, Error>)
        ensures
            match range {
                Ok(found) => located(self@, Section::DockerImages) == Ok::<
                    Option<FileSection>,
                    ErrorView,
                >(Some(found)),
                Err(e) => located(self@, Section::DockerImages) == Err::<
                    Option<FileSection>,
                    ErrorView,
                >(e@),
            },
    {
        self.required(Section::DockerImages)
    }

    /// Where the instructions lie, if the archive has some.
    pub fn instructions(&self) -> (range: Result<Option<FileSection>, Error>)
        ensures
            match range {
                Ok(found) => located(self@, Section::Instructions) == Ok::<
                    Option<FileSection>,
                    ErrorView,
                >(found),
                Err(e) => located(self@, Section::Instructions) == Err::<
                    Option<FileSection>,
                    ErrorView,
                >(e@),
            },
    {
        self.section(Section::Instructions)
    }

    fn required(&self, section: Section) -> (range: Result<FileSection, Error>)
        requires
            !(section is Instructions),
        ensures
            match range {
                Ok(found) => located(self@, section) == Ok::<Option<FileSection>, ErrorView>(
                    Some(found),
                ),
                Err(e) => located(self@, section) == Err::<Option<FileSection>, ErrorView>(e@),
            },
    {
        match self.section(section) {
            Ok(Some(found)) => Ok(found),
            Ok(None) => Err(Error::new(ErrorKind::SectionMissing, "section is missing")),
            Err(e) => Err(e),
        }
    }
}

/// Empty instructions are no instructions: whatever position the table
/// gives for them, and however long the archive is, an entry of length zero
/// is answered with "none" and never with an error.
pub proof fn law_empty_instructions_are_none(r: ReaderView)
    requires
        r.toc.instructions.length == 0,
    ensures
        located(r, Section::Instructions) == Ok::<Option<FileSection>, ErrorView>(None),
{
}

/// The declared hash of an archive lies in its bytes: two archives that
/// begin with the same header declare the same hash, so that an archive
/// read back from wherever its bytes were written declares the hash that it
/// declared before.
pub proof fn law_declared_hash_survives_copy(written: Seq<u8>, read_back: Seq<u8>, size: u64)
    requires
        written.len() >= HEADER_LEN,
        read_back.len() >= HEADER_LEN,
        read_back.subrange(0, HEADER_LEN as int) == written.subrange(0, HEADER_LEN as int),
    ensures
        read_header(written, size) is Ok == read_header(read_back, size) is Ok,
        read_header(written, size) matches Ok(a) ==> read_header(read_back, size) matches Ok(b)
            && hex_text(a.declared_hash) == hex_text(b.declared_hash) && a.toc == b.toc,
{
    let a = written.subrange(0, HEADER_LEN as int);
    let b = read_back.subrange(0, HEADER_LEN as int);
    assert forall|i: int| 0 <= i < HEADER_LEN implies written[i] == read_back[i] by {
        assert(a[i] == written[i]);
        assert(b[i] == read_back[i]);
    }
    assert(written.subrange(HASH_START as int, TOC_START as int) =~= read_back.subrange(
        HASH_START as int,
        TOC_START as int,
    ));
    assert forall|at: int| 0 <= at && at + 8 <= HEADER_LEN implies number_at(written, at)
        == number_at(read_back, at) by {
        assert(written.subrange(at, at + 8) =~= read_back.subrange(at, at + 8));
    }
}

} // verus!
