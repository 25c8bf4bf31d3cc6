//! Locating the free virtual address of a PE stub, and planning the sections
//! that are added to it.

use sha2::Digest;
use vstd::prelude::*;

verus! {

#[verifier::external_type_specification]
#[verifier::external_body]
pub struct ExGoblinError(goblin::error::Error);

/// What goblin reads from a PE image: `None` where it does not parse, else the
/// image base (where the optional header is present) and the virtual address
/// and virtual size of each section, in section table order.
pub uninterp spec fn pe_headers_of(binary: Seq<u8>) -> Option<(Option<u64>, Seq<(u32, u32)>)>;

/// The parts of a PE image's headers that placing new sections depends on.
pub struct PeHeaders {
    /// The preferred load address, from the optional header where there is one.
    pub image_base: Option<u64>,
    /// Each section's `(virtual_address, virtual_size)`, in table order.
    pub sections: Vec<(u32, u32)>,
}

impl View for PeHeaders {
    type V = (Option<u64>, Seq<(u32, u32)>);

    open spec fn view(&self) -> Self::V {
        (self.image_base, self.sections@)
    }
}

/// Why no free offset could be computed for a stub.
#[derive(Debug, Clone, Copy, PartialEq, Eq)]
pub enum StubError {
    /// The bytes are not a valid PE image.
    Parse,
    /// The image has no optional header, so no image base.
    MissingOptionalHeader,
    /// The image has an empty section table.
    NoSections,
    /// The free offset does not fit in 64 bits.
    OffsetOverflow,
}

/// The first virtual address after the last section of an image with the
/// given headers: image base plus the last section's address and size.
pub open spec fn free_offset_of(headers: (Option<u64>, Seq<(u32, u32)>)) -> Result<u64, StubError> {
    match headers.0 {
        None => Err(StubError::MissingOptionalHeader),
        Some(base) => if headers.1.len() == 0 {
            Err(StubError::NoSections)
        } else {
            let end = base + headers.1.last().0 + headers.1.last().1;
            if end <= u64::MAX {
                Ok(end as u64)
            } else {
                Err(StubError::OffsetOverflow)
            }
        },
    }
}

/// The free offset of the PE image held in `binary`.
pub open spec fn stub_offset_of(binary: Seq<u8>) -> Result<u64, StubError> {
    match pe_headers_of(binary) {
        None => Err(StubError::Parse),
        Some(headers) => free_offset_of(headers),
    }
}

/// Relies on goblin::pe::PE::parse, which reads the headers and section table
/// of a PE image from its bytes alone; only the image base and the sections'
/// virtual addresses and sizes are kept.
#[verifier::external_body]
fn parse_pe(binary: &[u8]) -> (r: Result<PeHeaders, goblin::error::Error>)
    ensures
        match r {
            Ok(h) => pe_headers_of(binary@) == Some(h@),
            Err(_) => pe_headers_of(binary@) is None,
        },
{
    goblin::pe::PE::parse(binary).map(
        |pe| PeHeaders {
            image_base: pe.header.optional_header.map(|h| h.windows_fields.image_base),
            sections: pe.sections.iter().map(|s| (s.virtual_address, s.virtual_size)).collect(),
        },
    )
}

/// The first free virtual address after the sections of an image with these
/// headers.
pub fn free_offset(headers: &PeHeaders) -> (r: Result<u64, StubError>)
    ensures
        r == free_offset_of(headers@),
{
    let image_base = match headers.image_base {
        Some(b) => b,
        None => return Err(StubError::MissingOptionalHeader),
    };
    let n = headers.sections.len();
    if n == 0 {
        return Err(StubError::NoSections);
    }
    let (virtual_address, virtual_size) = headers.sections[n - 1];
    let end = virtual_address as u64 + virtual_size as u64;
    if image_base > u64::MAX - end {
        return Err(StubError::OffsetOverflow);
    }
    Ok(image_base + end)
}

/// The first free virtual address after the sections of the PE stub whose
/// bytes are `binary`; the image base is included.
pub fn stub_offset(binary: &[u8]) -> (r: Result<u64, StubError>)
    ensures
        r == stub_offset_of(binary@),
{
    match parse_pe(binary) {
        Ok(headers) => free_offset(&headers),
        Err(_) => Err(StubError::Parse),
    }
}

/// The total size of the first `k` contents.
pub open spec fn size_sum(sizes: Seq<u64>, k: int) -> int
    decreases k,
{
    if k <= 0 || sizes.len() < k {
        0
    } else {
        size_sum(sizes, k - 1) + sizes[k - 1]
    }
}

/// Where the `i`-th of the contents with these sizes starts, laid out one
/// after the other from `base`.
pub open spec fn planned_offset(base: u64, sizes: Seq<u64>, i: int) -> int {
    base + size_sum(sizes, i)
}

/// Whether every planned offset fits in 64 bits: that of the last content is
/// the largest.
pub open spec fn plan_fits(base: u64, sizes: Seq<u64>) -> bool {
    sizes.len() == 0 || planned_offset(base, sizes, sizes.len() - 1) <= u64::MAX
}

proof fn lemma_size_sum_monotonic(sizes: Seq<u64>, j: int, k: int)
    requires
        0 <= j <= k <= sizes.len(),
    ensures
        size_sum(sizes, j) <= size_sum(sizes, k),
    decreases k - j,
{
    if j < k {
        lemma_size_sum_monotonic(sizes, j, k - 1);
    }
}

/// Contents laid out one after the other: the first starts at the base, and
/// each next one right where the one before it ends, with no gap and no
/// overlap.
pub proof fn lemma_planned_offsets_adjacent(base: u64, sizes: Seq<u64>)
    ensures
        planned_offset(base, sizes, 0) == base,
        forall|i: int|
            0 <= i < sizes.len() ==> #[trigger] planned_offset(base, sizes, i + 1) == planned_offset(
                base,
                sizes,
                i,
            ) + sizes[i],
{
}

/// A section to add to a PE image: its name, the file holding its bytes and
/// its virtual address.
pub struct Section {
    pub name: String,
    pub file_path: String,
    pub offset: u64,
}

impl View for Section {
    type V = (Seq<char>, Seq<char>, u64);

    open spec fn view(&self) -> Self::V {
        (self.name@, self.file_path@, self.offset)
    }
}

/// A section's content before placement: its name, the file holding its
/// bytes and that file's size.
pub struct SectionSource {
    pub name: String,
    pub file_path: String,
    pub size: u64,
}

impl View for SectionSource {
    type V = (Seq<char>, Seq<char>, u64);

    open spec fn view(&self) -> Self::V {
        (self.name@, self.file_path@, self.size)
    }
}

/// The sizes of the given sources, in order.
pub open spec fn sizes_of(sources: Seq<SectionSource>) -> Seq<u64> {
    sources.map_values(|c: SectionSource| c.size)
}

/// Build a section.
pub fn s(name: &str, file_path: &str, offset: u64) -> (r: Section)
    ensures
        r@ == (name@, file_path@, offset),
{
    Section { name: String::from_str(name), file_path: String::from_str(file_path), offset }
}

/// Place the sources one after the other from `base`, in the given order;
/// `None` where an offset would not fit in 64 bits.
pub fn plan_sections(base: u64, sources: &Vec<SectionSource>) -> (r: Option<Vec<Section>>)
    ensures
        r is Some <==> plan_fits(base, sizes_of(sources@)),
        r matches Some(v) ==> v@.len() == sources@.len() && forall|i: int|
            0 <= i < v@.len() ==> (#[trigger] v@[i]).name@ == sources@[i].name@
                && v@[i].file_path@ == sources@[i].file_path@ && v@[i].offset == planned_offset(
                base,
                sizes_of(sources@),
                i,
            ),
{
    let ghost sizes = sizes_of(sources@);
    let n = sources.len();
    let mut out: Vec<Section> = Vec::new();
    let mut offset: u64 = base;
    let mut i: usize = 0;
    while i < n
        invariant
            n == sources@.len(),
            sizes == sizes_of(sources@),
            i <= n,
            i < n ==> offset == planned_offset(base, sizes, i as int),
            i == n && n > 0 ==> planned_offset(base, sizes, n - 1) <= u64::MAX,
            out@.len() == i,
            forall|j: int|
                0 <= j < i ==> (#[trigger] out@[j]).name@ == sources@[j].name@
                    && out@[j].file_path@ == sources@[j].file_path@ && out@[j].offset
                    == planned_offset(base, sizes, j),
        decreases n - i,
    {
        let src = &sources[i];
        assert(sizes[i as int] == src.size);
        out.push(s(src.name.as_str(), src.file_path.as_str(), offset));
        if i + 1 < n {
            if offset > u64::MAX - src.size {
                proof {
                    lemma_size_sum_monotonic(sizes, i + 1, n - 1);
                }
                return None;
            }
            offset = offset + src.size;
        }
        i = i + 1;
    }
    Some(out)
}

/// The lower-case hexadecimal digits of `n`, most significant first, without
/// leading zeros (a single `0` for zero).
pub open spec fn hex_digits(n: nat) -> Seq<char>
    decreases n,
{
    if n < 16 {
        seq!["0123456789abcdef"@[n as int]]
    } else {
        hex_digits(n / 16).push("0123456789abcdef"@[(n % 16) as int])
    }
}

/// `n` written in hexadecimal with a `0x` prefix.
pub open spec fn hex_of(n: u64) -> Seq<char> {
    "0x"@ + hex_digits(n as nat)
}

fn push_hex_digits(out: &mut String, n: u64)
    ensures
        final(out)@ == old(out)@ + hex_digits(n as nat),
    decreases n,
{
    let digits = "0123456789abcdef";
    proof {
        reveal_strlit("0123456789abcdef");
    }
    if n >= 16 {
        push_hex_digits(out, n / 16);
    }
    let d = (n % 16) as usize;
    out.append(digits.substring_char(d, d + 1));
    assert(digits@.subrange(d as int, d + 1) =~= seq![digits@[d as int]]);
    if n >= 16 {
        assert(hex_digits(n as nat) =~= hex_digits((n / 16) as nat) + seq![digits@[d as int]]);
    }
}

/// `n` written in hexadecimal with a `0x` prefix, as `{:#x}` does.
pub fn hex(n: u64) -> (r: String)
    ensures
        r@ == hex_of(n),
{
    let mut out = String::from_str("0x");
    proof {
        reveal_strlit("0x");
    }
    push_hex_digits(&mut out, n);
    out
}

/// The objcopy arguments that attach one section: add it from its file, then
/// move it to its virtual address.
pub open spec fn section_args(sec: (Seq<char>, Seq<char>, u64)) -> Seq<Seq<char>> {
    seq![
        "--add-section"@,
        sec.0 + "="@ + sec.1,
        "--change-section-vma"@,
        sec.0 + "="@ + hex_of(sec.2),
    ]
}

/// The objcopy arguments that attach all of `sections`, in order.
pub open spec fn all_section_args(sections: Seq<(Seq<char>, Seq<char>, u64)>) -> Seq<Seq<char>>
    decreases sections.len(),
{
    if sections.len() == 0 {
        Seq::empty()
    } else {
        all_section_args(sections.drop_last()) + section_args(sections.last())
    }
}

/// The objcopy command line that copies `stub` to `output` with `sections`
/// attached.
pub open spec fn objcopy_args_of(
    stub: Seq<char>,
    sections: Seq<(Seq<char>, Seq<char>, u64)>,
    output: Seq<char>,
) -> Seq<Seq<char>> {
    all_section_args(sections) + seq![stub, output]
}

/// The texts of the given strings.
pub open spec fn texts(v: Seq<String>) -> Seq<Seq<char>> {
    v.map_values(|a: String| a@)
}

fn concat3(a: &str, b: &str, c: &str) -> (r: String)
    ensures
        r@ == a@ + b@ + c@,
{
    let mut r = String::from_str(a);
    r.append(b);
    r.append(c);
    r
}

impl Section {
    /// The objcopy arguments that attach this section to a PE file.
    pub fn to_objcopy(&self) -> (r: Vec<String>)
        ensures
            texts(r@) == section_args(self@),
    {
        proof {
            reveal_strlit("=");
        }
        let offset = hex(self.offset);
        let r = vec![
            String::from_str("--add-section"),
            concat3(self.name.as_str(), "=", self.file_path.as_str()),
            String::from_str("--change-section-vma"),
            concat3(self.name.as_str(), "=", offset.as_str()),
        ];
        assert(texts(r@) =~= section_args(self@));
        r
    }
}

/// The objcopy command line that copies `stub` to `output` with `sections`
/// attached.
pub fn objcopy_args(stub: &str, sections: &Vec<Section>, output: &str) -> (r: Vec<String>)
    ensures
        texts(r@) == objcopy_args_of(stub@, sections@.map_values(|x: Section| x@), output@),
{
    let ghost views = sections@.map_values(|x: Section| x@);
    let mut args: Vec<String> = Vec::new();
    let mut i: usize = 0;
    while i < sections.len()
        invariant
            views == sections@.map_values(|x: Section| x@),
            i <= sections@.len(),
            texts(args@) == all_section_args(views.subrange(0, i as int)),
        decreases sections@.len() - i,
    {
        let mut more = sections[i].to_objcopy();
        let ghost before = args@;
        args.append(&mut more);
        assert(views.subrange(0, i + 1).drop_last() =~= views.subrange(0, i as int));
        assert(texts(args@) =~= texts(before) + section_args(views[i as int]));
        i = i + 1;
    }
    assert(views.subrange(0, sections@.len() as int) =~= views);
    let ghost before = args@;
    args.push(String::from_str(stub));
    args.push(String::from_str(output));
    assert(texts(args@) =~= texts(before) + seq![stub@, output@]);
    args
}

/// The SHA-256 digest of `data`.
pub uninterp spec fn sha256_of(data: Seq<u8>) -> Seq<u8>;

/// Relies on sha2::Sha256::digest: the 32-byte SHA-256 digest of the bytes,
/// which depends on them alone.
#[verifier::external_body]
fn sha256(data: &[u8]) -> (r: Vec<u8>)
    ensures
        r@ == sha256_of(data@),
        r@.len() == 32,
{
    sha2::Sha256::digest(data).to_vec()
}

/// A digest depends on the contents alone: the digests of equal contents,
/// however often they are computed, are equal.
pub proof fn lemma_digest_deterministic(a: Seq<u8>, b: Seq<u8>, da: Vec<u8>, db: Vec<u8>)
    requires
        a == b,
        da@ == sha256_of(a),
        db@ == sha256_of(b),
    ensures
        da@ == db@,
{
}

/// The SHA-256 digest of a file's contents.
pub fn file_hash(contents: &[u8]) -> (r: Vec<u8>)
    ensures
        r@ == sha256_of(contents@),
        r@.len() == 32,
{
    sha256(contents)
}

/// The words joined with single spaces between them.
pub open spec fn join_words(words: Seq<Seq<char>>) -> Seq<char>
    decreases words.len(),
{
    if words.len() == 0 {
        Seq::empty()
    } else if words.len() == 1 {
        words[0]
    } else {
        join_words(words.drop_last()) + " "@ + words.last()
    }
}

/// The kernel command line as one text: its parts joined by single spaces.
pub fn kernel_cmdline_text(parts: &Vec<String>) -> (r: String)
    ensures
        r@ == join_words(texts(parts@)),
{
    proof {
        reveal_strlit(" ");
    }
    let mut out = String::new();
    let mut i: usize = 0;
    while i < parts.len()
        invariant
            i <= parts@.len(),
            out@ == join_words(texts(parts@.subrange(0, i as int))),
        decreases parts@.len() - i,
    {
        if i > 0 {
            out.append(" ");
        }
        out.append(parts[i].as_str());
        assert(texts(parts@.subrange(0, i + 1)).drop_last() =~= texts(parts@.subrange(0, i as int)));
        assert(texts(parts@.subrange(0, 1)) =~= seq![parts@[0]@]);
        i = i + 1;
    }
    assert(parts@.subrange(0, parts@.len() as int) =~= parts@);
    out
}

/// A file whose bytes become a section, with its size on disk.
pub struct SectionFile {
    pub path: String,
    pub size: u64,
}

/// The files whose bytes are attached to a stub, one per section.
pub struct StubContents {
    /// The os-release file.
    pub os_release: SectionFile,
    /// The kernel command line, joined by spaces.
    pub kernel_cmdline: SectionFile,
    /// The initrd's UEFI path.
    pub initrd_path: SectionFile,
    /// The kernel's UEFI path.
    pub kernel_path: SectionFile,
    /// The initrd's digest.
    pub initrd_hash: SectionFile,
    /// The kernel's digest.
    pub kernel_hash: SectionFile,
}

/// The names of the sections attached to a stub, in the order in which they
/// are placed.
pub open spec fn stub_section_names() -> Seq<Seq<char>> {
    seq![".osrel"@, ".cmdline"@, ".initrdp"@, ".kernelp"@, ".initrdh"@, ".kernelh"@]
}

impl StubContents {
    /// The files in placement order.
    pub open spec fn files(&self) -> Seq<&SectionFile> {
        seq![
            &self.os_release,
            &self.kernel_cmdline,
            &self.initrd_path,
            &self.kernel_path,
            &self.initrd_hash,
            &self.kernel_hash,
        ]
    }

    /// The sizes of the files in placement order.
    pub open spec fn sizes(&self) -> Seq<u64> {
        self.files().map_values(|f: &SectionFile| f.size)
    }
}

fn source(name: &str, file: &SectionFile) -> (r: SectionSource)
    ensures
        r@ == (name@, file.path@, file.size),
{
    SectionSource { name: String::from_str(name), file_path: file.path.clone(), size: file.size }
}

/// Plan the sections attached to a stub whose first free virtual address is
/// `free_offset`: os-release, command line, initrd path, kernel path, initrd
/// digest and kernel digest, one after the other; `None` where an offset
/// would not fit in 64 bits.
pub fn lanzaboote_sections(free_offset: u64, contents: &StubContents) -> (r: Option<Vec<Section>>)
    ensures
        r is Some <==> plan_fits(free_offset, contents.sizes()),
        r matches Some(v) ==> v@.len() == 6 && forall|i: int|
            0 <= i < 6 ==> (#[trigger] v@[i]).name@ == stub_section_names()[i]
                && v@[i].file_path@ == contents.files()[i].path@ && v@[i].offset
                == planned_offset(free_offset, contents.sizes(), i),
{
    let sources = vec![
        source(".osrel", &contents.os_release),
        source(".cmdline", &contents.kernel_cmdline),
        source(".initrdp", &contents.initrd_path),
        source(".kernelp", &contents.kernel_path),
        source(".initrdh", &contents.initrd_hash),
        source(".kernelh", &contents.kernel_hash),
    ];
    assert(sizes_of(sources@) =~= contents.sizes());
    plan_sections(free_offset, &sources)
}

} // verus!
