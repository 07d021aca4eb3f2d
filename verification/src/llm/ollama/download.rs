//! Choosing and unpacking the Ollama release for a platform.

use vstd::prelude::*;
use crate::llm::LlmError;

verus! {

/// Operating systems the library distinguishes.
#[derive(Debug, Clone, Copy, PartialEq, Eq, Structural)]
pub enum TargetOs {
    MacOs,
    Linux,
    Windows,
    /// Another Unix-like system.
    OtherUnix,
    /// Any other system.
    Other,
}

/// Processor architectures the library distinguishes.
#[derive(Debug, Clone, Copy, PartialEq, Eq, Structural)]
pub enum TargetArch {
    X86_64,
    Aarch64,
    Other,
}

/// Archive formats of Ollama releases.
#[derive(Debug, Clone, Copy, PartialEq, Eq, Structural)]
pub enum ArchiveType {
    TarGz,
    TarZst,
    Zip,
}

/// Whether a system is Unix-like.
pub open spec fn is_unix(os: TargetOs) -> bool {
    os is MacOs || os is Linux || os is OtherUnix
}

/// The release to download for a platform, if there is one.
pub open spec fn download_target(os: TargetOs, arch: TargetArch) -> Option<(Seq<char>, ArchiveType)> {
    match (os, arch) {
        (TargetOs::MacOs, _) => Some(("https://ollama.com/download/ollama-darwin.tgz"@, ArchiveType::TarGz)),
        (TargetOs::Linux, TargetArch::X86_64) => Some(("https://ollama.com/download/ollama-linux-amd64.tar.zst"@, ArchiveType::TarZst)),
        (TargetOs::Linux, TargetArch::Aarch64) => Some(("https://ollama.com/download/ollama-linux-arm64.tar.zst"@, ArchiveType::TarZst)),
        (TargetOs::Windows, TargetArch::X86_64) => Some(("https://ollama.com/download/ollama-windows-amd64.zip"@, ArchiveType::Zip)),
        (TargetOs::Windows, TargetArch::Aarch64) => Some(("https://ollama.com/download/ollama-windows-arm64.zip"@, ArchiveType::Zip)),
        _ => None,
    }
}

/// The download address and archive format of the Ollama release for a
/// platform; `None` where no release is published.
pub fn platform_download_url(os: TargetOs, arch: TargetArch) -> (r: Option<(&'static str, ArchiveType)>)
    ensures
        match r {
            Some((url, kind)) => download_target(os, arch) == Some((url@, kind)),
            None => download_target(os, arch) is None,
        },
{
    match (os, arch) {
        (TargetOs::MacOs, _) => Some(("https://ollama.com/download/ollama-darwin.tgz", ArchiveType::TarGz)),
        (TargetOs::Linux, TargetArch::X86_64) => Some(("https://ollama.com/download/ollama-linux-amd64.tar.zst", ArchiveType::TarZst)),
        (TargetOs::Linux, TargetArch::Aarch64) => Some(("https://ollama.com/download/ollama-linux-arm64.tar.zst", ArchiveType::TarZst)),
        (TargetOs::Windows, TargetArch::X86_64) => Some(("https://ollama.com/download/ollama-windows-amd64.zip", ArchiveType::Zip)),
        (TargetOs::Windows, TargetArch::Aarch64) => Some(("https://ollama.com/download/ollama-windows-arm64.zip", ArchiveType::Zip)),
        _ => None,
    }
}

/// The error when no release is published for the platform.
pub fn no_release_for_platform() -> (r: LlmError)
    ensures
        r matches LlmError::DownloadError(m) && m@ == "no Ollama release for this platform"@,
{
    LlmError::DownloadError("no Ollama release for this platform".to_owned())
}

/// Whether an archive format can be unpacked on a system: gzip tarballs
/// everywhere, zstd tarballs on Linux only, zip archives on Windows only.
pub open spec fn unpackable(os: TargetOs, kind: ArchiveType) -> bool {
    match kind {
        ArchiveType::TarGz => true,
        ArchiveType::TarZst => os is Linux,
        ArchiveType::Zip => os is Windows,
    }
}

/// The message when an archive format cannot be unpacked on this system
/// (a gzip tarball never is refused).
pub open spec fn refusal_text(kind: ArchiveType) -> Seq<char> {
    match kind {
        ArchiveType::TarZst => "tar.zst extraction only supported on Linux"@,
        ArchiveType::Zip => "Zip extraction only supported on Windows"@,
        ArchiveType::TarGz => Seq::empty(),
    }
}

/// Checks that an archive format can be unpacked on a system, with the
/// error that explains why not.
pub fn check_unpackable(os: TargetOs, kind: ArchiveType) -> (r: Result<(), LlmError>)
    ensures
        r is Ok <==> unpackable(os, kind),
        r matches Err(e) ==> (e matches LlmError::DownloadError(m) && m@ == refusal_text(kind)),
{
    match kind {
        ArchiveType::TarGz => Ok(()),
        ArchiveType::TarZst => if os == TargetOs::Linux {
            Ok(())
        } else {
            Err(LlmError::DownloadError("tar.zst extraction only supported on Linux".to_owned()))
        },
        ArchiveType::Zip => if os == TargetOs::Windows {
            Ok(())
        } else {
            Err(LlmError::DownloadError("Zip extraction only supported on Windows".to_owned()))
        },
    }
}

/// The file name of the server binary inside an archive.
pub open spec fn binary_entry_name(kind: ArchiveType) -> Seq<char> {
    match kind {
        ArchiveType::Zip => "ollama.exe"@,
        _ => "ollama"@,
    }
}

/// The file name of the server binary inside an archive of this format.
pub fn archived_binary_name(kind: ArchiveType) -> (r: &'static str)
    ensures
        r@ == binary_entry_name(kind),
{
    match kind {
        ArchiveType::Zip => "ollama.exe",
        _ => "ollama",
    }
}

/// Whether an archive entry, by the file name of its path, is the server
/// binary. An entry whose path has no file name is not.
pub fn is_archived_binary(file_name: Option<&str>, kind: ArchiveType) -> (r: bool)
    ensures
        r == (file_name matches Some(n) && n@ == binary_entry_name(kind)),
{
    match file_name {
        Some(n) => n.to_owned() == archived_binary_name(kind).to_owned(),
        None => false,
    }
}

/// The message when an archive holds no server binary.
pub open spec fn missing_binary_text(kind: ArchiveType) -> Seq<char> {
    match kind {
        ArchiveType::Zip => "ollama.exe not found in archive"@,
        _ => "Ollama binary not found in archive"@,
    }
}

/// The error when an archive holds no server binary.
pub fn binary_missing(kind: ArchiveType) -> (r: LlmError)
    ensures
        r matches LlmError::DownloadError(m) && m@ == missing_binary_text(kind),
{
    match kind {
        ArchiveType::Zip => LlmError::DownloadError("ollama.exe not found in archive".to_owned()),
        _ => LlmError::DownloadError("Ollama binary not found in archive".to_owned()),
    }
}

/// Whether the unpacked binary must be made executable (on Unix-like systems).
pub fn needs_exec_permission(os: TargetOs) -> (r: bool)
    ensures
        r == is_unix(os),
{
    match os {
        TargetOs::MacOs | TargetOs::Linux | TargetOs::OtherUnix => true,
        _ => false,
    }
}

/// The steps of a download that can fail, each with its own message.
#[derive(Debug, Clone, Copy, PartialEq, Eq, Structural)]
pub enum DownloadFailure {
    CreateBinDir,
    HttpRequest,
    BadStatus,
    ReadResponse,
    SetPermissions,
    ReadArchive,
    ArchiveEntry,
    EntryPath,
    Extraction,
    ZstdDecode,
    ZipOpen,
    ZipEntry,
    FileCreate,
    FileWrite,
}

/// The message prefix of a failed download step.
pub open spec fn failure_prefix(step: DownloadFailure) -> Seq<char> {
    match step {
        DownloadFailure::CreateBinDir => "Failed to create bin dir: "@,
        DownloadFailure::HttpRequest => "HTTP request failed: "@,
        DownloadFailure::BadStatus => "Download failed with status: "@,
        DownloadFailure::ReadResponse => "Failed to read response: "@,
        DownloadFailure::SetPermissions => "Failed to set permissions: "@,
        DownloadFailure::ReadArchive => "Failed to read archive: "@,
        DownloadFailure::ArchiveEntry => "Archive entry error: "@,
        DownloadFailure::EntryPath => "Path error: "@,
        DownloadFailure::Extraction => "Extraction failed: "@,
        DownloadFailure::ZstdDecode => "Zstd decode error: "@,
        DownloadFailure::ZipOpen => "Zip error: "@,
        DownloadFailure::ZipEntry => "Zip entry error: "@,
        DownloadFailure::FileCreate => "File create error: "@,
        DownloadFailure::FileWrite => "Write error: "@,
    }
}

fn prefix_of(step: DownloadFailure) -> (r: &'static str)
    ensures
        r@ == failure_prefix(step),
{
    match step {
        DownloadFailure::CreateBinDir => "Failed to create bin dir: ",
        DownloadFailure::HttpRequest => "HTTP request failed: ",
        DownloadFailure::BadStatus => "Download failed with status: ",
        DownloadFailure::ReadResponse => "Failed to read response: ",
        DownloadFailure::SetPermissions => "Failed to set permissions: ",
        DownloadFailure::ReadArchive => "Failed to read archive: ",
        DownloadFailure::ArchiveEntry => "Archive entry error: ",
        DownloadFailure::EntryPath => "Path error: ",
        DownloadFailure::Extraction => "Extraction failed: ",
        DownloadFailure::ZstdDecode => "Zstd decode error: ",
        DownloadFailure::ZipOpen => "Zip error: ",
        DownloadFailure::ZipEntry => "Zip entry error: ",
        DownloadFailure::FileCreate => "File create error: ",
        DownloadFailure::FileWrite => "Write error: ",
    }
}

/// The error for a failed download step, with the underlying cause's text.
pub fn download_error(step: DownloadFailure, detail: &str) -> (r: LlmError)
    ensures
        r matches LlmError::DownloadError(m) && m@ == failure_prefix(step) + detail@,
{
    let mut m = prefix_of(step).to_owned();
    m.append(detail);
    LlmError::DownloadError(m)
}

/// Every platform with a published release can unpack that release.
pub proof fn lemma_published_release_is_unpackable(os: TargetOs, arch: TargetArch)
    requires
        download_target(os, arch) is Some,
    ensures
        unpackable(os, (download_target(os, arch)->0).1),
{
}


/// The entries of an archive, read in order up to the first one that could
/// not be read.
pub struct ArchiveListing {
    /// The file name of each entry's path; `None` where the path has no file
    /// name or the name is not UTF-8.
    pub names: Vec<Option<String>>,
    /// Why reading stopped before the end, if it did: the step that failed
    /// and the cause's text.
    pub failure: Option<(DownloadFailure, String)>,
}

/// A file name, by its characters.
pub open spec fn name_view(n: Option<String>) -> Option<Seq<char>> {
    match n {
        Some(s) => Some(s@),
        None => None,
    }
}

/// A failed step, with the cause's characters.
pub open spec fn failure_view(f: Option<(DownloadFailure, String)>) -> Option<(DownloadFailure, Seq<char>)> {
    match f {
        Some((step, m)) => Some((step, m@)),
        None => None,
    }
}

/// File names, by their characters.
pub open spec fn names_view(names: Seq<Option<String>>) -> Seq<Option<Seq<char>>> {
    names.map_values(|n: Option<String>| name_view(n))
}

/// The failure that ended a reading, with the cause's characters.
pub open spec fn failure_of(r: Result<(), (DownloadFailure, String)>) -> Option<(DownloadFailure, Seq<char>)> {
    match r {
        Ok(()) => None,
        Err((step, m)) => Some((step, m@)),
    }
}

impl View for ArchiveListing {
    type V = (Seq<Option<Seq<char>>>, Option<(DownloadFailure, Seq<char>)>);

    open spec fn view(&self) -> Self::V {
        (names_view(self.names@), failure_view(self.failure))
    }
}

/// The bytes of one archive entry, or the step that failed and the cause.
pub open spec fn member_view(r: Result<Vec<u8>, (DownloadFailure, String)>) -> Result<Seq<u8>, (DownloadFailure, Seq<char>)> {
    match r {
        Ok(b) => Ok(b@),
        Err((step, m)) => Err((step, m@)),
    }
}

/// The listing of a gzip tarball, as `tar` reads it through `flate2`.
pub uninterp spec fn tar_gz_listing(data: Seq<u8>) -> (Seq<Option<Seq<char>>>, Option<(DownloadFailure, Seq<char>)>);

/// The listing of a zstd tarball, as `tar` reads it through `zstd`.
pub uninterp spec fn tar_zst_listing(data: Seq<u8>) -> (Seq<Option<Seq<char>>>, Option<(DownloadFailure, Seq<char>)>);

/// The listing of a zip archive, as `zip` reads it.
pub uninterp spec fn zip_listing(data: Seq<u8>) -> (Seq<Option<Seq<char>>>, Option<(DownloadFailure, Seq<char>)>);

/// The contents of entry `index` of a zip archive.
pub uninterp spec fn zip_member(data: Seq<u8>, index: int) -> Result<Seq<u8>, (DownloadFailure, Seq<char>)>;

/// Reads the entries of a gzip tarball with `tar::Archive::entries` over a
/// `flate2::read::GzDecoder`, pushing each entry's `path().file_name()` onto
/// `names` while `entries` and `path` succeed; a failure ends the reading
/// with its step (`ReadArchive`, `ArchiveEntry`, `EntryPath`) and message.
/// Claimed: what is read depends on the bytes alone (named `tar_gz_listing`).
#[verifier::external_body]
fn read_tar_gz_names(data: &[u8], names: &mut Vec<Option<String>>) -> (r: Result<(), (DownloadFailure, String)>)
    requires
        old(names)@.len() == 0,
    ensures
        names_view(final(names)@) == tar_gz_listing(data@).0,
        failure_of(r) == tar_gz_listing(data@).1,
{
    let mut archive = tar::Archive::new(flate2::read::GzDecoder::new(data));
    for entry in archive.entries().map_err(|e| (DownloadFailure::ReadArchive, e.to_string()))? {
        let entry = entry.map_err(|e| (DownloadFailure::ArchiveEntry, e.to_string()))?;
        let path = entry.path().map_err(|e| (DownloadFailure::EntryPath, e.to_string()))?;
        names.push(path.file_name().and_then(|n| n.to_str()).map(String::from));
    }
    Ok(())
}

/// Reads the entries of a zstd tarball: `zstd::Decoder::new` (a failure is
/// `ZstdDecode`), then as for a gzip tarball. Claimed: what is read depends
/// on the bytes alone (named `tar_zst_listing`).
#[verifier::external_body]
fn read_tar_zst_names(data: &[u8], names: &mut Vec<Option<String>>) -> (r: Result<(), (DownloadFailure, String)>)
    requires
        old(names)@.len() == 0,
    ensures
        names_view(final(names)@) == tar_zst_listing(data@).0,
        failure_of(r) == tar_zst_listing(data@).1,
{
    let decoder = zstd::Decoder::new(data).map_err(|e| (DownloadFailure::ZstdDecode, e.to_string()))?;
    let mut archive = tar::Archive::new(decoder);
    for entry in archive.entries().map_err(|e| (DownloadFailure::ReadArchive, e.to_string()))? {
        let entry = entry.map_err(|e| (DownloadFailure::ArchiveEntry, e.to_string()))?;
        let path = entry.path().map_err(|e| (DownloadFailure::EntryPath, e.to_string()))?;
        names.push(path.file_name().and_then(|n| n.to_str()).map(String::from));
    }
    Ok(())
}

/// Reads the entries of a zip archive: `zip::ZipArchive::new` (a failure is
/// `ZipOpen`), then `by_index` for each index below `len()` (a failure is
/// `ZipEntry`), pushing `enclosed_name()`'s file name onto `names`. Claimed:
/// what is read depends on the bytes alone (named `zip_listing`).
#[verifier::external_body]
fn read_zip_names(data: &[u8], names: &mut Vec<Option<String>>) -> (r: Result<(), (DownloadFailure, String)>)
    requires
        old(names)@.len() == 0,
    ensures
        names_view(final(names)@) == zip_listing(data@).0,
        failure_of(r) == zip_listing(data@).1,
{
    let mut archive = zip::ZipArchive::new(std::io::Cursor::new(data)).map_err(|e| (DownloadFailure::ZipOpen, e.to_string()))?;
    for i in 0..archive.len() {
        let file = archive.by_index(i).map_err(|e| (DownloadFailure::ZipEntry, e.to_string()))?;
        names.push(file.enclosed_name().and_then(|p| p.file_name().and_then(|n| n.to_str()).map(String::from)));
    }
    Ok(())
}

/// Reads entry `index` of a zip archive: `zip::ZipArchive::new`,
/// `by_index(index)`, then `read_to_end` (a failure there is `FileWrite`,
/// the step that copies it out). Claimed: the result depends on the
/// arguments alone (named `zip_member`).
#[verifier::external_body]
fn read_zip_member(data: &[u8], index: usize) -> (r: Result<Vec<u8>, (DownloadFailure, String)>)
    ensures
        member_view(r) == zip_member(data@, index as int),
{
    let mut archive = zip::ZipArchive::new(std::io::Cursor::new(data)).map_err(|e| (DownloadFailure::ZipOpen, e.to_string()))?;
    let mut file = archive.by_index(index).map_err(|e| (DownloadFailure::ZipEntry, e.to_string()))?;
    let mut bytes: Vec<u8> = Vec::new();
    std::io::Read::read_to_end(&mut file, &mut bytes).map_err(|e| (DownloadFailure::FileWrite, e.to_string()))?;
    Ok(bytes)
}

/// The listing of an archive of the given format.
pub open spec fn archive_listing(kind: ArchiveType, data: Seq<u8>) -> (Seq<Option<Seq<char>>>, Option<(DownloadFailure, Seq<char>)>) {
    match kind {
        ArchiveType::TarGz => tar_gz_listing(data),
        ArchiveType::TarZst => tar_zst_listing(data),
        ArchiveType::Zip => zip_listing(data),
    }
}

/// Lists the entries of an archive.
pub fn read_listing(kind: ArchiveType, data: &[u8]) -> (r: ArchiveListing)
    ensures
        r@ == archive_listing(kind, data@),
{
    let mut names: Vec<Option<String>> = Vec::new();
    let read = match kind {
        ArchiveType::TarGz => read_tar_gz_names(data, &mut names),
        ArchiveType::TarZst => read_tar_zst_names(data, &mut names),
        ArchiveType::Zip => read_zip_names(data, &mut names),
    };
    let failure = match read {
        Ok(()) => None,
        Err(f) => Some(f),
    };
    ArchiveListing { names, failure }
}

/// Whether an entry's file name is that of the server binary.
pub open spec fn names_binary(kind: ArchiveType, n: Option<Seq<char>>) -> bool {
    n matches Some(s) && s == binary_entry_name(kind)
}

/// `i` is the first entry named like the server binary.
pub open spec fn first_binary(kind: ArchiveType, names: Seq<Option<Seq<char>>>, i: int) -> bool {
    &&& 0 <= i < names.len()
    &&& names_binary(kind, names[i])
    &&& forall|j: int| 0 <= j < i ==> !names_binary(kind, #[trigger] names[j])
}

/// Some entry is named like the server binary.
pub open spec fn binary_listed(kind: ArchiveType, names: Seq<Option<Seq<char>>>) -> bool {
    exists|i: int| 0 <= i < names.len() && names_binary(kind, #[trigger] names[i])
}

/// The message when no listed entry is the server binary: the failure that
/// ended the listing, else that the binary is missing.
pub open spec fn unlisted_text(kind: ArchiveType, failure: Option<(DownloadFailure, Seq<char>)>) -> Seq<char> {
    match failure {
        Some((step, m)) => failure_prefix(step) + m,
        None => missing_binary_text(kind),
    }
}

/// Finds the server binary in an archive's listing: the first entry with
/// its file name; where there is none, the failure that ended the listing,
/// else the error that the binary is missing.
pub fn archived_binary(kind: ArchiveType, listing: &ArchiveListing) -> (r: Result<usize, LlmError>)
    ensures
        r matches Ok(i) ==> first_binary(kind, listing@.0, i as int),
        r is Ok <==> binary_listed(kind, listing@.0),
        r matches Err(e) ==> (e matches LlmError::DownloadError(m) && m@ == unlisted_text(kind, listing@.1)),
{
    let n = listing.names.len();
    let mut i: usize = 0;
    while i < n
        invariant
            n == listing.names@.len(),
            i <= n,
            forall|j: int| 0 <= j < i ==> !names_binary(kind, #[trigger] listing@.0[j]),
        decreases n - i,
    {
        let hit = match &listing.names[i] {
            Some(name) => is_archived_binary(Some(name.as_str()), kind),
            None => false,
        };
        if hit {
            return Ok(i);
        }
        i = i + 1;
    }
    match &listing.failure {
        Some((step, m)) => Err(download_error(*step, m.as_str())),
        None => Err(binary_missing(kind)),
    }
}

/// Where the server binary comes from once it is found.
#[derive(Debug)]
pub enum BinarySource {
    /// Entry `index` of a tarball, for `tar` to unpack itself, restoring the
    /// entry's kind, permissions and modification time.
    TarEntry(usize),
    /// The bytes of a zip entry, to be written out.
    Bytes(Vec<u8>),
}

/// A binary source as the library reasons about it.
pub enum SourceView {
    TarEntry(int),
    Bytes(Seq<u8>),
}

/// The view of a binary source.
pub open spec fn source_view(s: BinarySource) -> SourceView {
    match s {
        BinarySource::TarEntry(i) => SourceView::TarEntry(i as int),
        BinarySource::Bytes(b) => SourceView::Bytes(b@),
    }
}

/// What unpacking the server binary from an archive gives: the tarball
/// entry to unpack, the bytes read from the zip entry, or the message of the
/// error.
pub open spec fn unpacked_binary(os: TargetOs, kind: ArchiveType, data: Seq<u8>) -> Result<SourceView, Seq<char>> {
    if !unpackable(os, kind) {
        Err(refusal_text(kind))
    } else if binary_listed(kind, archive_listing(kind, data).0) {
        let i = choose|i: int| first_binary(kind, archive_listing(kind, data).0, i);
        match kind {
            ArchiveType::Zip => match zip_member(data, i) {
                Ok(b) => Ok(SourceView::Bytes(b)),
                Err((step, m)) => Err(failure_prefix(step) + m),
            },
            _ => Ok(SourceView::TarEntry(i)),
        }
    } else {
        Err(unlisted_text(kind, archive_listing(kind, data).1))
    }
}

/// Finds the server binary in a downloaded archive: refuses a format the
/// system cannot unpack, lists the entries, and takes the first one named
/// like the binary; a zip entry is read out, a tarball entry is left for
/// `tar` to unpack.
pub fn unpack_binary(os: TargetOs, kind: ArchiveType, data: &[u8]) -> (r: Result<BinarySource, LlmError>)
    ensures
        match r {
            Ok(src) => unpacked_binary(os, kind, data@) == Ok::<SourceView, Seq<char>>(source_view(src)),
            Err(e) => e matches LlmError::DownloadError(m) && unpacked_binary(os, kind, data@) == Err::<SourceView, Seq<char>>(m@),
        },
{
    match check_unpackable(os, kind) {
        Ok(()) => {},
        Err(e) => return Err(e),
    }
    let listing = read_listing(kind, data);
    let index = match archived_binary(kind, &listing) {
        Ok(i) => i,
        Err(e) => return Err(e),
    };
    proof {
        let names = archive_listing(kind, data@).0;
        let c = choose|i: int| first_binary(kind, names, i);
        assert(first_binary(kind, names, index as int));
        assert(first_binary(kind, names, c));
        assert(!names_binary(kind, names[index as int]) || !(c < index as int));
        assert(!names_binary(kind, names[c]) || !(index < c));
        assert(c == index as int);
    }
    match kind {
        ArchiveType::Zip => match read_zip_member(data, index) {
            Ok(b) => Ok(BinarySource::Bytes(b)),
            Err((step, m)) => Err(download_error(step, m.as_str())),
        },
        _ => Ok(BinarySource::TarEntry(index)),
    }
}

/// The release table: every Mac, whatever its processor, gets the universal
/// darwin gzip tarball; Linux and Windows on x86-64 and ARM64 get their zstd
/// tarball and zip; nothing else has a release.
pub proof fn lemma_release_table(arch: TargetArch)
    ensures
        download_target(TargetOs::MacOs, arch) == Some(("https://ollama.com/download/ollama-darwin.tgz"@, ArchiveType::TarGz)),
        download_target(TargetOs::Linux, TargetArch::X86_64) == Some(("https://ollama.com/download/ollama-linux-amd64.tar.zst"@, ArchiveType::TarZst)),
        download_target(TargetOs::Linux, TargetArch::Aarch64) == Some(("https://ollama.com/download/ollama-linux-arm64.tar.zst"@, ArchiveType::TarZst)),
        download_target(TargetOs::Windows, TargetArch::X86_64) == Some(("https://ollama.com/download/ollama-windows-amd64.zip"@, ArchiveType::Zip)),
        download_target(TargetOs::Windows, TargetArch::Aarch64) == Some(("https://ollama.com/download/ollama-windows-arm64.zip"@, ArchiveType::Zip)),
        download_target(TargetOs::Linux, TargetArch::Other) is None,
        download_target(TargetOs::Windows, TargetArch::Other) is None,
        download_target(TargetOs::OtherUnix, arch) is None,
        download_target(TargetOs::Other, arch) is None,
{
}

} // verus!
