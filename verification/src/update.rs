//! What a self-update decides: whether the latest release is newer, which
//! archive fits the platform, where it is downloaded from, and which file
//! of it is the program.
use vstd::prelude::*;
use crate::text::{concat2, concat3, slice_chars, str_eq, to_chars};

verus! {

broadcast use vstd::string::group_string_axioms;

/// The text without its leading copies of `c` (`str::trim_start_matches`).
pub open spec fn strip_leading(s: Seq<char>, c: char) -> Seq<char>
    decreases s.len(),
{
    if s.len() > 0 && s[0] == c {
        strip_leading(s.drop_first(), c)
    } else {
        s
    }
}

/// The version a release tag names: the tag without its leading `v`s.
pub fn release_version(tag: &str) -> (r: String)
    ensures
        r@ == strip_leading(tag@, 'v'),
{
    let v = to_chars(tag);
    let mut i: usize = 0;
    assert(v@.skip(0) =~= v@);
    while i < v.len() && v[i] == 'v'
        invariant
            i <= v@.len(),
            strip_leading(v@, 'v') == strip_leading(v@.skip(i as int), 'v'),
        decreases v.len() - i,
    {
        assert(v@.skip(i as int).drop_first() =~= v@.skip(i + 1));
        i += 1;
    }
    let r = slice_chars(&v, i, v.len());
    assert(v@.subrange(i as int, v@.len() as int) =~= v@.skip(i as int));
    r
}

/// Whether the release tagged `tag` is the running version `current`.
pub fn is_up_to_date(tag: &str, current: &str) -> (b: bool)
    ensures
        b == (strip_leading(tag@, 'v') == current@),
{
    let latest = release_version(tag);
    str_eq(latest.as_str(), current)
}

/// The build target of the release archives for an operating system and
/// processor, as `std::env::consts` names them; none for other platforms.
pub open spec fn target_of(os: Seq<char>, arch: Seq<char>) -> Option<Seq<char>> {
    if os == "linux"@ && arch == "x86_64"@ {
        Some("x86_64-unknown-linux-gnu"@)
    } else if os == "macos"@ && arch == "aarch64"@ {
        Some("aarch64-apple-darwin"@)
    } else if os == "windows"@ && arch == "x86_64"@ {
        Some("x86_64-pc-windows-msvc"@)
    } else {
        None
    }
}

pub fn detect_target(os: &str, arch: &str) -> (r: Option<&'static str>)
    ensures
        match r {
            Some(t) => target_of(os@, arch@) == Some(t@),
            None => target_of(os@, arch@) is None,
        },
{
    if str_eq(os, "linux") && str_eq(arch, "x86_64") {
        Some("x86_64-unknown-linux-gnu")
    } else if str_eq(os, "macos") && str_eq(arch, "aarch64") {
        Some("aarch64-apple-darwin")
    } else if str_eq(os, "windows") && str_eq(arch, "x86_64") {
        Some("x86_64-pc-windows-msvc")
    } else {
        None
    }
}

/// The address that names the latest release.
pub fn latest_release_url() -> (r: String)
    ensures
        r@ == "https://api.github.com/repos/CianusDev/apix/releases/latest"@,
{
    "https://api.github.com/repos/CianusDev/apix/releases/latest".to_string()
}

/// The archive of release `tag` for `target`: a zip on Windows, else a
/// gzipped tar.
pub open spec fn archive_name_of(tag: Seq<char>, target: Seq<char>, windows: bool) -> Seq<char> {
    "apix-"@ + tag + "-"@ + target + "."@ + if windows { "zip"@ } else { "tar.gz"@ }
}

pub fn archive_name(tag: &str, target: &str, windows: bool) -> (r: String)
    ensures
        r@ == archive_name_of(tag@, target@, windows),
{
    let a = concat3("apix-", tag, "-");
    let b = concat3(a.as_str(), target, ".");
    let ext = if windows {
        "zip"
    } else {
        "tar.gz"
    };
    concat2(b.as_str(), ext)
}

/// Where archive `filename` of release `tag` is downloaded from.
pub fn download_url(tag: &str, filename: &str) -> (r: String)
    ensures
        r@ == "https://github.com/CianusDev/apix/releases/download/"@ + tag@ + "/"@ + filename@,
{
    let a = concat3("https://github.com/CianusDev/apix/releases/download/", tag, "/");
    concat2(a.as_str(), filename)
}

/// Whether an archive entry is the program: on Windows an entry whose name
/// ends in `apix.exe`; elsewhere an entry whose file name is `apix`.
pub open spec fn is_program_entry(name: Seq<char>, windows: bool) -> bool {
    if windows {
        name.len() >= 8 && name.skip(name.len() - 8) == "apix.exe"@
    } else {
        name == "apix"@
    }
}

pub fn program_entry(name: &str, windows: bool) -> (b: bool)
    ensures
        b == is_program_entry(name@, windows),
{
    if windows {
        let v = to_chars(name);
        proof {
            reveal_strlit("apix.exe");
        }
        if v.len() >= 8 {
            let tail = slice_chars(&v, v.len() - 8, v.len());
            assert(v@.subrange(v@.len() - 8, v@.len() as int) =~= v@.skip(v@.len() - 8));
            str_eq(tail.as_str(), "apix.exe")
        } else {
            false
        }
    } else {
        str_eq(name, "apix")
    }
}

/// The first position of `s` whose element satisfies `p`, if any.
pub open spec fn first_index<A>(s: Seq<A>, p: spec_fn(A) -> bool) -> Option<int>
    decreases s.len(),
{
    if s.len() == 0 {
        None
    } else if p(s[0]) {
        Some(0)
    } else {
        match first_index(s.drop_first(), p) {
            Some(k) => Some(k + 1),
            None => None,
        }
    }
}

/// With no element before `i` satisfying `p`, the first one that does is at
/// `i` when `s[i]` does, and there is none when `i` is the end.
pub proof fn lemma_first_index<A>(s: Seq<A>, p: spec_fn(A) -> bool, i: int)
    requires
        0 <= i <= s.len(),
        forall|j: int| 0 <= j < i ==> !p(#[trigger] s[j]),
    ensures
        i < s.len() && p(s[i]) ==> first_index(s, p) == Some(i),
        i == s.len() ==> first_index(s, p) is None,
    decreases i,
{
    if i > 0 {
        let rest = s.drop_first();
        assert(!p(s[0]));
        assert forall|j: int| 0 <= j < i - 1 implies !p(#[trigger] rest[j]) by {
            assert(rest[j] == s[j + 1]);
        }
        if i < s.len() {
            assert(rest[i - 1] == s[i]);
        }
        lemma_first_index(rest, p, i - 1);
    }
}

/// The position of the last `/` in a path, or -1 when it has none.
pub open spec fn last_slash(p: Seq<u8>) -> int
    decreases p.len(),
{
    if p.len() == 0 {
        -1
    } else if p.last() == 47 {
        p.len() - 1
    } else {
        last_slash(p.drop_last())
    }
}

pub proof fn lemma_last_slash_bounds(p: Seq<u8>)
    ensures
        -1 <= last_slash(p) < p.len(),
    decreases p.len(),
{
    if p.len() > 0 && p.last() != 47 {
        lemma_last_slash_bounds(p.drop_last());
    }
}

/// The file name of a Unix path, as bytes (`Path::file_name`): its last
/// component, passing over trailing `/` and `.` components; none when the
/// path has no component or ends in `..`.
pub open spec fn file_name_of(p: Seq<u8>) -> Option<Seq<u8>>
    decreases p.len(),
{
    if p.len() == 0 {
        None
    } else {
        let k = last_slash(p);
        let part = p.skip(k + 1);
        proof {
            lemma_last_slash_bounds(p);
        }
        if part.len() == 0 || part == seq![46u8] {
            if k < 0 {
                None
            } else {
                file_name_of(p.take(k))
            }
        } else if part == seq![46u8, 46u8] {
            None
        } else {
            Some(part)
        }
    }
}

/// A tar entry is the program when its file name is `apix`.
pub open spec fn is_tar_program(path: Seq<u8>) -> bool {
    file_name_of(path) == Some(seq![97u8, 112u8, 105u8, 120u8])
}

pub open spec fn tar_program() -> spec_fn(Seq<u8>) -> bool {
    |path: Seq<u8>| is_tar_program(path)
}

/// A zip file is the program when its name ends in `apix.exe`.
pub open spec fn zip_program() -> spec_fn(Seq<char>) -> bool {
    |name: Seq<char>| is_program_entry(name, true)
}

/// The position of the last `/` before `end`.
fn last_slash_before(p: &Vec<u8>, end: usize) -> (k: Option<usize>)
    requires
        end <= p@.len(),
    ensures
        match k {
            Some(k) => last_slash(p@.take(end as int)) == k && k < end,
            None => last_slash(p@.take(end as int)) == -1,
        },
{
    let mut j = end;
    while j > 0 && p[j - 1] != 47
        invariant
            j <= end <= p@.len(),
            last_slash(p@.take(end as int)) == last_slash(p@.take(j as int)),
        decreases j,
    {
        assert(p@.take(j as int).drop_last() =~= p@.take(j - 1));
        j -= 1;
    }
    if j == 0 {
        None
    } else {
        Some(j - 1)
    }
}

/// Whether a tar entry's path names the program.
pub fn tar_entry_is_program(path: &Vec<u8>) -> (b: bool)
    ensures
        b == is_tar_program(path@),
{
    let mut end = path.len();
    assert(path@.take(end as int) =~= path@);
    loop
        invariant
            end <= path@.len(),
            file_name_of(path@) == file_name_of(path@.take(end as int)),
        decreases end,
    {
        if end == 0 {
            return false;
        }
        let k = last_slash_before(path, end);
        let ghost q = path@.take(end as int);
        let start = match k {
            Some(k) => k + 1,
            None => 0,
        };
        assert(q.skip(last_slash(q) + 1) =~= path@.subrange(start as int, end as int));
        let len = end - start;
        if len == 0 || (len == 1 && path[start] == 46) {
            assert(len == 1 ==> path@.subrange(start as int, end as int) =~= seq![46u8]);
            match k {
                None => {
                    return false;
                },
                Some(k) => {
                    assert(q.take(k as int) =~= path@.take(k as int));
                    end = k;
                },
            }
        } else if len == 2 && path[start] == 46 && path[start + 1] == 46 {
            assert(path@.subrange(start as int, end as int) =~= seq![46u8, 46u8]);
            return false;
        } else {
            let ghost part = path@.subrange(start as int, end as int);
            assert(part.len() == len);
            if len == 1 {
                assert(part[0] == path@[start as int]);
                assert(part != seq![46u8]);
            }
            if len == 2 {
                assert(part[0] == path@[start as int] && part[1] == path@[start + 1]);
                assert(part != seq![46u8, 46u8]);
            }
            let b = len == 4 && path[start] == 97 && path[start + 1] == 112 && path[start + 2] == 105 && path[start
                + 3] == 120;
            assert(b ==> path@.subrange(start as int, end as int) =~= seq![97u8, 112u8, 105u8, 120u8]);
            return b;
        }
    }
}

/// Byte strings as sequences.
pub open spec fn byte_strings(v: Seq<Vec<u8>>) -> Seq<Seq<u8>> {
    v.map_values(|b: Vec<u8>| b@)
}

/// Strings as character sequences.
pub open spec fn texts(v: Seq<String>) -> Seq<Seq<char>> {
    v.map_values(|t: String| t@)
}

/// The paths (as bytes) of the entries of a gzipped tar archive that can be
/// read in order before the first failure, and whether the whole archive was
/// read without one.
pub uninterp spec fn tar_gz_paths_of(bytes: Seq<u8>) -> (Seq<Seq<u8>>, bool);

/// Lists the entries of the gzipped tar archive `bytes`
/// (`flate2::read::GzDecoder`, `tar::Archive::entries`, `Entry::path_bytes`),
/// stopping at the first failure, whose text it returns. The paths and
/// whether the listing stopped are named by `tar_gz_paths_of`.
#[verifier::external_body]
pub fn tar_gz_paths(bytes: &[u8]) -> (r: (Vec<Vec<u8>>, Option<String>))
    ensures
        (byte_strings(r.0@), r.1 is None) == tar_gz_paths_of(bytes@),
{
    let mut paths = Vec::new();
    let mut archive = tar::Archive::new(flate2::read::GzDecoder::new(bytes));
    let entries = match archive.entries() {
        Ok(entries) => entries,
        Err(e) => return (paths, Some(e.to_string())),
    };
    for entry in entries {
        match entry {
            Ok(entry) => paths.push(entry.path_bytes().into_owned()),
            Err(e) => return (paths, Some(e.to_string())),
        }
    }
    (paths, None)
}

/// The contents of entry `index` of a gzipped tar archive, when it can be
/// read.
pub uninterp spec fn tar_gz_contents_of(bytes: Seq<u8>, index: int) -> Option<Seq<u8>>;

/// Reads the contents of entry `index` of the gzipped tar archive `bytes`
/// (`Archive::entries`, `Iterator::nth`, `Read::read_to_end`), or gives the
/// failure's text. Whether it can be read is named by `tar_gz_contents_of`.
#[verifier::external_body]
pub fn tar_gz_contents(bytes: &[u8], index: usize) -> (r: Result<Vec<u8>, String>)
    ensures
        match r {
            Ok(c) => tar_gz_contents_of(bytes@, index as int) == Some(c@),
            Err(_) => tar_gz_contents_of(bytes@, index as int) is None,
        },
{
    let mut archive = tar::Archive::new(flate2::read::GzDecoder::new(bytes));
    let mut entries = archive.entries().map_err(|e| e.to_string())?;
    let entry = entries.nth(index).ok_or_else(|| "no such entry".to_string())?;
    let mut entry = entry.map_err(|e| e.to_string())?;
    let mut contents = Vec::new();
    std::io::Read::read_to_end(&mut entry, &mut contents).map_err(|e| e.to_string())?;
    Ok(contents)
}

/// The names of the files of a zip archive that can be opened in order
/// before the first failure, and whether every file was.
pub uninterp spec fn zip_names_of(bytes: Seq<u8>) -> (Seq<Seq<char>>, bool);

/// Lists the files of the zip archive `bytes` (`zip::ZipArchive::new`,
/// `by_index`, `ZipFile::name`), stopping at the first failure, whose text
/// it returns. The names and whether the listing stopped are named by
/// `zip_names_of`.
#[verifier::external_body]
pub fn zip_names(bytes: &[u8]) -> (r: (Vec<String>, Option<String>))
    ensures
        (texts(r.0@), r.1 is None) == zip_names_of(bytes@),
{
    let mut names = Vec::new();
    let mut archive = match zip::ZipArchive::new(std::io::Cursor::new(bytes)) {
        Ok(archive) => archive,
        Err(e) => return (names, Some(e.to_string())),
    };
    for i in 0..archive.len() {
        match archive.by_index(i) {
            Ok(file) => names.push(file.name().to_string()),
            Err(e) => return (names, Some(e.to_string())),
        }
    }
    (names, None)
}

/// The contents of file `index` of a zip archive, when it can be read.
pub uninterp spec fn zip_contents_of(bytes: Seq<u8>, index: int) -> Option<Seq<u8>>;

/// Reads the contents of file `index` of the zip archive `bytes`
/// (`ZipArchive::new`, `by_index`, `Read::read_to_end`), or gives the
/// failure's text. Whether it can be read is named by `zip_contents_of`.
#[verifier::external_body]
pub fn zip_contents(bytes: &[u8], index: usize) -> (r: Result<Vec<u8>, String>)
    ensures
        match r {
            Ok(c) => zip_contents_of(bytes@, index as int) == Some(c@),
            Err(_) => zip_contents_of(bytes@, index as int) is None,
        },
{
    let mut archive = zip::ZipArchive::new(std::io::Cursor::new(bytes)).map_err(|e| e.to_string())?;
    let mut file = archive.by_index(index).map_err(|e| e.to_string())?;
    let mut contents = Vec::new();
    std::io::Read::read_to_end(&mut file, &mut contents).map_err(|e| e.to_string())?;
    Ok(contents)
}

/// What taking the program out of an archive gives, from the entry names
/// listed (`complete` when the listing did not stop at a failure) and the
/// contents of the first entry that is the program: those contents, none
/// when the whole listing holds no program, and an error when the listing
/// stopped before a program was found or its contents cannot be read.
pub open spec fn extraction(
    found: Option<int>,
    complete: bool,
    contents: Option<Seq<u8>>,
    r: Result<Option<Vec<u8>>, String>,
) -> bool {
    match found {
        Some(i) => match contents {
            Some(c) => r matches Ok(Some(b)) && b@ == c,
            None => r is Err,
        },
        None => if complete {
            r matches Ok(None)
        } else {
            r is Err
        },
    }
}

/// The program in a release's gzipped tar archive: the contents of the
/// first entry whose file name is `apix`.
pub fn extract_program_tar_gz(bytes: &[u8]) -> (r: Result<Option<Vec<u8>>, String>)
    ensures
        ({
            let (paths, complete) = tar_gz_paths_of(bytes@);
            let found = first_index(paths, tar_program());
            extraction(
                found,
                complete,
                match found {
                    Some(i) => tar_gz_contents_of(bytes@, i),
                    None => None,
                },
                r,
            )
        }),
{
    let (paths, failure) = tar_gz_paths(bytes);
    let ghost ps = byte_strings(paths@);
    let mut i: usize = 0;
    while i < paths.len()
        invariant
            i <= paths@.len(),
            ps == byte_strings(paths@),
            (ps, failure is None) == tar_gz_paths_of(bytes@),
            forall|j: int| 0 <= j < i ==> !tar_program()(#[trigger] ps[j]),
        decreases paths.len() - i,
    {
        if tar_entry_is_program(&paths[i]) {
            proof {
                assert(ps[i as int] == paths@[i as int]@);
                assert(tar_program()(ps[i as int]));
                lemma_first_index(ps, tar_program(), i as int);
            }
            return match tar_gz_contents(bytes, i) {
                Ok(c) => Ok(Some(c)),
                Err(e) => Err(e),
            };
        }
        i += 1;
    }
    proof {
        lemma_first_index(ps, tar_program(), i as int);
    }
    match failure {
        Some(e) => Err(e),
        None => Ok(None),
    }
}

/// The program in a release's zip archive: the contents of the first file
/// whose name ends in `apix.exe`.
pub fn extract_program_zip(bytes: &[u8]) -> (r: Result<Option<Vec<u8>>, String>)
    ensures
        ({
            let (names, complete) = zip_names_of(bytes@);
            let found = first_index(names, zip_program());
            extraction(
                found,
                complete,
                match found {
                    Some(i) => zip_contents_of(bytes@, i),
                    None => None,
                },
                r,
            )
        }),
{
    let (names, failure) = zip_names(bytes);
    let ghost ns = texts(names@);
    let mut i: usize = 0;
    while i < names.len()
        invariant
            i <= names@.len(),
            ns == texts(names@),
            (ns, failure is None) == zip_names_of(bytes@),
            forall|j: int| 0 <= j < i ==> !zip_program()(#[trigger] ns[j]),
        decreases names.len() - i,
    {
        if program_entry(names[i].as_str(), true) {
            proof {
                assert(ns[i as int] == names@[i as int]@);
                assert(zip_program()(ns[i as int]));
                lemma_first_index(ns, zip_program(), i as int);
            }
            return match zip_contents(bytes, i) {
                Ok(c) => Ok(Some(c)),
                Err(e) => Err(e),
            };
        }
        i += 1;
    }
    proof {
        lemma_first_index(ns, zip_program(), i as int);
    }
    match failure {
        Some(e) => Err(e),
        None => Ok(None),
    }
}

} // verus!
