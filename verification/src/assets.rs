//! Static assets: which file answers a request, and the headers that go
//! with it.
//!
//! Nothing here looks at the disk. The caller probes the candidate paths
//! and hands in what it found.

use vstd::prelude::*;
use vstd::std_specs::iter::IteratorSpec;
use vstd::string::StrSliceExecFns;

verus! {

/// The part of a file name behind its last dot, or the whole name where it
/// has no dot.
pub open spec fn extension(name: Seq<char>) -> Seq<char> {
    match name.index_of_last('.') {
        Some(dot) => name.subrange(dot + 1, name.len() as int),
        None => name,
    }
}

/// The media type that goes with a file name extension.
pub open spec fn mime_for(ext: Seq<char>) -> Seq<char> {
    if ext == "html"@ || ext == "htm"@ {
        "text/html"@
    } else if ext == "css"@ {
        "text/css"@
    } else if ext == "js"@ {
        "text/javascript"@
    } else if ext == "json"@ {
        "application/json"@
    } else if ext == "png"@ {
        "image/png"@
    } else if ext == "jpg"@ || ext == "jpeg"@ {
        "image/jpeg"@
    } else if ext == "gif"@ {
        "image/gif"@
    } else if ext == "svg"@ {
        "image/svg+xml"@
    } else if ext == "txt"@ {
        "text/plain"@
    } else if ext == "pdf"@ {
        "application/pdf"@
    } else if ext == "wasm"@ {
        "application/wasm"@
    } else if ext == "xml"@ {
        "application/xml"@
    } else if ext == "mp4"@ {
        "video/mp4"@
    } else if ext == "webm"@ {
        "video/webm"@
    } else {
        "application/octet-stream"@
    }
}

/// A file name without the ending that says how it is compressed, and the
/// content coding that the ending stands for: `gzip` for `.gz`, `br` for
/// `.br`, and `identity` for a name with any other ending or none.
pub open spec fn content_encoding(name: Seq<char>) -> (Seq<char>, Seq<char>) {
    match name.index_of_last('.') {
        Some(dot) => {
            let ending = name.subrange(dot + 1, name.len() as int);
            if ending == "gz"@ {
                (name.subrange(0, dot), "gzip"@)
            } else if ending == "br"@ {
                (name.subrange(0, dot), "br"@)
            } else {
                (name, "identity"@)
            }
        },
        None => (name, "identity"@),
    }
}

/// Number of slashes that `text` begins with.
pub open spec fn leading_slashes(text: Seq<char>) -> nat
    decreases text.len(),
{
    if text.len() > 0 && text[0] == '/' {
        1 + leading_slashes(text.drop_first())
    } else {
        0
    }
}

/// What the file system said of a path.
#[derive(Clone, Copy, Debug, PartialEq, Eq, Structural)]
pub enum Probe {
    /// Something is there.
    Found,
    /// Nothing is there.
    NotFound,
    /// It could not tell.
    Failed,
}

/// The path `base` with `segment` pushed onto it, as `PathBuf::push` does it
/// under the path rules that the crate is built for.
pub uninterp spec fn path_pushed(base: Seq<char>, segment: Seq<char>) -> Seq<char>;

/// The path with one more extension behind its file name, as
/// `Path::with_added_extension` does it under the path rules that the crate
/// is built for.
pub uninterp spec fn path_with_added_extension(path: Seq<char>, ending: Seq<char>) -> Seq<char>;

/// Calls `PathBuf::push` on the path `base`, which pushes `segment` onto
/// it. Both are text, so the path that comes out is text too.
#[verifier::external_body]
fn push_path(base: &str, segment: &str) -> (path: String)
    ensures
        path@ == path_pushed(base@, segment@),
{
    let mut buf = std::path::PathBuf::from(base);
    buf.push(segment);
    buf.to_string_lossy().into_owned()
}

/// Calls `Path::with_added_extension`, which panics on an extension that
/// holds a path separator.
#[verifier::external_body]
fn add_extension(path: &str, ending: &str) -> (longer: String)
    requires
        forall|i: int| 0 <= i < ending@.len() ==> ending@[i] != '/' && ending@[i] != '\\',
    ensures
        longer@ == path_with_added_extension(path@, ending@),
{
    std::path::Path::new(path).with_added_extension(ending).to_string_lossy().into_owned()
}

/// The files that can stand for `path`, best first: compressed with gzip,
/// compressed with Brotli, and as it is.
pub open spec fn encoding_candidates(path: Seq<char>) -> Seq<Seq<char>> {
    seq![
        path_with_added_extension(path, "gz"@),
        path_with_added_extension(path, "br"@),
        path,
    ]
}

/// Where the file for a request lies if the request names it: under
/// `/frontend`, by the request's path without its leading slashes.
pub open spec fn requested_path(uri: Seq<char>) -> Seq<char> {
    path_pushed("/frontend"@, uri.skip(leading_slashes(uri) as int))
}

/// The files that can answer a request, best first: those for the path
/// that it names, then those for `index.html` below that path.
pub open spec fn uri_candidates(uri: Seq<char>) -> Seq<Seq<char>> {
    encoding_candidates(requested_path(uri)) + encoding_candidates(
        path_pushed(requested_path(uri), "index.html"@),
    )
}

/// The first candidate whose probe did not fail.
pub open spec fn first_answered(candidates: Seq<Seq<char>>, probes: Seq<Probe>) -> Option<
    Seq<char>,
>
    decreases candidates.len(),
{
    if candidates.len() == 0 || probes.len() == 0 {
        None
    } else if probes[0] != Probe::Failed {
        Some(candidates[0])
    } else {
        first_answered(candidates.drop_first(), probes.drop_first())
    }
}

/// The text of a path that was found, if one was.
pub open spec fn text_of(path: Option<String>) -> Option<Seq<char>> {
    match path {
        Some(p) => Some(p@),
        None => None,
    }
}

/// Whether two texts are the same.
fn same_text(a: &str, b: &str) -> (same: bool)
    ensures
        same == (a@ == b@),
{
    let n = a.unicode_len();
    if n != b.unicode_len() {
        return false;
    }
    let mut i: usize = 0;
    while i < n
        invariant
            i <= n,
            n == a@.len(),
            n == b@.len(),
            forall|j: int| 0 <= j < i ==> a@[j] == b@[j],
        decreases n - i,
    {
        if a.get_char(i) != b.get_char(i) {
            return false;
        }
        i += 1;
    }
    assert(a@ =~= b@);
    true
}

/// Position of the last dot in `name`, and the length of `name`.
fn find_last_dot(name: &str) -> (found: (Option<usize>, usize))
    ensures
        found.1 == name@.len(),
        match found.0 {
            Some(dot) => name@.index_of_last('.') == Some(dot as int) && dot < name@.len(),
            None => name@.index_of_last('.') is None,
        },
{
    let n = name.unicode_len();
    let mut dot: Option<usize> = None;
    let mut i: usize = 0;
    for c in it: name.chars()
        invariant
            it.seq() == name@,
            n == name@.len(),
            i == it.index(),
            match dot {
                Some(d) => d < i && name@[d as int] == '.' && forall|j: int|
                    d < j < i ==> name@[j] != '.',
                None => forall|j: int| 0 <= j < i ==> name@[j] != '.',
            },
    {
        if c == '.' {
            dot = Some(i);
        }
        i += 1;
    }
    proof {
        name@.index_of_last_ensures('.');
    }
    (dot, n)
}

/// The media type for a file, by the ending of its name.
pub fn get_mime_type(file_name: &str) -> (mime: &'static str)
    ensures
        mime@ == mime_for(extension(file_name@)),
{
    let (dot, n) = find_last_dot(file_name);
    let ext = match dot {
        Some(dot) => file_name.substring_char(dot + 1, n),
        None => file_name,
    };
    if same_text(ext, "html") || same_text(ext, "htm") {
        "text/html"
    } else if same_text(ext, "css") {
        "text/css"
    } else if same_text(ext, "js") {
        "text/javascript"
    } else if same_text(ext, "json") {
        "application/json"
    } else if same_text(ext, "png") {
        "image/png"
    } else if same_text(ext, "jpg") || same_text(ext, "jpeg") {
        "image/jpeg"
    } else if same_text(ext, "gif") {
        "image/gif"
    } else if same_text(ext, "svg") {
        "image/svg+xml"
    } else if same_text(ext, "txt") {
        "text/plain"
    } else if same_text(ext, "pdf") {
        "application/pdf"
    } else if same_text(ext, "wasm") {
        "application/wasm"
    } else if same_text(ext, "xml") {
        "application/xml"
    } else if same_text(ext, "mp4") {
        "video/mp4"
    } else if same_text(ext, "webm") {
        "video/webm"
    } else {
        "application/octet-stream"
    }
}

/// Splits the compression ending off a file name and names the content
/// coding that it stands for.
pub fn get_content_encoding<'a>(file_name: &'a str) -> (parts: (&'a str, &'static str))
    ensures
        parts.0@ == content_encoding(file_name@).0,
        parts.1@ == content_encoding(file_name@).1,
{
    let (dot, n) = find_last_dot(file_name);
    match dot {
        Some(dot) => {
            let ending = file_name.substring_char(dot + 1, n);
            if same_text(ending, "gz") {
                (file_name.substring_char(0, dot), "gzip")
            } else if same_text(ending, "br") {
                (file_name.substring_char(0, dot), "br")
            } else {
                (file_name, "identity")
            }
        },
        None => (file_name, "identity"),
    }
}

/// The two headers that describe a file: its content coding, and the media
/// type of what is under the coding.
pub fn get_content_headers(file_name: &str) -> (headers: [(&'static str, &'static str); 2])
    ensures
        headers@[0].0@ == "Content-Encoding"@,
        headers@[0].1@ == content_encoding(file_name@).1,
        headers@[1].0@ == "Content-Type"@,
        headers@[1].1@ == mime_for(extension(content_encoding(file_name@).0)),
{
    let (file_name, content_encoding) = get_content_encoding(file_name);
    let content_type = get_mime_type(file_name);
    [("Content-Encoding", content_encoding), ("Content-Type", content_type)]
}

/// The request path without the slashes that it begins with.
pub fn trim_leading_slashes<'a>(uri: &'a str) -> (rest: &'a str)
    ensures
        rest@ == uri@.skip(leading_slashes(uri@) as int),
{
    let n = uri.unicode_len();
    let mut i: usize = 0;
    assert(uri@.skip(0) =~= uri@);
    while i < n && uri.get_char(i) == '/'
        invariant
            i <= n,
            n == uri@.len(),
            leading_slashes(uri@) == i + leading_slashes(uri@.skip(i as int)),
        decreases n - i,
    {
        assert(uri@.skip(i as int).drop_first() =~= uri@.skip(i + 1));
        i += 1;
    }
    assert(uri@.skip(i as int) =~= uri@.subrange(i as int, n as int));
    uri.substring_char(i, n)
}

/// The path, unless the probe of it failed. A path that was probed and
/// not found is returned like one that was found.
pub fn try_path(path: &str, probe: Probe) -> (found: Option<String>)
    ensures
        text_of(found) == if probe == Probe::Failed {
            None
        } else {
            Some(path@)
        },
{
    match probe {
        Probe::Failed => None,
        _ => Some(path.to_owned()),
    }
}

/// The three files that can stand for `path`, best first.
pub fn encoding_endings(path: &str) -> (candidates: [String; 3])
    ensures
        candidates@.len() == 3,
        forall|i: int| 0 <= i < 3 ==> (#[trigger] candidates@[i])@ == encoding_candidates(path@)[i],
{
    proof {
        reveal_strlit("gz");
        reveal_strlit("br");
    }
    [add_extension(path, "gz"), add_extension(path, "br"), path.to_owned()]
}

/// The first of the files that can stand for `path` whose probe did not
/// fail. `probes` holds the probes of [`encoding_endings`], in its order.
pub fn try_encoding_endings(path: &str, probes: &[Probe; 3]) -> (found: Option<String>)
    ensures
        text_of(found) == first_answered(encoding_candidates(path@), probes@),
{
    let candidates = encoding_endings(path);
    proof {
        reveal_with_fuel(first_answered, 4);
    }
    match try_path(candidates[0].as_str(), probes[0]) {
        Some(found) => Some(found),
        None => match try_path(candidates[1].as_str(), probes[1]) {
            Some(found) => Some(found),
            None => try_path(candidates[2].as_str(), probes[2]),
        },
    }
}

/// What [`path_from_uri`] returns.
pub open spec fn resolved(uri: Seq<char>, probes: Seq<Probe>) -> Option<Seq<char>> {
    match first_answered(encoding_candidates(requested_path(uri)), probes.take(3)) {
        Some(found) => Some(found),
        None => first_answered(
            encoding_candidates(path_pushed(requested_path(uri), "index.html"@)),
            probes.skip(3),
        ),
    }
}

/// The six files that can answer a request, best first.
pub fn candidate_paths(uri: &str) -> (candidates: Vec<String>)
    ensures
        candidates@.len() == 6,
        forall|i: int| 0 <= i < 6 ==> (#[trigger] candidates@[i])@ == uri_candidates(uri@)[i],
{
    let full_path = push_path("/frontend", trim_leading_slashes(uri));
    let index_path = push_path(full_path.as_str(), "index.html");
    let direct = encoding_endings(full_path.as_str());
    let index = encoding_endings(index_path.as_str());
    let mut candidates: Vec<String> = Vec::new();
    let mut i: usize = 0;
    while i < 3
        invariant
            i <= 3,
            candidates@.len() == i,
            forall|j: int| 0 <= j < i ==> (#[trigger] candidates@[j])@ == direct@[j]@,
        decreases 3 - i,
    {
        candidates.push(direct[i].clone());
        i += 1;
    }
    let mut k: usize = 0;
    while k < 3
        invariant
            k <= 3,
            candidates@.len() == 3 + k,
            forall|j: int| 0 <= j < 3 ==> (#[trigger] candidates@[j])@ == direct@[j]@,
            forall|j: int| 0 <= j < k ==> (#[trigger] candidates@[3 + j])@ == index@[j]@,
        decreases 3 - k,
    {
        candidates.push(index[k].clone());
        k += 1;
    }
    assert forall|i: int| 0 <= i < 6 implies (#[trigger] candidates@[i])@ == uri_candidates(
        uri@,
    )[i] by {
        if i >= 3 {
            assert(candidates@[3 + (i - 3)]@ == index@[i - 3]@);
        }
    }
    candidates
}

/// The file that answers a request: the first of the six candidates whose
/// probe did not fail. `probes` holds the probes of [`candidate_paths`], in
/// its order.
pub fn path_from_uri(uri: &str, probes: &[Probe; 6]) -> (found: Option<String>)
    ensures
        text_of(found) == resolved(uri@, probes@),
{
    let full_path = push_path("/frontend", trim_leading_slashes(uri));
    let direct: [Probe; 3] = [probes[0], probes[1], probes[2]];
    assert(direct@ =~= probes@.take(3));
    match try_encoding_endings(full_path.as_str(), &direct) {
        Some(found) => Some(found),
        None => {
            let index_path = push_path(full_path.as_str(), "index.html");
            let index: [Probe; 3] = [probes[3], probes[4], probes[5]];
            assert(index@ =~= probes@.skip(3));
            try_encoding_endings(index_path.as_str(), &index)
        },
    }
}

} // verus!
