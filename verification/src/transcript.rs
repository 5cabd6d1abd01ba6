//! Where a transcript is stored and what it holds.

use crate::digest::{is_lower_hex, sha256_hex, sha256_hex_digest, DIGEST_INPUT_LIMIT};
use crate::outcome::{Header, HeaderView, Success, SuccessView};
use crate::status::{decimal, decimal_string};
use vstd::prelude::*;
use vstd::string::*;
use vstd::utf8::encode_utf8;

verus! {

/// Position of the first `/` at or after `from`, or the length of `s` when
/// no `/` follows.
pub open spec fn next_slash(s: Seq<char>, from: int) -> int
    decreases s.len() - from,
{
    if from >= s.len() {
        s.len() as int
    } else if s[from] == '/' {
        from
    } else {
        next_slash(s, from + 1)
    }
}

/// `next_slash` is the least position of a `/` from `from` on.
pub proof fn lemma_next_slash(s: Seq<char>, from: int)
    requires
        0 <= from <= s.len(),
    ensures
        from <= next_slash(s, from) <= s.len(),
        next_slash(s, from) < s.len() ==> s[next_slash(s, from)] == '/',
        forall|k: int| from <= k < next_slash(s, from) ==> s[k] != '/',
    decreases s.len() - from,
{
    if from < s.len() && s[from] != '/' {
        lemma_next_slash(s, from + 1);
    }
}

/// The site directory of a URL: the characters that follow the first `/` and
/// the character after it, up to the next `/` or the end of the URL.
pub open spec fn site_directory_spec(url: Seq<char>) -> Option<Seq<char>> {
    let start = next_slash(url, 0) + 2;
    if start > url.len() {
        None
    } else {
        Some(url.subrange(start, next_slash(url, start)))
    }
}

/// A URL has a site directory exactly when some `/` in it is not its last
/// character, and a site directory holds no `/`.
pub proof fn lemma_site_directory(url: Seq<char>)
    ensures
        site_directory_spec(url) is Some <==> exists|i: int|
            0 <= i && i + 1 < url.len() && #[trigger] url[i] == '/',
        site_directory_spec(url) matches Some(site) ==> forall|k: int|
            0 <= k < site.len() ==> #[trigger] site[k] != '/',
{
    let first = next_slash(url, 0);
    lemma_next_slash(url, 0);
    if first + 2 <= url.len() {
        assert(url[first] == '/');
        let start = first + 2;
        let site = url.subrange(start, next_slash(url, start));
        lemma_next_slash(url, start);
        assert forall|k: int| 0 <= k < site.len() implies #[trigger] site[k] != '/' by {
            assert(site[k] == url[start + k]);
        }
    } else {
        assert forall|i: int| 0 <= i && i + 1 < url.len() implies #[trigger] url[i] != '/' by {
            if url[i] == '/' {
                assert(i >= first);
            }
        }
    }
}

/// Scans `url` for the first `/` at or after character position `from`.
fn find_slash(url: &str, from: usize) -> (at: usize)
    ensures
        at == next_slash(url@, from as int),
{
    let n = url.unicode_len();
    let mut i: usize = 0;
    for c in it: url.chars()
        invariant
            i == it.index(),
            it.seq() == url@,
            n == url@.len(),
            next_slash(url@, from as int) == next_slash(
                url@,
                if i > from { i as int } else { from as int },
            ),
    {
        if i >= from && c == '/' {
            return i;
        }
        i = i + 1;
    }
    n
}

/// Extracts the site directory of `url`; there is none when the URL holds no
/// `/` or ends right after its first `/`.
pub fn site_directory(url: &str) -> (site: Option<String>)
    ensures
        site.deep_view() == site_directory_spec(url@),
{
    let n = url.unicode_len();
    let slash = find_slash(url, 0);
    proof {
        lemma_next_slash(url@, 0);
    }
    if n - slash < 2 {
        return None;
    }
    let start = slash + 2;
    let end = find_slash(url, start);
    proof {
        lemma_next_slash(url@, start as int);
    }
    Some(url.substring_char(start, end).to_owned())
}

/// Why a URL has no place to store its transcript.
#[derive(Debug, Clone, Copy, PartialEq, Eq)]
pub enum LocationError {
    /// The URL is 2^61 bytes long or longer, more than SHA-256 takes.
    UrlTooLong,
    /// The URL holds no `/`, or ends right after its first `/`.
    NoSiteDirectory,
}

/// Where the transcript of a URL is stored: a directory and a file name in
/// it.
#[derive(Debug, Clone, PartialEq, Eq)]
pub struct Location {
    pub directory: String,
    pub file_name: String,
}

/// A location as two sequences of characters.
pub struct LocationView {
    pub directory: Seq<char>,
    pub file_name: Seq<char>,
}

impl View for Location {
    type V = LocationView;

    open spec fn view(&self) -> LocationView {
        LocationView { directory: self.directory@, file_name: self.file_name@ }
    }
}

/// Whether a transcript of `url` can be placed: the URL is short enough to
/// be hashed and has a site directory.
pub open spec fn has_place(url: Seq<char>) -> bool {
    encode_utf8(url).len() < DIGEST_INPUT_LIMIT && site_directory_spec(url) is Some
}

/// The location of the transcript of `url` below `root`: the directory is
/// the root, a `/` and the site directory; the file name is the SHA-256 of
/// the whole URL in lowercase hexadecimal. It depends on nothing but the
/// root and the requested URL.
pub open spec fn locate_spec(root: Seq<char>, url: Seq<char>) -> Result<LocationView, LocationError> {
    if encode_utf8(url).len() >= DIGEST_INPUT_LIMIT {
        Err(LocationError::UrlTooLong)
    } else {
        match site_directory_spec(url) {
            None => Err(LocationError::NoSiteDirectory),
            Some(site) => Ok(
                LocationView { directory: root + seq!['/'] + site, file_name: sha256_hex(url) },
            ),
        }
    }
}

/// The view of the result of `locate`.
pub open spec fn located_view(located: Result<Location, LocationError>) -> Result<
    LocationView,
    LocationError,
> {
    match located {
        Ok(location) => Ok(location@),
        Err(error) => Err(error),
    }
}

/// The file name of the transcript of `url`: none for a URL too long to be
/// hashed, else the 64 lowercase hexadecimal digits of its SHA-256.
pub fn file_name(url: &str) -> (name: Option<String>)
    ensures
        name.deep_view() == if url.spec_bytes().len() < DIGEST_INPUT_LIMIT {
            Some(sha256_hex(url@))
        } else {
            None
        },
        name matches Some(digits) ==> digits@.len() == 64 && forall|i: int|
            0 <= i < digits@.len() ==> is_lower_hex(#[trigger] digits@[i]),
{
    if url.as_bytes().len() as u64 >= DIGEST_INPUT_LIMIT {
        None
    } else {
        Some(sha256_hex_digest(url))
    }
}

/// Computes where the transcript of `url` goes below `output_root`.
pub fn locate(output_root: &str, url: &str) -> (located: Result<Location, LocationError>)
    ensures
        located_view(located) == locate_spec(output_root@, url@),
{
    let file_name = match file_name(url) {
        Some(digits) => digits,
        None => { return Err(LocationError::UrlTooLong); },
    };
    let site = match site_directory(url) {
        Some(site) => site,
        None => { return Err(LocationError::NoSiteDirectory); },
    };
    let mut directory = output_root.to_owned();
    directory.append("/");
    directory.append(site.as_str());
    proof {
        reveal_strlit("/");
        assert("/"@ =~= seq!['/']);
    }
    Ok(Location { directory, file_name })
}

/// The lines that stand for the request in every transcript. They are fixed
/// text and name neither the path nor the host that was requested.
pub const REQUEST_BANNER: &'static str =
    "> GET /test.html HTTP/1.1\n> Host: test.\n> User-Agent: Mozilla/5.0 (compatible; fes/0.1; +https://github.com/JohnWoodman/fes)\n\n";

/// The status line: `< `, the code in decimal, a space, the reason phrase.
pub open spec fn status_line(code: u16, reason: Seq<char>) -> Seq<char> {
    seq!['<', ' '] + decimal(code as nat) + seq![' '] + reason + seq!['\n']
}

/// One header line: `< `, the name, `: `, the value.
pub open spec fn header_line(header: HeaderView) -> Seq<char> {
    seq!['<', ' '] + header.name + seq![':', ' '] + header.value + seq!['\n']
}

/// The header lines, one per header, in the order of the response.
pub open spec fn header_lines(headers: Seq<HeaderView>) -> Seq<char>
    decreases headers.len(),
{
    if headers.len() == 0 {
        Seq::empty()
    } else {
        header_lines(headers.drop_last()) + header_line(headers.last())
    }
}

/// The text of a transcript up to the body: the requested URL on a line of
/// its own, the request banner, the status line, the header lines and an
/// empty line.
pub open spec fn transcript_head(url: Seq<char>, success: SuccessView) -> Seq<char> {
    url + seq!['\n'] + REQUEST_BANNER@ + status_line(success.status_code, success.status_reason)
        + header_lines(success.headers) + seq!['\n']
}

/// A transcript: its head in UTF-8, then the body byte for byte.
pub open spec fn transcript_spec(url: Seq<char>, success: SuccessView) -> Seq<u8> {
    encode_utf8(transcript_head(url, success)) + success.body
}

/// Writes the header lines.
fn render_headers(headers: &Vec<Header>) -> (text: String)
    ensures
        text@ == header_lines(headers.deep_view()),
{
    let mut text = String::new();
    let mut i: usize = 0;
    assert(headers.deep_view().take(0) =~= Seq::<HeaderView>::empty());
    while i < headers.len()
        invariant
            i <= headers.len(),
            text@ == header_lines(headers.deep_view().take(i as int)),
        decreases headers.len() - i,
    {
        let ghost before = text@;
        text.append("< ");
        text.append(headers[i].name.as_str());
        text.append(": ");
        text.append(headers[i].value.as_str());
        text.append("\n");
        proof {
            reveal_strlit("< ");
            reveal_strlit(": ");
            reveal_strlit("\n");
            let views = headers.deep_view();
            assert(views.take(i + 1).drop_last() =~= views.take(i as int));
            assert(views.take(i + 1).last() == headers[i as int]@);
            assert(text@ =~= before + header_line(headers[i as int]@));
        }
        i = i + 1;
    }
    assert(headers.deep_view().take(i as int) =~= headers.deep_view());
    text
}

/// Writes the transcript of `success` for the request of `url`. The first
/// line is the URL that was requested, not the one the response reports.
pub fn render(url: &str, success: &Success) -> (bytes: Vec<u8>)
    ensures
        bytes@ == transcript_spec(url@, success@),
{
    let mut head = url.to_owned();
    head.append("\n");
    head.append(REQUEST_BANNER);
    head.append("< ");
    head.append(decimal_string(success.status_code).as_str());
    head.append(" ");
    head.append(success.status_reason.as_str());
    head.append("\n");
    head.append(render_headers(&success.headers).as_str());
    head.append("\n");
    proof {
        reveal_strlit("< ");
        reveal_strlit(" ");
        reveal_strlit("\n");
        assert(head@ =~= transcript_head(url@, success@));
    }
    let mut bytes = head.as_str().as_bytes_vec();
    bytes.extend_from_slice(success.body.as_slice());
    assert(bytes@ =~= transcript_spec(url@, success@));
    bytes
}

/// A transcript ready to be stored: where it goes and what it holds. An
/// earlier file at that place is replaced.
#[derive(Debug, Clone, PartialEq, Eq)]
pub struct TranscriptFile {
    pub location: Location,
    pub contents: Vec<u8>,
}

/// A transcript file as mathematical values.
pub struct TranscriptFileView {
    pub location: LocationView,
    pub contents: Seq<u8>,
}

impl View for TranscriptFile {
    type V = TranscriptFileView;

    open spec fn view(&self) -> TranscriptFileView {
        TranscriptFileView { location: self.location@, contents: self.contents@ }
    }
}

/// The file that stores `success` for the request of `url`: placed by the
/// URL alone, filled with the transcript.
pub open spec fn plan_spec(root: Seq<char>, url: Seq<char>, success: SuccessView) -> Result<
    TranscriptFileView,
    LocationError,
> {
    match locate_spec(root, url) {
        Ok(location) => Ok(
            TranscriptFileView { location, contents: transcript_spec(url, success) },
        ),
        Err(error) => Err(error),
    }
}

/// The view of the result of `plan`.
pub open spec fn planned_view(planned: Result<TranscriptFile, LocationError>) -> Result<
    TranscriptFileView,
    LocationError,
> {
    match planned {
        Ok(file) => Ok(file@),
        Err(error) => Err(error),
    }
}

/// Prepares the transcript file of `success` for the request of `url`.
pub fn plan(output_root: &str, url: &str, success: &Success) -> (planned: Result<
    TranscriptFile,
    LocationError,
>)
    ensures
        planned_view(planned) == plan_spec(output_root@, url@, success@),
{
    match locate(output_root, url) {
        Ok(location) => Ok(TranscriptFile { location, contents: render(url, success) }),
        Err(error) => Err(error),
    }
}

/// Naming is stable: the file name of a URL is its SHA-256 in lowercase
/// hexadecimal, whatever the output root, so every run that requests the
/// same URL names the same file.
pub proof fn lemma_file_name_is_stable(root_a: Seq<char>, root_b: Seq<char>, url: Seq<char>)
    ensures
        locate_spec(root_a, url) is Ok <==> has_place(url),
        locate_spec(root_b, url) is Ok <==> has_place(url),
        has_place(url) ==> locate_spec(root_a, url)->Ok_0.file_name == sha256_hex(url),
        has_place(url) ==> locate_spec(root_b, url)->Ok_0.file_name == locate_spec(
            root_a,
            url,
        )->Ok_0.file_name,
{
}

/// A transcript is placed by the requested URL alone: two responses to the
/// same URL go to the same directory and the same file, whatever they hold.
pub proof fn lemma_place_ignores_response(
    root: Seq<char>,
    url: Seq<char>,
    first: SuccessView,
    second: SuccessView,
)
    ensures
        plan_spec(root, url, first) is Ok <==> plan_spec(root, url, second) is Ok,
        plan_spec(root, url, first) is Ok ==> plan_spec(root, url, first)->Ok_0.location
            == plan_spec(root, url, second)->Ok_0.location,
        plan_spec(root, url, first) is Err ==> plan_spec(root, url, first)->Err_0 == plan_spec(
            root,
            url,
            second,
        )->Err_0,
{
}

} // verus!
