//! What the repository client decides: the owner and name in a repository
//! URL, and whether a project's manifests make it an Anchor project.
use vstd::prelude::*;

use vstd::utf8::{decode_utf8, valid_utf8};

use crate::models::GitHubContent;
use crate::text::{chars_of, contains_str, has_sub, string_of, text_eq};

verus! {

/// `s` without its trailing slashes, as `str::trim_end_matches('/')` gives it.
pub open spec fn trim_slashes(s: Seq<char>) -> Seq<char>
    decreases s.len(),
{
    if s.len() > 0 && s.last() == '/' {
        trim_slashes(s.drop_last())
    } else {
        s
    }
}

/// The pieces of `s[i..]` between slashes, where `cur` is the part of the
/// current piece read before position `i`.
pub open spec fn pieces_from(s: Seq<char>, i: int, cur: Seq<char>) -> Seq<Seq<char>>
    decreases s.len() - i,
{
    if i >= s.len() {
        seq![cur]
    } else if s[i] == '/' {
        seq![cur] + pieces_from(s, i + 1, seq![])
    } else {
        pieces_from(s, i + 1, cur.push(s[i]))
    }
}

/// The pieces of `s` between slashes, as `str::split('/')` yields them.
pub open spec fn pieces(s: Seq<char>) -> Seq<Seq<char>> {
    pieces_from(s, 0, seq![])
}

/// The owner and repository named by a URL such as
/// `https://github.com/owner/repo` or `github.com/owner/repo`, trailing
/// slashes aside: the fourth and fifth pieces when the third names the host,
/// else the second and third when the first does.
pub open spec fn owner_repo(url: Seq<char>) -> Option<(Seq<char>, Seq<char>)> {
    let parts = pieces(trim_slashes(url));
    if parts.len() >= 5 && has_sub(parts[2], "github"@) {
        Some((parts[3], parts[4]))
    } else if parts.len() >= 3 && has_sub(parts[0], "github"@) {
        Some((parts[1], parts[2]))
    } else {
        None
    }
}

proof fn lemma_trim_slashes_prefix(s: Seq<char>, j: int)
    requires
        0 <= j <= s.len(),
        forall|k: int| j <= k < s.len() ==> s[k] == '/',
    ensures
        trim_slashes(s) == trim_slashes(s.subrange(0, j)),
    decreases s.len() - j,
{
    if j < s.len() {
        lemma_trim_slashes_prefix(s.drop_last(), j);
        assert(s.drop_last().subrange(0, j) =~= s.subrange(0, j));
    } else {
        assert(s.subrange(0, j) =~= s);
    }
}

/// The pieces of `s` between slashes.
fn split_slashes(s: &[char], end: usize) -> (r: Vec<Vec<char>>)
    requires
        end <= s@.len(),
    ensures
        r@.map_values(|p: Vec<char>| p@) == pieces(s@.subrange(0, end as int)),
{
    let ghost t = s@.subrange(0, end as int);
    let mut out: Vec<Vec<char>> = Vec::new();
    let mut cur: Vec<char> = Vec::new();
    let mut i: usize = 0;
    assert(out@.map_values(|p: Vec<char>| p@) + pieces_from(t, 0, cur@) =~= pieces(t));
    while i < end
        invariant
            i <= end <= s@.len(),
            t == s@.subrange(0, end as int),
            out@.map_values(|p: Vec<char>| p@) + pieces_from(t, i as int, cur@) == pieces(t),
        decreases end - i,
    {
        let ghost before = out@.map_values(|p: Vec<char>| p@);
        let ghost old_cur = cur@;
        if s[i] == '/' {
            out.push(cur);
            cur = Vec::new();
            assert(out@.map_values(|p: Vec<char>| p@) =~= before.push(old_cur));
            assert(cur@ =~= Seq::<char>::empty());
            assert(before.push(old_cur) + pieces_from(t, i + 1, seq![]) =~= before + (seq![old_cur]
                + pieces_from(t, i + 1, seq![])));
        } else {
            cur.push(s[i]);
        }
        i = i + 1;
    }
    let ghost before = out@.map_values(|p: Vec<char>| p@);
    out.push(cur);
    assert(out@.map_values(|p: Vec<char>| p@) =~= before + pieces_from(t, i as int, cur@));
    out
}

/// The owner and repository named by a repository URL, or the reason it
/// names none.
pub fn extract_owner_repo(repo_url: &str) -> (r: Result<(String, String), String>)
    ensures
        match (r, owner_repo(repo_url@)) {
            (Ok((o, n)), Some((so, sn))) => o@ == so && n@ == sn,
            (Err(e), None) => e@ == "Invalid GitHub repository URL: "@ + repo_url@,
            _ => false,
        },
{
    let url = chars_of(repo_url);
    let mut end: usize = url.len();
    while end > 0 && url[end - 1] == '/'
        invariant
            end <= url@.len(),
            forall|k: int| end <= k < url@.len() ==> url@[k] == '/',
        decreases end,
    {
        end = end - 1;
    }
    proof {
        lemma_trim_slashes_prefix(url@, end as int);
        assert(end == 0 || url@.subrange(0, end as int).last() != '/');
    }
    let parts = split_slashes(url.as_slice(), end);
    let ghost ps = pieces(url@.subrange(0, end as int));
    assert(trim_slashes(url@) == url@.subrange(0, end as int)) by {
        assert(trim_slashes(url@.subrange(0, end as int)) == url@.subrange(0, end as int));
    }
    assert(parts@.len() == ps.len());
    if parts.len() >= 5 && contains_str(&parts[2], "github") {
        assert(parts@[2]@ == ps[2] && parts@[3]@ == ps[3] && parts@[4]@ == ps[4]);
        Ok((string_of(parts[3].as_slice()), string_of(parts[4].as_slice())))
    } else if parts.len() >= 3 && contains_str(&parts[0], "github") {
        assert(parts@[0]@ == ps[0] && parts@[1]@ == ps[1] && parts@[2]@ == ps[2]);
        Ok((string_of(parts[1].as_slice()), string_of(parts[2].as_slice())))
    } else {
        proof {
            if parts@.len() >= 5 {
                assert(parts@[2]@ == ps[2]);
            }
            if parts@.len() >= 3 {
                assert(parts@[0]@ == ps[0]);
            }
        }
        let mut e = String::from_str("Invalid GitHub repository URL: ");
        e.append(repo_url);
        Err(e)
    }
}

/// The keys of the `[dependencies]` table of a TOML text, or `None` when the
/// text is not TOML or has no such table.
pub uninterp spec fn dependency_names(text: Seq<char>) -> Option<Seq<Seq<char>>>;

/// Relies on `toml::Table`'s `FromStr` to parse the text, and on `get`,
/// `Value::as_table` and `Map::keys` to list the keys of its `dependencies`
/// table.
#[verifier::external_body]
fn read_dependency_names(text: &str) -> (r: Option<Vec<String>>)
    ensures
        r is Some <==> dependency_names(text@) is Some,
        r is Some ==> r->0@.map_values(|k: String| k@) == dependency_names(text@)->0,
{
    let table: toml::Table = text.parse().ok()?;
    table.get("dependencies")?.as_table().map(|t| t.keys().cloned().collect())
}

/// A manifest declares the Anchor framework as a dependency.
pub open spec fn declares_anchor(manifest: Seq<char>) -> bool {
    dependency_names(manifest) is Some && dependency_names(manifest)->0.contains("anchor-lang"@)
}

/// Whether `anchor-lang` is among the given dependency names.
pub fn lists_anchor(names: &Vec<String>) -> (r: bool)
    ensures
        r == names@.map_values(|k: String| k@).contains("anchor-lang"@),
{
    let ghost ks = names@.map_values(|k: String| k@);
    let mut i: usize = 0;
    while i < names.len()
        invariant
            i <= names@.len() == ks.len(),
            ks == names@.map_values(|k: String| k@),
            forall|j: int| 0 <= j < i ==> ks[j] != "anchor-lang"@,
        decreases names@.len() - i,
    {
        if text_eq(names[i].as_str(), "anchor-lang") {
            assert(ks[i as int] == "anchor-lang"@);
            return true;
        }
        i = i + 1;
    }
    false
}

/// Whether a manifest text lists `anchor-lang` among its dependencies; a text
/// that is not TOML lists none.
pub fn has_anchor_dependency(manifest: &str) -> (r: bool)
    ensures
        r == declares_anchor(manifest@),
{
    match read_dependency_names(manifest) {
        Some(names) => lists_anchor(&names),
        None => false,
    }
}

/// A project is an Anchor project when one of its manifests declares the
/// framework.
pub fn is_anchor_project(manifests: &Vec<String>) -> (r: bool)
    ensures
        r == exists|i: int| 0 <= i < manifests@.len() && declares_anchor(#[trigger] manifests@[i]@),
{
    let mut i: usize = 0;
    while i < manifests.len()
        invariant
            i <= manifests@.len(),
            forall|j: int| 0 <= j < i ==> !declares_anchor(#[trigger] manifests@[j]@),
        decreases manifests@.len() - i,
    {
        if has_anchor_dependency(manifests[i].as_str()) {
            return true;
        }
        i = i + 1;
    }
    false
}

/// How the hosting service answered a metadata request.
#[derive(Clone, Copy, Debug, PartialEq, Eq, Structural)]
pub enum FetchStatus {
    /// A success status (200 to 299).
    Found,
    /// 404: no such repository.
    NotFound,
    /// 403 or 429: the request rate is exhausted.
    RateLimited,
    /// Any other failure status.
    Failed,
}

/// The class of an HTTP status code.
pub open spec fn status_class(code: u16) -> FetchStatus {
    if code == 404 {
        FetchStatus::NotFound
    } else if code == 403 || code == 429 {
        FetchStatus::RateLimited
    } else if 200 <= code <= 299 {
        FetchStatus::Found
    } else {
        FetchStatus::Failed
    }
}

/// The class of an HTTP status code, for a repository metadata request.
pub fn classify_status(code: u16) -> (r: FetchStatus)
    ensures
        r == status_class(code),
{
    if code == 404 {
        FetchStatus::NotFound
    } else if code == 403 || code == 429 {
        FetchStatus::RateLimited
    } else if 200 <= code && code <= 299 {
        FetchStatus::Found
    } else {
        FetchStatus::Failed
    }
}

/// The bytes that a base64 text (standard alphabet, with padding) encodes,
/// or `None` when it is not valid base64.
pub uninterp spec fn base64_decoded(text: Seq<char>) -> Option<Seq<u8>>;

/// Relies on `base64::Engine::decode` with the standard engine.
#[verifier::external_body]
fn base64_decode(text: &str) -> (r: Option<Vec<u8>>)
    ensures
        r is Some <==> base64_decoded(text@) is Some,
        r is Some ==> r->0@ == base64_decoded(text@)->0,
{
    base64::Engine::decode(&base64::engine::general_purpose::STANDARD, text).ok()
}

/// Relies on `String::from_utf8`: it accepts exactly the valid UTF-8 byte
/// sequences, and the string holds the characters they encode.
#[verifier::external_body]
fn utf8_string(bytes: Vec<u8>) -> (r: Option<String>)
    ensures
        r is Some <==> valid_utf8(bytes@),
        r is Some ==> r->0@ == decode_utf8(bytes@),
{
    String::from_utf8(bytes).ok()
}

/// `s` without its newline characters.
pub open spec fn without_newlines(s: Seq<char>) -> Seq<char>
    decreases s.len(),
{
    if s.len() == 0 {
        seq![]
    } else if s.last() == '\n' {
        without_newlines(s.drop_last())
    } else {
        without_newlines(s.drop_last()).push(s.last())
    }
}

/// The content of a listed file as the client reports it: base64 content
/// with its newlines removed is replaced by the text it encodes, when that
/// is valid UTF-8; any other content stays as it is.
pub open spec fn shown_content(content: Option<Seq<char>>, encoding: Option<Seq<char>>) -> Option<
    Seq<char>,
> {
    match (content, encoding) {
        (Some(c), Some(e)) => if e == "base64"@ {
            match base64_decoded(without_newlines(c)) {
                Some(b) => if valid_utf8(b) {
                    Some(decode_utf8(b))
                } else {
                    content
                },
                None => content,
            }
        } else {
            content
        },
        _ => content,
    }
}

fn strip_newlines(s: &str) -> (r: String)
    ensures
        r@ == without_newlines(s@),
{
    let c = chars_of(s);
    let mut out: Vec<char> = Vec::new();
    let mut i: usize = 0;
    while i < c.len()
        invariant
            i <= c@.len(),
            c@ == s@,
            out@ == without_newlines(c@.take(i as int)),
        decreases c@.len() - i,
    {
        assert(c@.take(i + 1).drop_last() =~= c@.take(i as int));
        if c[i] != '\n' {
            out.push(c[i]);
        }
        i = i + 1;
    }
    assert(c@.take(c@.len() as int) =~= c@);
    string_of(out.as_slice())
}

/// A listed file with its base64 content decoded into text where it can be.
pub fn decode_file_content(file: GitHubContent) -> (r: GitHubContent)
    ensures
        (match r.content {
            Some(c) => Some(c@),
            None => None,
        }) == shown_content(
            match file.content {
                Some(c) => Some(c@),
                None => None,
            },
            match file.encoding {
                Some(e) => Some(e@),
                None => None,
            },
        ),
        r.name == file.name,
        r.path == file.path,
        r.sha == file.sha,
        r.size == file.size,
        r.content_type == file.content_type,
        r.download_url == file.download_url,
        r.html_url == file.html_url,
        r.encoding == file.encoding,
        r.url == file.url,
{
    let mut file = file;
    let is_base64 = match &file.encoding {
        Some(e) => text_eq(e.as_str(), "base64"),
        None => false,
    };
    if is_base64 {
        let content = file.content;
        file.content = match content {
            Some(c) => {
                let clean = strip_newlines(c.as_str());
                let decoded = base64_decode(clean.as_str());
                Some(decoded_or_kept(c, decoded))
            },
            None => None,
        };
    }
    file
}

/// The text that decoded bytes encode when they are valid UTF-8, else the
/// content as it was.
pub fn decoded_or_kept(content: String, decoded: Option<Vec<u8>>) -> (r: String)
    ensures
        r@ == match decoded {
            Some(b) => if valid_utf8(b@) {
                decode_utf8(b@)
            } else {
                content@
            },
            None => content@,
        },
{
    match decoded {
        Some(bytes) => match utf8_string(bytes) {
            Some(text) => text,
            None => content,
        },
        None => content,
    }
}

} // verus!
