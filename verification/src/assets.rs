use vstd::prelude::*;
use vstd::utf8::encode_utf8;
use vstd::string::StrSliceExecFns;

verus! {

/// The path, among the embedded web assets, of the file that a request for
/// `path` serves: `dist/index.html` for the empty path, else `dist/<path>`.
pub open spec fn asset_path(path: Seq<char>) -> Seq<char> {
    if path.len() == 0 {
        "dist/"@ + "index.html"@
    } else {
        "dist/"@ + path
    }
}

/// The embedded asset that a request for `path` serves: the file at `path`
/// under `dist/`, and the index page for the empty path only.
pub fn dist(path: &str) -> (p: String)
    ensures
        p@ == asset_path(path@),
        path@.len() == 0 ==> p@ == "dist/index.html"@,
        path@.len() > 0 ==> p@ == "dist/"@ + path@,
        path@.len() > 0 ==> p@.len() == 5 + path@.len() && p@.subrange(5, p@.len() as int) == path@,
{
    let mut p = String::from_str("dist/");
    if path.is_empty() {
        p.append("index.html");
    } else {
        p.append(path);
    }
    proof {
        reveal_strlit("dist/");
        reveal_strlit("index.html");
        reveal_strlit("dist/index.html");
        if path@.len() > 0 {
            assert(p@.subrange(5, p@.len() as int) =~= path@);
        } else {
            assert(p@ =~= "dist/index.html"@);
        }
    }
    p
}

/// A non-empty request path is served from `dist/` followed by that very
/// path, so different non-empty paths serve different files; only the empty
/// path serves the index page.
pub proof fn law_asset_path(path: Seq<char>, other: Seq<char>)
    ensures
        path.len() == 0 ==> asset_path(path) == "dist/index.html"@,
        path.len() > 0 ==> asset_path(path) == "dist/"@ + path,
        path.len() > 0 ==> asset_path(path).len() == 5 + path.len()
            && asset_path(path).subrange(5, asset_path(path).len() as int) == path,
        path.len() > 0 && other.len() > 0 && asset_path(path) == asset_path(other) ==> path == other,
{
    reveal_strlit("dist/");
    reveal_strlit("index.html");
    reveal_strlit("dist/index.html");
    assert(("dist/"@ + "index.html"@) =~= "dist/index.html"@);
    if path.len() > 0 {
        assert(asset_path(path).subrange(5, asset_path(path).len() as int) =~= path);
        if other.len() > 0 && asset_path(path) == asset_path(other) {
            assert(asset_path(other).subrange(5, asset_path(other).len() as int) =~= other);
        }
    }
}

/// The MIME type that `mime_guess` guesses for `path` from its extension,
/// `application/octet-stream` when it knows none.
pub uninterp spec fn guessed_mime_type(path: Seq<char>) -> Seq<char>;

/// `mime_guess::from_path(path).first_or_octet_stream()`, as text. The guess
/// goes by the extension of the path (`Path::extension`), so a path without a
/// `.` has none and gets `application/octet-stream`; other guesses are named.
#[verifier::external_body]
fn mime_type_for(path: &str) -> (m: String)
    ensures
        m@ == guessed_mime_type(path@),
        !path@.contains('.') ==> m@ == "application/octet-stream"@,
{
    mime_guess::from_path(path).first_or_octet_stream().as_ref().to_string()
}

/// Whether an asset request was answered with the file or found nothing.
#[derive(PartialEq, Eq, Structural)]
pub enum AssetStatus {
    Found,
    NotFound,
}

/// The answer to a request for an embedded asset.
pub struct AssetResponse {
    pub status: AssetStatus,
    pub content_type: Option<String>,
    pub body: Vec<u8>,
}

/// The answer to a request for the embedded file at `path` whose content (if
/// there is such a file) is `content`: the file with the MIME type guessed
/// from its path, or "File not found".
pub fn asset_response(path: &str, content: Option<Vec<u8>>) -> (r: AssetResponse)
    ensures
        match content {
            Some(bytes) => {
                &&& r.status == AssetStatus::Found
                &&& r.content_type matches Some(t) && t@ == guessed_mime_type(path@)
                &&& r.body@ == bytes@
            },
            None => {
                &&& r.status == AssetStatus::NotFound
                &&& r.content_type is None
                &&& r.body@ == encode_utf8("File not found"@)
            },
        },
{
    match content {
        Some(bytes) => AssetResponse {
            status: AssetStatus::Found,
            content_type: Some(mime_type_for(path)),
            body: bytes,
        },
        None => {
            let text = "File not found";
            AssetResponse {
                status: AssetStatus::NotFound,
                content_type: None,
                body: text.as_bytes_vec(),
            }
        },
    }
}

} // verus!
