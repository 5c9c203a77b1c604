//! Static file serving (mobile client).

use super::Response;
use vstd::prelude::*;

verus! {

/// The start page.
pub const INDEX_PAGE: &'static str = "index.html";

/// `path` without the slashes it begins with.
pub open spec fn without_leading_slashes(path: Seq<char>) -> Seq<char>
    decreases path.len(),
{
    if path.len() > 0 && path[0] == '/' {
        without_leading_slashes(path.drop_first())
    } else {
        path
    }
}

/// The asset that a request for `uri_path` is first answered with: the path without
/// its leading slashes, or the start page where nothing is left of it.
pub open spec fn asset_path(uri_path: Seq<char>) -> Seq<char> {
    let path = without_leading_slashes(uri_path);
    if path.len() == 0 {
        INDEX_PAGE@
    } else {
        path
    }
}

/// The asset to look for when no other route matches a request for `uri_path`.
pub fn serve_static_fallback(uri_path: &str) -> (path: &str)
    ensures
        path@ == asset_path(uri_path@),
{
    let len = uri_path.unicode_len();
    let mut slashes: usize = 0;
    for c in it: uri_path.chars()
        invariant_except_break
            slashes == it.index(),
        invariant
            it.seq() == uri_path@,
            len == uri_path@.len(),
            forall|i: int| 0 <= i < slashes ==> uri_path@[i] == '/',
        ensures
            slashes <= len,
            forall|i: int| 0 <= i < slashes ==> uri_path@[i] == '/',
            slashes == len || uri_path@[slashes as int] != '/',
    {
        if c != '/' {
            break;
        }
        slashes += 1;
    }
    proof {
        lemma_without_leading_slashes(uri_path@, slashes as int);
    }
    let path = uri_path.substring_char(slashes, len);
    if path.is_empty() {
        INDEX_PAGE
    } else {
        path
    }
}

/// Whether every platform reads the same file extension off `path`: it holds no
/// character that only some of them take for a separator, and does not begin with a
/// slash.
pub open spec fn reads_alike(path: Seq<char>) -> bool {
    &&& !path.contains('\\')
    &&& !path.contains(':')
    &&& !(path.len() > 0 && path[0] == '/')
}

/// The media type that `mime_guess` gives for a path.
pub uninterp spec fn guessed_mime(path: Seq<char>) -> Seq<char>;

/// `mime_guess::from_path` and `first_or_octet_stream`: the media type that goes with
/// the file extension of `path`. Claimed: it depends on the path alone, where every
/// platform reads the same extension off the path, and it is that of arbitrary bytes
/// where the path holds no dot and so no extension. Of other paths nothing is
/// claimed: what their extension is rests on the platform.
#[verifier::external_body]
fn guess_mime(path: &str) -> (mime: String)
    ensures
        reads_alike(path@) ==> mime@ == guessed_mime(path@),
        !path@.contains('.') ==> mime@ == "application/octet-stream"@,
{
    mime_guess::from_path(path).first_or_octet_stream().as_ref().to_string()
}

/// Whether `mime` may be the media type that is guessed for `path`, on whichever
/// platform.
pub closed spec fn mime_read(path: &str, mime: Seq<char>) -> bool {
    exists|guess: String| #[trigger] call_ensures(guess_mime, (path,), guess) && guess@ == mime
}

/// Whether `response` answers a request for an asset: with the asset, as the media
/// type `mime`, or else with the start page, or else with "Not found".
pub open spec fn responds(
    mime: Seq<char>,
    asset: Option<Vec<u8>>,
    index: Option<Vec<u8>>,
    response: Response,
) -> bool {
    match (asset, index) {
        (Some(data), _) => response.is_file(mime, data@),
        // SPA fallback: serve the start page for unmatched routes
        (None, Some(page)) => response.is_file("text/html"@, page@),
        (None, None) => response.is_text(404, "Not found"@),
    }
}

/// The response to a request for an asset. `asset` is the asset itself and `index`
/// the start page, where they are there; `mime` is the media type that goes with the
/// asset's path.
pub fn embedded_response(
    mime: String,
    asset: Option<Vec<u8>>,
    index: Option<Vec<u8>>,
) -> (response: Response)
    ensures
        responds(mime@, asset, index, response),
{
    match asset {
        Some(data) => Response::File { content_type: mime, data },
        None => match index {
            Some(data) => Response::File { content_type: "text/html".to_string(), data },
            None => Response::Text { status: 404, body: "Not found".to_string() },
        },
    }
}

/// The response to a request for the asset at `path`. `asset` is that asset and
/// `index` the start page, where they are there; the start page is only needed where
/// the asset is not.
pub fn serve_embedded_file(
    path: &str,
    asset: Option<Vec<u8>>,
    index: Option<Vec<u8>>,
) -> (response: Response)
    ensures
        exists|mime: Seq<char>| #[trigger]
            mime_read(path, mime) && responds(mime, asset, index, response),
        reads_alike(path@) ==> responds(guessed_mime(path@), asset, index, response),
        !path@.contains('.') ==> responds("application/octet-stream"@, asset, index, response),
{
    let mime = guess_mime(path);
    let ghost guessed = mime@;
    let response = embedded_response(mime, asset, index);
    assert(mime_read(path, guessed));
    response
}

proof fn lemma_without_leading_slashes(path: Seq<char>, k: int)
    requires
        0 <= k <= path.len(),
        forall|i: int| 0 <= i < k ==> path[i] == '/',
        k == path.len() || path[k] != '/',
    ensures
        without_leading_slashes(path) == path.subrange(k, path.len() as int),
    decreases path.len(),
{
    if k == 0 {
        assert(path.subrange(0, path.len() as int) =~= path);
    } else {
        let rest = path.drop_first();
        assert forall|i: int| 0 <= i < k - 1 implies rest[i] == '/' by {
            assert(rest[i] == path[i + 1]);
        }
        if k < path.len() {
            assert(rest[k - 1] == path[k]);
        }
        lemma_without_leading_slashes(rest, k - 1);
        assert(rest.subrange(k - 1, rest.len() as int) =~= path.subrange(k, path.len() as int));
    }
}

/// The asset that is looked for always has a name, and the name does not begin with
/// a slash.
pub proof fn law_asset_path_is_relative(uri_path: Seq<char>)
    ensures
        asset_path(uri_path).len() > 0,
        asset_path(uri_path)[0] != '/',
    decreases uri_path.len(),
{
    reveal_strlit("index.html");
    if uri_path.len() > 0 && uri_path[0] == '/' {
        law_asset_path_is_relative(uri_path.drop_first());
    }
}

/// A path that is relative already is looked for as it stands, so looking for an
/// asset by the path it was found under finds it again.
pub proof fn law_asset_path_is_stable(uri_path: Seq<char>)
    ensures
        asset_path(asset_path(uri_path)) == asset_path(uri_path),
{
    law_asset_path_is_relative(uri_path);
}

/// Where there is a start page, no request is answered with "Not found": routes that
/// match no asset get the start page.
pub proof fn law_unmatched_routes_get_the_start_page(
    mime: Seq<char>,
    asset: Option<Vec<u8>>,
    page: Vec<u8>,
    response: Response,
)
    requires
        responds(mime, asset, Some(page), response),
    ensures
        response is File,
        asset is None ==> response.is_file("text/html"@, page@),
{
}

/// Leading slashes do not change what is served.
pub proof fn law_leading_slashes_do_not_count(uri_path: Seq<char>)
    ensures
        asset_path(seq!['/'] + uri_path) == asset_path(uri_path),
{
    assert((seq!['/'] + uri_path).drop_first() =~= uri_path);
}

/// What is looked for is what follows the leading slashes, whatever its length and its
/// characters; where nothing follows them, the start page.
pub proof fn law_path_is_looked_for_as_it_stands(uri_path: &str, path: &str, slashes: int)
    requires
        call_ensures(serve_static_fallback, (uri_path,), path),
        0 <= slashes <= uri_path@.len(),
        forall|i: int| 0 <= i < slashes ==> uri_path@[i] == '/',
        slashes < uri_path@.len() ==> uri_path@[slashes] != '/',
    ensures
        slashes == uri_path@.len() ==> path@ == "index.html"@,
        slashes < uri_path@.len() ==> path@.len() == uri_path@.len() - slashes && forall|i: int|
            0 <= i < path@.len() ==> #[trigger] path@[i] == uri_path@[slashes + i],
{
    lemma_without_leading_slashes(uri_path@, slashes);
}

/// A path that is not empty and does not begin with a slash is its own asset path, and
/// one that holds slashes only leads to the start page.
pub proof fn law_relative_path_is_its_own_asset(path: Seq<char>)
    ensures
        path.len() > 0 && path[0] != '/' ==> asset_path(path) == path,
        (forall|i: int| 0 <= i < path.len() ==> path[i] == '/') ==> asset_path(path)
            == "index.html"@,
{
    if forall|i: int| 0 <= i < path.len() ==> path[i] == '/' {
        lemma_without_leading_slashes(path, path.len() as int);
    }
}

/// An asset that is there is served byte for byte, under the media type that goes with
/// it; one that is not is answered with the start page, byte for byte, as HTML; and
/// only where that is missing too, with status 404.
pub proof fn law_asset_is_served_byte_for_byte(
    mime: String,
    asset: Option<Vec<u8>>,
    index: Option<Vec<u8>>,
    response: Response,
)
    requires
        call_ensures(embedded_response, (mime, asset, index), response),
    ensures
        asset is Some ==> (response matches Response::File { content_type, data } && content_type@
            == mime@ && data@ == asset->0@),
        asset is None && index is Some ==> (response matches Response::File { content_type, data }
            && content_type@ == "text/html"@ && data@ == index->0@),
        asset is None && index is None ==> (response matches Response::Text { status, body }
            && status == 404 && body@ == "Not found"@),
{
}

/// An asset is served under a media type that was guessed for its own path: the guess
/// that every platform makes, where they read the path alike, and that of arbitrary
/// bytes where it has no extension. The bytes are those of the asset, and of the start
/// page where there is no asset.
pub proof fn law_media_type_is_that_of_the_path(
    path: &str,
    asset: Option<Vec<u8>>,
    index: Option<Vec<u8>>,
    response: Response,
)
    requires
        call_ensures(serve_embedded_file, (path, asset, index), response),
    ensures
        asset is Some ==> (response matches Response::File { content_type, data } && data@
            == asset->0@ && mime_read(path, content_type@)),
        asset is Some && path@.len() > 0 && path@[0] != '/' && !path@.contains('\\')
            && !path@.contains(':') ==> (response matches Response::File { content_type, .. }
            && content_type@ == guessed_mime(path@)),
        asset is Some && !path@.contains('.') ==> (
        response matches Response::File { content_type, .. } && content_type@
            == "application/octet-stream"@),
        asset is None && index is Some ==> (response matches Response::File { content_type, data }
            && content_type@ == "text/html"@ && data@ == index->0@),
        asset is None && index is None ==> (response matches Response::Text { status, body }
            && status == 404 && body@ == "Not found"@),
{
}

} // verus!
