//! The decisions around saving media and files: the context menu's labels,
//! which URLs may be downloaded, the extension a typed download gets, and
//! decoding the data of a blob.

use base64::Engine;
use vstd::prelude::*;
use vstd::string::{StrSliceExecFns, StringExecFns};

use crate::links::{pairs_view, parse_url, parsed_url, UrlParts, UrlView};
use crate::text::{after_last_slash, contains_text, decimal, decimal_text, has_infix, text_after_last_slash, text_eq};

verus! {

/// The media a context menu was last shown for, kept until the user picks an
/// entry of that menu.
pub struct PendingDownload {
    /// The media's URL.
    pub url: Option<String>,
    /// The media's kind, `image` or `video`.
    pub media_type: Option<String>,
}

impl PendingDownload {
    /// Nothing pending.
    pub fn new() -> (r: Self)
        ensures
            r.url is None,
            r.media_type is None,
    {
        PendingDownload { url: None, media_type: None }
    }

    /// Records the media a context menu is being shown for.
    pub fn remember(&mut self, url: String, media_type: String)
        ensures
            final(self).url == Some(url),
            final(self).media_type == Some(media_type),
    {
        self.url = Some(url);
        self.media_type = Some(media_type);
    }
}

impl Default for PendingDownload {
    fn default() -> (r: Self)
        ensures
            r.url is None,
            r.media_type is None,
    {
        PendingDownload::new()
    }
}

/// The labels of the media context menu's two entries.
pub struct MenuLabels {
    /// The entry that saves the media.
    pub save: String,
    /// The entry that copies the media's URL.
    pub copy: String,
}

/// The labels for media of kind `media_type`: a video is named so, anything
/// else is an image.
pub open spec fn menu_labels_for(media_type: Seq<char>) -> (Seq<char>, Seq<char>) {
    if media_type == "video"@ {
        ("Save Video…"@, "Copy Video URL"@)
    } else {
        ("Save Image…"@, "Copy Image URL"@)
    }
}

/// The context menu's labels for media of kind `media_type`.
pub fn media_menu_labels(media_type: &str) -> (r: MenuLabels)
    ensures
        (r.save@, r.copy@) == menu_labels_for(media_type@),
{
    if text_eq(media_type, "video") {
        MenuLabels { save: "Save Video…".to_owned(), copy: "Copy Video URL".to_owned() }
    } else {
        MenuLabels { save: "Save Image…".to_owned(), copy: "Copy Image URL".to_owned() }
    }
}

/// The message for a download URL that does not parse.
pub open spec fn invalid_url_message(detail: Seq<char>) -> Seq<char> {
    "Invalid URL: "@ + detail
}

/// The message for a download URL whose scheme is not `http` or `https`.
pub open spec fn unsupported_scheme_message(scheme: Seq<char>) -> Seq<char> {
    "Unsupported URL scheme: "@ + scheme
}

/// Checks that `url` may be downloaded: it parses, and its scheme is `http`
/// or `https`.
pub fn check_download_url(url: &str) -> (r: Result<(), String>)
    ensures
        match parsed_url(url@) {
            None => r matches Err(m) && exists|d: Seq<char>| m@ == #[trigger] invalid_url_message(d),
            Some(p) => if p.0 == "http"@ || p.0 == "https"@ {
                r is Ok
            } else {
                r matches Err(m) && m@ == unsupported_scheme_message(p.0)
            },
        },
{
    match parse_url(url) {
        Err(e) => {
            let mut m = "Invalid URL: ".to_owned();
            m.append(e.as_str());
            assert(m@ == invalid_url_message(e@));
            Err(m)
        },
        Ok(p) => {
            if text_eq(p.scheme.as_str(), "http") || text_eq(p.scheme.as_str(), "https") {
                Ok(())
            } else {
                let mut m = "Unsupported URL scheme: ".to_owned();
                m.append(p.scheme.as_str());
                Err(m)
            }
        },
    }
}

/// The extension a download without one gets from its content type; empty
/// where the type says nothing of it. The first matching rule wins.
pub open spec fn extension_for(content_type: Seq<char>) -> Seq<char> {
    let c = content_type;
    if has_infix(c, "image/png"@) {
        ".png"@
    } else if has_infix(c, "image/jpeg"@) || has_infix(c, "image/jpg"@) {
        ".jpg"@
    } else if has_infix(c, "image/gif"@) {
        ".gif"@
    } else if has_infix(c, "image/webp"@) {
        ".webp"@
    } else if has_infix(c, "image/svg"@) {
        ".svg"@
    } else if has_infix(c, "video/mp4"@) {
        ".mp4"@
    } else if has_infix(c, "video/webm"@) {
        ".webm"@
    } else if has_infix(c, "video/quicktime"@) {
        ".mov"@
    } else if has_infix(c, "image/"@) {
        ".png"@
    } else if has_infix(c, "video/"@) {
        ".mp4"@
    } else {
        ""@
    }
}

/// The extension a download without one gets from its content type.
pub fn extension_for_content_type(content_type: &str) -> (r: String)
    ensures
        r@ == extension_for(content_type@),
{
    let c = content_type;
    let e = if contains_text(c, "image/png") {
        ".png"
    } else if contains_text(c, "image/jpeg") || contains_text(c, "image/jpg") {
        ".jpg"
    } else if contains_text(c, "image/gif") {
        ".gif"
    } else if contains_text(c, "image/webp") {
        ".webp"
    } else if contains_text(c, "image/svg") {
        ".svg"
    } else if contains_text(c, "video/mp4") {
        ".mp4"
    } else if contains_text(c, "video/webm") {
        ".webm"
    } else if contains_text(c, "video/quicktime") {
        ".mov"
    } else if contains_text(c, "image/") {
        ".png"
    } else if contains_text(c, "video/") {
        ".mp4"
    } else {
        ""
    };
    e.to_owned()
}

/// What the standard base64 engine of the `base64` crate decodes a text to;
/// `None` where the text is not valid base64.
pub uninterp spec fn base64_decoded(text: Seq<char>) -> Option<Seq<u8>>;

/// Relies on `base64::engine::general_purpose::STANDARD.decode`; a failure is
/// handed on as the decode error's text.
#[verifier::external_body]
fn decode_base64(text: &str) -> (r: Result<Vec<u8>, String>)
    ensures
        match r {
            Ok(v) => base64_decoded(text@) == Some(v@),
            Err(_) => base64_decoded(text@) is None,
        },
{
    base64::engine::general_purpose::STANDARD.decode(text).map_err(|e| e.to_string())
}

/// The message for blob data that is not valid base64.
pub open spec fn blob_error_message(detail: Seq<char>) -> Seq<char> {
    "Failed to decode base64: "@ + detail
}

/// Decodes the base64 data of a blob to be saved.
pub fn decode_blob(data: &str) -> (r: Result<Vec<u8>, String>)
    ensures
        match base64_decoded(data@) {
            Some(bytes) => r matches Ok(v) && v@ == bytes,
            None => r matches Err(m) && exists|d: Seq<char>| m@ == #[trigger] blob_error_message(d),
        },
{
    match decode_base64(data) {
        Ok(v) => Ok(v),
        Err(e) => {
            let mut m = "Failed to decode base64: ".to_owned();
            m.append(e.as_str());
            assert(m@ == blob_error_message(e@));
            Err(m)
        },
    }
}

/// What `urlencoding::decode` makes of a percent-encoded text; `None` where
/// the decoded bytes are not UTF-8.
pub uninterp spec fn percent_decoded(text: Seq<char>) -> Option<Seq<char>>;

/// Relies on `urlencoding::decode` to undo percent-encoding.
#[verifier::external_body]
fn percent_decode(text: &str) -> (r: Option<String>)
    ensures
        match r {
            Some(d) => percent_decoded(text@) == Some(d@),
            None => percent_decoded(text@) is None,
        },
{
    urlencoding::decode(text).ok().map(|d| d.into_owned())
}

/// How many image-proxy URLs nested in one another are followed to the URL
/// they wrap.
pub const NESTED_URL_LIMIT: u32 = 8;

/// A path segment that names a file: it is not empty and holds a `.`.
pub open spec fn names_a_file(segment: Seq<char>) -> bool {
    segment.len() > 0 && has_infix(segment, "."@)
}

/// The value of the first query pair named `key`.
pub open spec fn first_value_of(pairs: Seq<(Seq<char>, Seq<char>)>, key: Seq<char>) -> Option<Seq<char>>
    decreases pairs.len(),
{
    if pairs.len() == 0 {
        None
    } else if pairs[0].0 == key {
        Some(pairs[0].1)
    } else {
        first_value_of(pairs.drop_first(), key)
    }
}

proof fn lemma_first_value_skip(pairs: Seq<(Seq<char>, Seq<char>)>, key: Seq<char>, i: int)
    requires
        0 <= i <= pairs.len(),
        forall|j: int| 0 <= j < i ==> pairs[j].0 != key,
    ensures
        first_value_of(pairs, key) == first_value_of(pairs.skip(i), key),
    decreases i,
{
    if i == 0 {
        assert(pairs.skip(0) =~= pairs);
    } else {
        let t = pairs.drop_first();
        assert forall|j: int| 0 <= j < i - 1 implies t[j].0 != key by {
            assert(t[j] == pairs[j + 1]);
        }
        lemma_first_value_skip(t, key, i - 1);
        assert(t.skip(i - 1) =~= pairs.skip(i));
    }
}

/// The file name in a URL's path: its last segment, decoded where it decodes,
/// when it names a file. A path that does not start with `/` has no segments.
pub open spec fn path_filename(path: Seq<char>) -> Option<Seq<char>> {
    let seg = after_last_slash(path);
    if path.len() > 0 && path[0] == '/' && names_a_file(seg) {
        Some(
            match percent_decoded(seg) {
                Some(d) => d,
                None => seg,
            },
        )
    } else {
        None
    }
}

/// The file name for a URL. An image-proxy URL, whose path holds
/// `/_next/image`, names its file through its `url` query parameter: a full
/// URL there is read in turn, up to `depth` more times; else the parameter's
/// last `/` segment is taken when it names a file. Failing that, the URL's own
/// path decides.
pub open spec fn filename_from(u: UrlView, depth: nat) -> Option<Seq<char>>
    decreases depth,
{
    let proxied: Option<Option<Seq<char>>> = if has_infix(u.2, "/_next/image"@) {
        match first_value_of(u.3, "url"@) {
            Some(v) => match percent_decoded(v) {
                Some(d) => match parsed_url(d) {
                    Some(inner) => Some(
                        if depth > 0 {
                            filename_from(inner, (depth - 1) as nat)
                        } else {
                            None
                        },
                    ),
                    None => if names_a_file(after_last_slash(d)) {
                        Some(Some(after_last_slash(d)))
                    } else {
                        None
                    },
                },
                None => None,
            },
            None => None,
        }
    } else {
        None
    };
    match proxied {
        Some(r) => r,
        None => path_filename(u.2),
    }
}

fn first_value_index(pairs: &Vec<(String, String)>, key: &str) -> (r: Option<usize>)
    ensures
        match r {
            Some(i) => i < pairs@.len() && first_value_of(pairs_view(pairs@), key@) == Some(pairs@[i as int].1@),
            None => first_value_of(pairs_view(pairs@), key@) is None,
        },
{
    let ghost q = pairs_view(pairs@);
    let mut i: usize = 0;
    while i < pairs.len()
        invariant
            q == pairs_view(pairs@),
            0 <= i <= pairs@.len(),
            forall|j: int| 0 <= j < i ==> q[j].0 != key@,
        decreases pairs@.len() - i,
    {
        if text_eq(pairs[i].0.as_str(), key) {
            proof {
                lemma_first_value_skip(q, key@, i as int);
                assert(q.skip(i as int)[0] == q[i as int]);
            }
            return Some(i);
        }
        i = i + 1;
    }
    proof {
        lemma_first_value_skip(q, key@, i as int);
        assert(q.skip(i as int).len() == 0);
    }
    None
}

/// The file name in the path `path`.
fn filename_in_path(path: &str) -> (r: Option<String>)
    ensures
        match r {
            Some(f) => path_filename(path@) == Some(f@),
            None => path_filename(path@) is None,
        },
{
    if path.unicode_len() == 0 || path.get_char(0) != '/' {
        return None;
    }
    let seg = text_after_last_slash(path);
    if seg.unicode_len() == 0 || !contains_text(seg, ".") {
        return None;
    }
    match percent_decode(seg) {
        Some(d) => Some(d),
        None => Some(seg.to_owned()),
    }
}

fn filename_from_parts(parts: &UrlParts, depth: u32) -> (r: Option<String>)
    ensures
        match r {
            Some(f) => filename_from(parts@, depth as nat) == Some(f@),
            None => filename_from(parts@, depth as nat) is None,
        },
    decreases depth,
{
    if contains_text(parts.path.as_str(), "/_next/image") {
        match first_value_index(&parts.query, "url") {
            Some(i) => match percent_decode(parts.query[i].1.as_str()) {
                Some(d) => match parse_url(d.as_str()) {
                    Ok(inner) => {
                        if depth > 0 {
                            return filename_from_parts(&inner, depth - 1);
                        } else {
                            return None;
                        }
                    },
                    Err(_) => {
                        let seg = text_after_last_slash(d.as_str());
                        if seg.unicode_len() > 0 && contains_text(seg, ".") {
                            return Some(seg.to_owned());
                        }
                    },
                },
                None => {},
            },
            None => {},
        }
    }
    filename_in_path(parts.path.as_str())
}

/// The file name a download from the URL `parts` is saved under, if the URL
/// names one.
pub fn extract_filename_from_url(parts: &UrlParts) -> (r: Option<String>)
    ensures
        match r {
            Some(f) => filename_from(parts@, NESTED_URL_LIMIT as nat) == Some(f@),
            None => filename_from(parts@, NESTED_URL_LIMIT as nat) is None,
        },
{
    filename_from_parts(parts, NESTED_URL_LIMIT)
}

/// The file name a download from the URL text `url` is saved under, if the
/// text is a URL that names one.
pub fn filename_for_url(url: &str) -> (r: Option<String>)
    ensures
        match r {
            Some(f) => parsed_url(url@) matches Some(u) && filename_from(u, NESTED_URL_LIMIT as nat) == Some(f@),
            None => match parsed_url(url@) {
                Some(u) => filename_from(u, NESTED_URL_LIMIT as nat) is None,
                None => true,
            },
        },
{
    match parse_url(url) {
        Ok(p) => extract_filename_from_url(&p),
        Err(_) => None,
    }
}

/// What `std::path::Path::file_stem` gives for a file name, where it is
/// UTF-8.
pub uninterp spec fn path_stem_of(name: Seq<char>) -> Option<Seq<char>>;

/// What `std::path::Path::extension` gives for a file name, where it is
/// UTF-8.
pub uninterp spec fn path_extension_of(name: Seq<char>) -> Option<Seq<char>>;

/// Relies on `std::path::Path::file_stem`: the file name without its final
/// extension.
#[verifier::external_body]
fn file_stem(name: &str) -> (r: Option<String>)
    ensures
        match r {
            Some(s) => path_stem_of(name@) == Some(s@),
            None => path_stem_of(name@) is None,
        },
{
    std::path::Path::new(name).file_stem().and_then(|s| s.to_str()).map(|s| s.to_string())
}

/// Relies on `std::path::Path::extension`: the file name's final extension,
/// without the `.`.
#[verifier::external_body]
fn file_extension(name: &str) -> (r: Option<String>)
    ensures
        match r {
            Some(e) => path_extension_of(name@) == Some(e@),
            None => path_extension_of(name@) is None,
        },
{
    std::path::Path::new(name).extension().and_then(|s| s.to_str()).map(|s| s.to_string())
}

/// The most numbered names tried for one file before giving up.
pub const MAX_NAME_COUNTER: u64 = 1000;

/// `stem (n).ext`, or `stem (n)` without an extension.
pub open spec fn numbered_name(stem: Seq<char>, ext: Option<Seq<char>>, n: nat) -> Seq<char> {
    match ext {
        Some(e) => stem + " ("@ + decimal(n) + ")."@ + e,
        None => stem + " ("@ + decimal(n) + ")"@,
    }
}

/// The name tried at step `counter` when saving `filename` to a folder that
/// may already hold it: the name itself first, then `stem (1).ext`,
/// `stem (2).ext` and so on, with `download` as the stem where the name has
/// none; nothing after the last numbered name.
pub open spec fn name_candidate(filename: Seq<char>, counter: nat) -> Option<Seq<char>> {
    if counter == 0 {
        Some(filename)
    } else if counter > MAX_NAME_COUNTER {
        None
    } else {
        Some(
            numbered_name(
                match path_stem_of(filename) {
                    Some(s) => s,
                    None => "download"@,
                },
                path_extension_of(filename),
                counter,
            ),
        )
    }
}

/// The message when every numbered name is taken.
pub open spec fn names_exhausted_message() -> Seq<char> {
    "Too many files with same name"@
}

/// The name to try at step `counter` when saving `filename`; the caller moves
/// to the next step while the name is taken. `Err` when every name is taken.
pub fn download_name_candidate(filename: &str, counter: u64) -> (r: Result<String, String>)
    ensures
        match name_candidate(filename@, counter as nat) {
            Some(n) => r matches Ok(c) && c@ == n,
            None => r matches Err(m) && m@ == names_exhausted_message(),
        },
{
    if counter == 0 {
        return Ok(filename.to_owned());
    }
    if counter > MAX_NAME_COUNTER {
        return Err("Too many files with same name".to_owned());
    }
    let mut name = match file_stem(filename) {
        Some(s) => s,
        None => "download".to_owned(),
    };
    name.append(" (");
    name.append(decimal_text(counter).as_str());
    match file_extension(filename) {
        Some(e) => {
            name.append(").");
            name.append(e.as_str());
        },
        None => {
            name.append(")");
        },
    }
    Ok(name)
}

/// The name of a download that names no file of its own, from the seconds
/// since the Unix epoch, or `unknown` where the clock is before it.
pub open spec fn fallback_name(seconds: Option<u64>) -> Seq<char> {
    "download-"@ + match seconds {
        Some(s) => decimal(s as nat),
        None => "unknown"@,
    }
}

/// The name a download is offered under: the one suggested, else the one its
/// URL names, else a name from the time.
pub fn choose_download_name(suggested: Option<String>, from_url: Option<String>, seconds: Option<u64>) -> (r: String)
    ensures
        r@ == match suggested {
            Some(s) => s@,
            None => match from_url {
                Some(u) => u@,
                None => fallback_name(seconds),
            },
        },
{
    match suggested {
        Some(s) => s,
        None => match from_url {
            Some(u) => u,
            None => {
                let mut name = "download-".to_owned();
                match seconds {
                    Some(n) => name.append(decimal_text(n).as_str()),
                    None => name.append("unknown"),
                }
                name
            },
        },
    }
}

/// The file name a download is saved under once its content type is known:
/// a name with no extension gets the one the type gives, where it gives one.
pub open spec fn typed_name(file_name: Seq<char>, content_type: Seq<char>) -> Seq<char> {
    if path_extension_of(file_name) is None && extension_for(content_type).len() > 0 {
        file_name + extension_for(content_type)
    } else {
        file_name
    }
}

/// The file name a download is saved under once its content type is known.
pub fn typed_file_name(file_name: &str, content_type: &str) -> (r: String)
    ensures
        r@ == typed_name(file_name@, content_type@),
{
    let mut name = file_name.to_owned();
    if file_extension(file_name).is_none() {
        let ext = extension_for_content_type(content_type);
        if ext.as_str().unicode_len() > 0 {
            name.append(ext.as_str());
        }
    }
    name
}

} // verus!
