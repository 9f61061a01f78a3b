//! Naming of a downloaded wallpaper file after the image's URL.

use vstd::prelude::*;

use crate::text::{
    after_last_char, after_last_char_of, before_char, before_char_of, before_seq, before_seq_of,
    chars_of, contains_seq, lemma_after_last_char, lemma_before_char, lemma_before_seq, copy_range, ends_with, ends_with_chars, find_seq, first_occurrence_at,
    lemma_first_occurrence_unique, occurs_at, string_from_chars,
};

verus! {

/// What std's `str::to_lowercase` returns for `s` (Unicode lower-casing).
pub uninterp spec fn lowercase(s: Seq<char>) -> Seq<char>;

/// std's `str::to_lowercase`: the claim is only that the result is a
/// function of the argument's characters, named `lowercase`.
#[verifier::external_body]
fn to_lowercase(s: &str) -> (r: String)
    ensures
        r@ == lowercase(s@),
{
    s.to_lowercase()
}

/// `bing.com`
pub open spec fn bing_host() -> Seq<char> {
    seq!['b', 'i', 'n', 'g', '.', 'c', 'o', 'm']
}

/// `id=`
pub open spec fn id_marker() -> Seq<char> {
    seq!['i', 'd', '=']
}

/// `.jpg`
pub open spec fn jpg_suffix() -> Seq<char> {
    seq!['.', 'j', 'p', 'g']
}

/// The endings that mark a file name as an image: `jpg`, `png`, `jpeg`,
/// `webp` (no dot required).
pub open spec fn has_image_extension(lowered: Seq<char>) -> bool {
    ||| ends_with(lowered, seq!['j', 'p', 'g'])
    ||| ends_with(lowered, seq!['p', 'n', 'g'])
    ||| ends_with(lowered, seq!['j', 'p', 'e', 'g'])
    ||| ends_with(lowered, seq!['w', 'e', 'b', 'p'])
}

/// The part of `s` after the first occurrence of `p`
/// (empty when `p` does not occur).
pub open spec fn after_first_seq(s: Seq<char>, p: Seq<char>) -> Seq<char> {
    if exists|i: int| first_occurrence_at(s, p, i) {
        s.skip((choose|i: int| first_occurrence_at(s, p, i)) + p.len())
    } else {
        Seq::empty()
    }
}

/// The last path segment of the URL without its query:
/// the text after the last `/` of the text before the first `?`.
pub open spec fn url_base_name(url: Seq<char>) -> Seq<char> {
    after_last_char(before_char(url, '?'), '/')
}

/// Whether the URL is a Bing image URL that carries an `id=` parameter.
pub open spec fn is_bing_id_url(url: Seq<char>) -> bool {
    contains_seq(url, bing_host()) && contains_seq(url, id_marker())
}

/// For a Bing image URL: the text after the first `id=`, up to the next
/// `id=` and then up to the first `&`.
pub open spec fn bing_image_id(url: Seq<char>) -> Seq<char> {
    before_char(before_seq(after_first_seq(url, id_marker()), id_marker()), '&')
}

/// The file name before any extension is added.
pub open spec fn file_stem(url: Seq<char>) -> Seq<char> {
    if is_bing_id_url(url) {
        bing_image_id(url)
    } else {
        url_base_name(url)
    }
}

/// `name` kept when its lower-cased form `lowered` ends in an image
/// extension, else `name` with `.jpg` appended.
pub open spec fn with_image_extension(name: Seq<char>, lowered: Seq<char>) -> Seq<char> {
    if has_image_extension(lowered) {
        name
    } else {
        name + jpg_suffix()
    }
}

/// The file name under which an image downloaded from `url` is saved.
pub open spec fn file_name(url: Seq<char>) -> Seq<char> {
    with_image_extension(file_stem(url), lowercase(file_stem(url)))
}

/// Gives `name` the `.jpg` extension unless `lowered`, its lower-cased form,
/// already ends in `jpg`, `png`, `jpeg` or `webp`.
pub fn add_image_extension(name: &str, lowered: &str) -> (r: String)
    ensures
        r@ == with_image_extension(name@, lowered@),
{
    let low = chars_of(lowered);
    let known = ends_with_chars(&low, &vec!['j', 'p', 'g'])
        || ends_with_chars(&low, &vec!['p', 'n', 'g'])
        || ends_with_chars(&low, &vec!['j', 'p', 'e', 'g'])
        || ends_with_chars(&low, &vec!['w', 'e', 'b', 'p']);
    let mut out = chars_of(name);
    if !known {
        out.push('.');
        out.push('j');
        out.push('p');
        out.push('g');
        assert(out@ =~= name@ + jpg_suffix());
    }
    string_from_chars(out.as_slice())
}

/// The stem of the file name for an image at `url`: for a Bing URL with an
/// `id=` parameter the image id, otherwise the last path segment.
pub fn file_stem_of(url: &str) -> (r: Vec<char>)
    ensures
        r@ == file_stem(url@),
{
    let u = chars_of(url);
    let host = vec!['b', 'i', 'n', 'g', '.', 'c', 'o', 'm'];
    let marker = vec!['i', 'd', '='];
    assert(host@ =~= bing_host());
    assert(marker@ =~= id_marker());
    let host_at = find_seq(&u, &host);
    let marker_at = find_seq(&u, &marker);
    match (host_at, marker_at) {
        (Some(h), Some(m)) => {
            proof {
                let k = choose|k: int| first_occurrence_at(u@, marker@, k);
                lemma_first_occurrence_unique(u@, marker@, m as int, k);
                assert(occurs_at(u@, host@, h as int));
                assert(occurs_at(u@, marker@, m as int));
            }
            assert(m + 3 <= u.len());
            let rest = copy_range(&u, m + 3, u.len());
            assert(rest@ =~= after_first_seq(u@, id_marker()));
            let piece = before_seq_of(&rest, &marker);
            before_char_of(&piece, '&')
        },
        _ => {
            let path = before_char_of(&u, '?');
            after_last_char_of(&path, '/')
        },
    }
}

/// The file name under which the wallpaper at `image_url` is saved.
pub fn file_name_for(image_url: &str) -> (r: String)
    ensures
        r@ == file_name(image_url@),
{
    let stem = file_stem_of(image_url);
    let stem_text = string_from_chars(stem.as_slice());
    let lowered = to_lowercase(stem_text.as_str());
    add_image_extension(stem_text.as_str(), lowered.as_str())
}

/// Every saved file name ends in an image extension: either its lower-cased
/// form ends in `jpg`, `png`, `jpeg` or `webp`, or it ends in `.jpg`.
pub proof fn lemma_file_name_is_image(url: Seq<char>)
    ensures
        has_image_extension(lowercase(file_name(url))) || ends_with(file_name(url), jpg_suffix()),
{
    let stem = file_stem(url);
    if !has_image_extension(lowercase(stem)) {
        assert((stem + jpg_suffix()).skip((stem + jpg_suffix()).len() - 4) =~= jpg_suffix());
    }
}

/// The saved name is the stem itself when its lower-cased form ends in
/// `jpg`, `png`, `jpeg` or `webp`, and the stem followed by `.jpg` otherwise.
pub proof fn lemma_file_name_extension(url: Seq<char>)
    ensures
        ({
            let lowered = lowercase(file_stem(url));
            ends_with(lowered, seq!['j', 'p', 'g']) || ends_with(lowered, seq!['p', 'n', 'g'])
                || ends_with(lowered, seq!['j', 'p', 'e', 'g']) || ends_with(
                lowered,
                seq!['w', 'e', 'b', 'p'],
            )
        }) ==> file_name(url) == file_stem(url),
        !({
            let lowered = lowercase(file_stem(url));
            ends_with(lowered, seq!['j', 'p', 'g']) || ends_with(lowered, seq!['p', 'n', 'g'])
                || ends_with(lowered, seq!['j', 'p', 'e', 'g']) || ends_with(
                lowered,
                seq!['w', 'e', 'b', 'p'],
            )
        }) ==> file_name(url) == file_stem(url) + seq!['.', 'j', 'p', 'g'],
{
}

/// `stem` stands in `url` from position `head_len`; the text before it holds
/// no `?` and is empty or ends in `/`; and it is followed by the end of the
/// URL or by a `?`.
pub open spec fn last_segment_at(url: Seq<char>, stem: Seq<char>, head_len: int) -> bool {
    &&& 0 <= head_len
    &&& head_len + stem.len() <= url.len()
    &&& url.subrange(head_len, head_len + stem.len()) == stem
    &&& forall|j: int| 0 <= j < head_len ==> url[j] != '?'
    &&& (head_len == 0 || url[head_len - 1] == '/')
    &&& (head_len + stem.len() == url.len() || url[head_len + stem.len()] == '?')
}

/// For any URL other than a Bing URL with an `id=`, the stem is the last
/// path segment before the query: it holds no `/` and no `?`; the text
/// before it holds no `?` and is empty or ends in `/`; and it is followed by
/// the end of the URL or by a `?`.
pub proof fn lemma_plain_stem(url: Seq<char>)
    requires
        !is_bing_id_url(url),
    ensures
        forall|j: int|
            0 <= j < file_stem(url).len() ==> file_stem(url)[j] != '/' && file_stem(url)[j] != '?',
        exists|head_len: int| #[trigger] last_segment_at(url, file_stem(url), head_len),
{
    let path = before_char(url, '?');
    let stem = after_last_char(path, '/');
    lemma_before_char(url, '?');
    lemma_after_last_char(path, '/');
    let head_len = path.len() - stem.len();
    assert forall|j: int| 0 <= j < stem.len() implies stem[j] != '/' && stem[j] != '?' by {
        assert(stem[j] == path[head_len + j]);
        assert(path[head_len + j] == url[head_len + j]);
    }
    assert(url.subrange(head_len, head_len + stem.len()) =~= stem);
    assert forall|j: int| 0 <= j < head_len implies url[j] != '?' by {
        assert(path[j] == url[j]);
    }
    if head_len != 0 {
        assert(exists|i: int| 0 <= i < path.len() && path[i] == '/');
        assert(path[head_len - 1] == url[head_len - 1]);
    }
    if head_len + stem.len() != url.len() {
        assert(exists|i: int| 0 <= i < url.len() && url[i] == '?');
    }
    assert(file_stem(url) == stem);
    assert(last_segment_at(url, stem, head_len));
}

/// The first `id=` of `url` starts at `i`, `stem` stands directly after it,
/// and no `id=` starts inside `stem`.
pub open spec fn id_text_at(url: Seq<char>, stem: Seq<char>, i: int) -> bool {
    &&& first_occurrence_at(url, seq!['i', 'd', '='], i)
    &&& i + 3 + stem.len() <= url.len()
    &&& url.subrange(i + 3, i + 3 + stem.len()) == stem
    &&& forall|j: int|
        i + 3 <= j < i + 3 + stem.len() ==> !occurs_at(url, seq!['i', 'd', '='], j)
}

/// For a Bing URL with an `id=`, the stem is the text right after the first
/// `id=`, up to (not including) the next `id=` or `&`: it holds no `&`, it
/// starts directly after the first `id=`, and no `id=` starts inside it.
pub proof fn lemma_bing_stem(url: Seq<char>)
    requires
        is_bing_id_url(url),
    ensures
        forall|j: int| 0 <= j < file_stem(url).len() ==> file_stem(url)[j] != '&',
        exists|i: int| #[trigger] id_text_at(url, file_stem(url), i),
{
    let marker = id_marker();
    assert(marker =~= seq!['i', 'd', '=']);
    let w = choose|i: int| occurs_at(url, marker, i);
    crate::text::lemma_some_first_occurrence(url, marker, w);
    let i = choose|i: int| first_occurrence_at(url, marker, i);
    let rest = after_first_seq(url, marker);
    assert(rest == url.skip(i + 3));
    let piece = before_seq(rest, marker);
    lemma_before_seq(rest, marker);
    let stem = before_char(piece, '&');
    lemma_before_char(piece, '&');
    assert(file_stem(url) == stem);
    assert(url.subrange(i + 3, i + 3 + stem.len()) =~= stem) by {
        assert forall|j: int| 0 <= j < stem.len() implies url[i + 3 + j] == stem[j] by {
            assert(stem[j] == piece[j]);
            assert(piece[j] == rest[j]);
        }
    }
    assert forall|j: int| i + 3 <= j < i + 3 + stem.len() implies !occurs_at(url, marker, j) by {
        let k = j - (i + 3);
        assert(!occurs_at(rest, marker, k));
        if occurs_at(url, marker, j) {
            assert(rest.subrange(k, k + 3) =~= url.subrange(j, j + 3));
        }
    }
    assert(id_text_at(url, stem, i));
}

} // verus!
