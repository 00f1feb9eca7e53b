//! The reference under which the recognition service fetches a stored image.

use vstd::prelude::*;
use crate::keys::{file_name, file_name_spec, ArtifactKind};
use vstd::string::StrSliceExecFns;

verus! {

/// The URL made by parsing `base` and appending `segments` to its path
/// (an empty trailing segment of `base` dropped first), or `None` when
/// `base` does not parse or cannot be a base.
pub uninterp spec fn url_with_segments(base: Seq<char>, segments: Seq<Seq<char>>) -> Option<Seq<char>>;

/// The total number of characters of `segments`.
pub open spec fn total_chars(segments: Seq<Seq<char>>) -> nat
    decreases segments.len(),
{
    if segments.len() == 0 {
        0
    } else {
        total_chars(segments.drop_last()) + segments.last().len()
    }
}

/// A bound on the serialized length in bytes of `base` with `segments`
/// appended: a character takes at most four bytes, each at most three once
/// percent-encoded, and each segment adds one separator.
pub open spec fn url_size_bound(base: Seq<char>, segments: Seq<Seq<char>>) -> nat {
    12 * (base.len() + total_chars(segments)) + segments.len() + 64
}

/// The url crate keeps offsets into a serialized URL as `u32`, and its path
/// editor panics past `u32::MAX` bytes.
pub open spec fn url_len_limit() -> nat {
    0xffff_ffff
}

/// Relies on url::Url::parse, Url::path_segments_mut, PathSegmentsMut::pop_if_empty,
/// PathSegmentsMut::extend and Url's Display: the serialized URL with the
/// segments appended, percent-encoded; `None` on a parse error or a
/// cannot-be-a-base URL. The bound keeps the result under the `u32` offsets
/// that the path editor unwraps when it is dropped.
#[verifier::external_body]
fn append_url_segments(base: &str, segments: &Vec<String>) -> (r: Option<String>)
    requires
        url_size_bound(base@, segments.deep_view()) <= url_len_limit(),
    ensures
        match url_with_segments(base@, segments.deep_view()) {
            Some(u) => r matches Some(s) && s@ == u,
            None => r is None,
        },
{
    let mut url = url::Url::parse(base).ok()?;
    url.path_segments_mut().ok()?.pop_if_empty().extend(segments.iter());
    Some(url.to_string())
}

/// The path segments of a page image's reference: bucket, document hash, file name.
pub open spec fn image_segments(bucket: Seq<char>, hash: Seq<char>, page: nat) -> Seq<Seq<char>> {
    seq![bucket, hash, file_name_spec(page, ArtifactKind::Image)]
}

/// Whether the reference of a page image fits the url crate's limit.
pub open spec fn image_reference_fits(endpoint: Seq<char>, bucket: Seq<char>, hash: Seq<char>, page: nat) -> bool {
    url_size_bound(endpoint, image_segments(bucket, hash, page)) <= url_len_limit()
}

/// The reference `{endpoint}/{bucket}/{hash}/{page}.jpg` of a stored page image,
/// or `None` when it cannot be built from `endpoint` or would be too long.
pub fn image_reference(endpoint: &str, bucket: &str, hash: &str, page: usize) -> (r: Option<String>)
    ensures
        !image_reference_fits(endpoint@, bucket@, hash@, page as nat) ==> r is None,
        image_reference_fits(endpoint@, bucket@, hash@, page as nat) ==> match url_with_segments(
            endpoint@,
            image_segments(bucket@, hash@, page as nat),
        ) {
            Some(u) => r matches Some(s) && s@ == u,
            None => r is None,
        },
{
    let mut segments: Vec<String> = Vec::new();
    segments.push(String::from_str(bucket));
    segments.push(String::from_str(hash));
    let name = file_name(page, ArtifactKind::Image);
    let name_len = name.as_str().unicode_len();
    segments.push(name);
    assert(segments.deep_view() =~= image_segments(bucket@, hash@, page as nat));
    let ghost segs = segments.deep_view();
    assert(total_chars(segs) == bucket@.len() + hash@.len() + name_len) by {
        let s2 = segs.drop_last();
        let s1 = s2.drop_last();
        assert(s2 =~= seq![bucket@, hash@]);
        assert(s1 =~= seq![bucket@]);
        assert(s1.drop_last() =~= Seq::<Seq<char>>::empty());
        assert(total_chars(s1) == total_chars(s1.drop_last()) + s1.last().len());
        assert(total_chars(s2) == total_chars(s1) + s2.last().len());
        assert(total_chars(segs) == total_chars(s2) + segs.last().len());
    }
    let limit: u64 = 0xffff_ffff;
    let e = endpoint.unicode_len();
    let b = bucket.unicode_len();
    let h = hash.unicode_len();
    if e as u64 > limit || b as u64 > limit || h as u64 > limit || name_len as u64 > limit {
        return None;
    }
    let chars: u64 = e as u64 + b as u64 + h as u64 + name_len as u64;
    if 12 * chars + 3 + 64 > limit {
        return None;
    }
    append_url_segments(endpoint, &segments)
}

} // verus!
