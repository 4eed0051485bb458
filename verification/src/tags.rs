use vstd::prelude::*;
use vstd::utf8::encode_utf8;

verus! {

/// Most bytes a single capability tag may occupy in its UTF-8 encoding,
/// the per-tag slice of the record-size budget.
pub const MAX_TAG_BYTES: usize = 40;

/// The tag's UTF-8 encoding fits the per-tag byte budget.
pub open spec fn tag_within_bound(tag: Seq<char>) -> bool {
    encode_utf8(tag).len() <= MAX_TAG_BYTES
}

/// Every tag of the list fits the per-tag byte budget.
pub open spec fn tags_within_bounds(tags: Seq<Seq<char>>) -> bool {
    forall|i: int| 0 <= i < tags.len() ==> tag_within_bound(tags[i])
}

/// The tag list holds this exact tag.
pub open spec fn tag_list_contains(tags: Seq<Seq<char>>, tag: Seq<char>) -> bool {
    exists|i: int| 0 <= i < tags.len() && tags[i] == tag
}

/// Every required tag occurs in the offered list: the offered tags form
/// a superset of the required set. Matching is exact, all-of-them.
pub open spec fn covers_all_tags(offered: Seq<Seq<char>>, required: Seq<Seq<char>>) -> bool {
    forall|i: int| 0 <= i < required.len() ==> tag_list_contains(offered, required[i])
}

/// Runtime check that one tag fits the byte budget.
pub fn tag_fits(tag: &String) -> (fits: bool)
    ensures
        fits == tag_within_bound(tag@),
{
    let bytes: &[u8] = tag.as_str().as_bytes();
    proof {
        broadcast use vstd::slice::axiom_spec_len;
    }
    bytes.len() <= MAX_TAG_BYTES
}

/// Runtime check that every tag of the list fits the byte budget.
pub fn all_tags_fit(tags: &Vec<String>) -> (fit: bool)
    ensures
        fit == tags_within_bounds(tags.deep_view()),
{
    let n: usize = tags.len();
    let mut i: usize = 0;
    while i < n
        invariant
            n == tags@.len(),
            i <= n,
            forall|j: int| 0 <= j < i ==> tag_within_bound(tags.deep_view()[j]),
        decreases n - i,
    {
        if !tag_fits(&tags[i]) {
            assert(!tag_within_bound(tags.deep_view()[i as int]));
            return false;
        }
        i += 1;
    }
    true
}

/// Linear scan deciding whether `tag` occurs in `tags`.
pub fn list_contains_tag(tags: &Vec<String>, tag: &String) -> (found: bool)
    ensures
        found == tag_list_contains(tags.deep_view(), tag@),
{
    let n: usize = tags.len();
    let mut i: usize = 0;
    while i < n
        invariant
            n == tags@.len(),
            i <= n,
            forall|j: int| 0 <= j < i ==> tags.deep_view()[j] != tag@,
        decreases n - i,
    {
        if tags[i] == *tag {
            assert(tags.deep_view()[i as int] == tag@);
            return true;
        }
        i += 1;
    }
    false
}

/// Runtime check that the offered tags cover every required tag.
pub fn covers_required_tags(offered: &Vec<String>, required: &Vec<String>) -> (covers: bool)
    ensures
        covers == covers_all_tags(offered.deep_view(), required.deep_view()),
{
    let n: usize = required.len();
    let mut i: usize = 0;
    while i < n
        invariant
            n == required@.len(),
            i <= n,
            forall|j: int| 0 <= j < i ==> tag_list_contains(
                offered.deep_view(),
                required.deep_view()[j],
            ),
        decreases n - i,
    {
        if !list_contains_tag(offered, &required[i]) {
            assert(!tag_list_contains(offered.deep_view(), required.deep_view()[i as int]));
            return false;
        }
        i += 1;
    }
    true
}

} // verus!
