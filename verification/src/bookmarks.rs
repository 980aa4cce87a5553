//! Bookmarks and the tag filter: case-insensitive substring matching and
//! the cyclic search for the next bookmark the filter admits.

use vstd::prelude::*;

verus! {

/// A known frequency with its tags, supplied by the caller; the engine only
/// filters and iterates bookmarks, it never stores them elsewhere.
pub struct Bookmark {
    /// Frequency in Hz.
    pub freq: u64,
    /// Tags as byte strings; matching folds ASCII case.
    pub tags: Vec<Vec<u8>>,
}

/// ASCII case folding of one byte.
pub open spec fn lower_byte_spec(b: u8) -> u8 {
    if 65 <= b <= 90 {
        (b + 32) as u8
    } else {
        b
    }
}

/// ASCII case folding of one byte.
pub fn lower_byte(b: u8) -> (r: u8)
    ensures
        r == lower_byte_spec(b),
{
    if 65 <= b && b <= 90 {
        b + 32
    } else {
        b
    }
}

/// `needle` occurs in `hay` at offset `k`, comparing bytes case-folded.
pub open spec fn ci_match_at(hay: Seq<u8>, needle: Seq<u8>, k: int) -> bool {
    &&& 0 <= k
    &&& k + needle.len() <= hay.len()
    &&& forall|i: int|
        0 <= i < needle.len() ==> lower_byte_spec(hay[k + i]) == lower_byte_spec(needle[i])
}

/// `needle` occurs somewhere in `hay`, case-insensitively.
pub open spec fn ci_contains(hay: Seq<u8>, needle: Seq<u8>) -> bool {
    exists|k: int| ci_match_at(hay, needle, k)
}

/// Whether `needle` occurs at offset `k` of `hay`, case-insensitively.
fn ci_match_at_offset(hay: &Vec<u8>, needle: &Vec<u8>, k: usize) -> (r: bool)
    requires
        k + needle@.len() <= hay@.len(),
    ensures
        r == ci_match_at(hay@, needle@, k as int),
{
    let hay_len = hay.len();
    let mut i: usize = 0;
    while i < needle.len()
        invariant
            i <= needle@.len(),
            hay_len == hay@.len(),
            k + needle@.len() <= hay@.len(),
            forall|j: int|
                0 <= j < i ==> lower_byte_spec(hay@[k + j]) == lower_byte_spec(needle@[j]),
        decreases needle@.len() - i,
    {
        if lower_byte(hay[k + i]) != lower_byte(needle[i]) {
            assert(!ci_match_at(hay@, needle@, k as int)) by {
                assert(lower_byte_spec(hay@[k + i]) != lower_byte_spec(needle@[i as int]));
            }
            return false;
        }
        i += 1;
    }
    true
}

/// Case-insensitive substring test: whether `needle` occurs in `hay` under
/// ASCII case folding. An empty needle occurs everywhere.
pub fn ci_contains_bytes(hay: &Vec<u8>, needle: &Vec<u8>) -> (r: bool)
    ensures
        r == ci_contains(hay@, needle@),
{
    if needle.len() == 0 {
        assert(ci_match_at(hay@, needle@, 0));
        return true;
    }
    if needle.len() > hay.len() {
        assert(forall|k: int| !ci_match_at(hay@, needle@, k));
        return false;
    }
    let hay_len = hay.len();
    let last = hay_len - needle.len();
    let mut k: usize = 0;
    while k <= last
        invariant
            1 <= needle@.len() <= hay@.len(),
            hay_len == hay@.len(),
            last == hay@.len() - needle@.len(),
            k <= last + 1,
            forall|k2: int| 0 <= k2 < k ==> !ci_match_at(hay@, needle@, k2),
        decreases last + 1 - k,
    {
        if ci_match_at_offset(hay, needle, k) {
            return true;
        }
        k += 1;
    }
    assert(forall|k2: int| !ci_match_at(hay@, needle@, k2));
    false
}

/// The tag contains at least one entry of the filter, case-insensitively.
pub open spec fn tag_matches(tag: Seq<u8>, filter: Seq<Vec<u8>>) -> bool {
    exists|j: int| 0 <= j < filter.len() && ci_contains(tag, filter[j]@)
}

/// The bookmark passes the filter: the filter is empty, or one of the
/// bookmark's tags contains one of its entries.
pub open spec fn bookmark_matches(bm: Bookmark, filter: Seq<Vec<u8>>) -> bool {
    filter.len() == 0 || exists|i: int| 0 <= i < bm.tags@.len() && tag_matches(bm.tags@[i]@, filter)
}

/// Whether the tag contains some entry of the filter.
pub fn tag_matches_filter(tag: &Vec<u8>, filter: &Vec<Vec<u8>>) -> (r: bool)
    ensures
        r == tag_matches(tag@, filter@),
{
    let mut j: usize = 0;
    while j < filter.len()
        invariant
            j <= filter@.len(),
            forall|j2: int| 0 <= j2 < j ==> !ci_contains(tag@, filter@[j2]@),
        decreases filter@.len() - j,
    {
        if ci_contains_bytes(tag, &filter[j]) {
            return true;
        }
        j += 1;
    }
    false
}

impl Bookmark {
    /// Whether this bookmark passes the tag filter.
    pub fn matches(&self, filter: &Vec<Vec<u8>>) -> (r: bool)
        ensures
            r == bookmark_matches(*self, filter@),
    {
        if filter.len() == 0 {
            return true;
        }
        let mut i: usize = 0;
        while i < self.tags.len()
            invariant
                i <= self.tags@.len(),
                forall|i2: int| 0 <= i2 < i ==> !tag_matches(self.tags@[i2]@, filter@),
            decreases self.tags@.len() - i,
        {
            if tag_matches_filter(&self.tags[i], filter) {
                return true;
            }
            i += 1;
        }
        false
    }
}

/// Index of the first bookmark at or after `from` that passes the filter.
pub open spec fn first_match_from(bms: Seq<Bookmark>, filter: Seq<Vec<u8>>, from: int) -> Option<
    int,
>
    decreases bms.len() - from,
{
    if from < 0 || from >= bms.len() {
        None
    } else if bookmark_matches(bms[from], filter) {
        Some(from)
    } else {
        first_match_from(bms, filter, from + 1)
    }
}

/// Index the cursor moves to from `start`: the first match after it,
/// wrapping to the first match from the head of the list.
pub open spec fn next_match_spec(bms: Seq<Bookmark>, filter: Seq<Vec<u8>>, start: int) -> Option<
    int,
> {
    match first_match_from(bms, filter, start + 1) {
        Some(i) => Some(i),
        None => first_match_from(bms, filter, 0),
    }
}

/// A found first match lies in `[from, len)` and passes the filter.
pub proof fn lemma_first_match_some(bms: Seq<Bookmark>, filter: Seq<Vec<u8>>, from: int)
    requires
        0 <= from,
        first_match_from(bms, filter, from) is Some,
    ensures
        from <= first_match_from(bms, filter, from)->0 < bms.len(),
        bookmark_matches(bms[first_match_from(bms, filter, from)->0], filter),
    decreases bms.len() - from,
{
    if from < bms.len() && !bookmark_matches(bms[from], filter) {
        lemma_first_match_some(bms, filter, from + 1);
    }
}

/// No first match means nothing from `from` onward passes the filter.
pub proof fn lemma_first_match_none(bms: Seq<Bookmark>, filter: Seq<Vec<u8>>, from: int)
    requires
        0 <= from,
        first_match_from(bms, filter, from) is None,
    ensures
        forall|j: int| from <= j < bms.len() ==> !bookmark_matches(bms[j], filter),
    decreases bms.len() - from,
{
    if from < bms.len() && !bookmark_matches(bms[from], filter) {
        lemma_first_match_none(bms, filter, from + 1);
    }
}

/// If nothing from `from` onward passes the filter, there is no first match.
pub proof fn lemma_no_match_first_none(bms: Seq<Bookmark>, filter: Seq<Vec<u8>>, from: int)
    requires
        0 <= from,
        forall|j: int| from <= j < bms.len() ==> !bookmark_matches(bms[j], filter),
    ensures
        first_match_from(bms, filter, from) is None,
    decreases bms.len() - from,
{
    if from < bms.len() {
        lemma_no_match_first_none(bms, filter, from + 1);
    }
}

/// A scan over a bookmark list can start exactly when some bookmark passes
/// the tag filter: the search from the head finds a match if and only if
/// one exists.
pub proof fn lemma_match_exists_iff_found(bms: Seq<Bookmark>, filter: Seq<Vec<u8>>)
    ensures
        first_match_from(bms, filter, 0) is Some <==> (exists|j: int|
            0 <= j < bms.len() && bookmark_matches(bms[j], filter)),
{
    if first_match_from(bms, filter, 0) is Some {
        lemma_first_match_some(bms, filter, 0);
        let i = first_match_from(bms, filter, 0)->0;
        assert(0 <= i < bms.len() && bookmark_matches(bms[i], filter));
    } else {
        lemma_first_match_none(bms, filter, 0);
    }
}

/// Every bookmark the cyclic advance lands on passes the tag filter, and it
/// finds one exactly when some bookmark in the list does.
pub proof fn lemma_next_match_matches(bms: Seq<Bookmark>, filter: Seq<Vec<u8>>, start: int)
    requires
        0 <= start,
    ensures
        next_match_spec(bms, filter, start) is Some ==> bookmark_matches(
            bms[next_match_spec(bms, filter, start)->0],
            filter,
        ),
        next_match_spec(bms, filter, start) is None <==> (forall|j: int|
            0 <= j < bms.len() ==> !bookmark_matches(bms[j], filter)),
{
    if first_match_from(bms, filter, start + 1) is Some {
        lemma_first_match_some(bms, filter, start + 1);
    } else {
        lemma_first_match_none(bms, filter, start + 1);
        if first_match_from(bms, filter, 0) is Some {
            lemma_first_match_some(bms, filter, 0);
        } else {
            lemma_first_match_none(bms, filter, 0);
        }
    }
    if forall|j: int| 0 <= j < bms.len() ==> !bookmark_matches(bms[j], filter) {
        lemma_no_match_first_none(bms, filter, start + 1);
        lemma_no_match_first_none(bms, filter, 0);
    }
}

/// First bookmark at or after `from` that passes the filter.
pub fn find_first_match(bms: &Vec<Bookmark>, filter: &Vec<Vec<u8>>, from: usize) -> (r: Option<
    usize,
>)
    ensures
        r is Some <==> first_match_from(bms@, filter@, from as int) is Some,
        r matches Some(i) ==> i < bms@.len() && i == first_match_from(
            bms@,
            filter@,
            from as int,
        )->0,
{
    let mut i: usize = from;
    while i < bms.len()
        invariant
            from <= i,
            first_match_from(bms@, filter@, from as int) == first_match_from(
                bms@,
                filter@,
                i as int,
            ),
        decreases bms@.len() - i,
    {
        if bms[i].matches(filter) {
            return Some(i);
        }
        i += 1;
    }
    None
}

/// The bookmark the cursor moves to from `start`: the first match after it,
/// wrapping to the head of the list; `None` exactly when no bookmark passes
/// the filter.
pub fn find_next_match(bms: &Vec<Bookmark>, filter: &Vec<Vec<u8>>, start: usize) -> (r: Option<
    usize,
>)
    requires
        start < bms@.len(),
    ensures
        r is Some <==> next_match_spec(bms@, filter@, start as int) is Some,
        r matches Some(i) ==> i < bms@.len() && i == next_match_spec(
            bms@,
            filter@,
            start as int,
        )->0,
{
    let len = bms.len();
    assert(start < len);
    match find_first_match(bms, filter, start + 1) {
        Some(i) => Some(i),
        None => find_first_match(bms, filter, 0),
    }
}

} // verus!
