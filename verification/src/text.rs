//! Verified building blocks for the character-level scanning that the line
//! parsers and version checks are made of: substring search, prefix tests,
//! trimming, line splitting, and character removal, each against a spec
//! function over `Seq<char>`.

use vstd::prelude::*;

verus! {

/// `needle` occurs in `hay` at position `i`.
pub open spec fn match_at(hay: Seq<char>, needle: Seq<char>, i: int) -> bool {
    0 <= i && i + needle.len() <= hay.len() && hay.subrange(i, i + needle.len()) == needle
}

/// `needle` occurs somewhere in `hay`.
pub open spec fn contains_seq(hay: Seq<char>, needle: Seq<char>) -> bool {
    exists|i: int| match_at(hay, needle, i)
}

/// Index of the first occurrence of `needle` at or after position `i`, if any.
pub open spec fn find_from(hay: Seq<char>, needle: Seq<char>, i: int) -> Option<int>
    decreases hay.len() - i,
    when 0 <= i <= hay.len()
{
    if i + needle.len() > hay.len() {
        None
    } else if needle.len() == 0 {
        Some(i)
    } else if hay.subrange(i, i + needle.len()) == needle {
        Some(i)
    } else {
        find_from(hay, needle, i + 1)
    }
}

/// Index of the first occurrence of `needle` in `hay`, if any.
pub open spec fn find_seq(hay: Seq<char>, needle: Seq<char>) -> Option<int> {
    find_from(hay, needle, 0)
}

/// `hay` begins with `needle`.
pub open spec fn starts_with(hay: Seq<char>, needle: Seq<char>) -> bool {
    match_at(hay, needle, 0)
}

/// What `find_from` returns is the first match at or after `i`, and `None`
/// means there is none.
pub proof fn lemma_find_from_props(hay: Seq<char>, needle: Seq<char>, i: int)
    requires
        0 <= i <= hay.len(),
    ensures
        match find_from(hay, needle, i) {
            Some(j) => i <= j && match_at(hay, needle, j) && forall|k: int|
                i <= k < j ==> !match_at(hay, needle, k),
            None => forall|k: int| i <= k ==> !match_at(hay, needle, k),
        },
    decreases hay.len() - i,
{
    if i + needle.len() > hay.len() {
        assert forall|k: int| i <= k implies !match_at(hay, needle, k) by {}
    } else if needle.len() == 0 {
        assert(hay.subrange(i, i) =~= needle);
    } else if hay.subrange(i, i + needle.len()) == needle {
    } else {
        lemma_find_from_props(hay, needle, i + 1);
        assert(!match_at(hay, needle, i));
    }
}

/// `find_seq` finds the first occurrence, and `None` means no occurrence.
pub proof fn lemma_find_seq_props(hay: Seq<char>, needle: Seq<char>)
    ensures
        match find_seq(hay, needle) {
            Some(j) => match_at(hay, needle, j) && forall|k: int|
                0 <= k < j ==> !match_at(hay, needle, k),
            None => !contains_seq(hay, needle),
        },
{
    lemma_find_from_props(hay, needle, 0);
}

/// Decides whether `needle` occurs in `hay` at position `i`.
pub fn match_at_exec(hay: &str, needle: &str, i: usize) -> (r: bool)
    requires
        i + needle@.len() <= hay@.len(),
    ensures
        r == match_at(hay@, needle@, i as int),
{
    let hlen = hay.unicode_len();
    let nlen = needle.unicode_len();
    let mut j: usize = 0;
    while j < nlen
        invariant
            0 <= j <= nlen,
            nlen == needle@.len(),
            hlen == hay@.len(),
            i + nlen <= hlen,
            forall|k: int| 0 <= k < j ==> hay@[i + k] == needle@[k],
        decreases nlen - j,
    {
        if hay.get_char(i + j) != needle.get_char(j) {
            assert(!match_at(hay@, needle@, i as int)) by {
                assert(hay@.subrange(i as int, i + needle@.len())[j as int] != needle@[j as int]);
            }
            return false;
        }
        j += 1;
    }
    proof {
        assert(hay@.subrange(i as int, i + needle@.len()) =~= needle@);
    }
    true
}

/// Returns the index of the first occurrence of `needle` in `hay`, if any.
pub fn find_sub(hay: &str, needle: &str) -> (r: Option<usize>)
    ensures
        match r {
            Some(i) => find_seq(hay@, needle@) == Some(i as int),
            None => find_seq(hay@, needle@) is None,
        },
{
    let hlen = hay.unicode_len();
    let nlen = needle.unicode_len();
    if nlen > hlen {
        return None;
    }
    if nlen == 0 {
        proof {
            assert(hay@.subrange(0, 0) =~= needle@);
        }
        return Some(0);
    }
    let mut i: usize = 0;
    while i <= hlen - nlen
        invariant
            0 <= i <= hlen - nlen + 1,
            1 <= nlen <= hlen,
            hlen == hay@.len(),
            nlen == needle@.len(),
            find_seq(hay@, needle@) == find_from(hay@, needle@, i as int),
        decreases hlen - i,
    {
        if match_at_exec(hay, needle, i) {
            proof {
                assert(find_from(hay@, needle@, i as int) == Some(i as int));
            }
            return Some(i);
        }
        proof {
            assert(find_from(hay@, needle@, i as int) == find_from(hay@, needle@, i + 1));
        }
        i += 1;
    }
    proof {
        assert(find_from(hay@, needle@, i as int) is None);
    }
    None
}

/// Decides whether `needle` occurs anywhere in `hay`.
pub fn contains_sub(hay: &str, needle: &str) -> (r: bool)
    ensures
        r == contains_seq(hay@, needle@),
{
    proof {
        lemma_find_seq_props(hay@, needle@);
    }
    match find_sub(hay, needle) {
        Some(_) => true,
        None => false,
    }
}

/// Decides whether `hay` begins with `needle`.
pub fn starts_with_sub(hay: &str, needle: &str) -> (r: bool)
    ensures
        r == starts_with(hay@, needle@),
{
    let hlen = hay.unicode_len();
    let nlen = needle.unicode_len();
    if nlen > hlen {
        false
    } else {
        match_at_exec(hay, needle, 0)
    }
}

/// The characters that trimming removes from the ends of a line.
pub open spec fn is_space_char(c: char) -> bool {
    c == ' ' || c == '\t' || c == '\n' || c == '\r'
}

/// `s` with the spaces at both ends removed.
pub open spec fn spec_trim(s: Seq<char>) -> Seq<char>
    decreases s.len(),
{
    if s.len() > 0 && is_space_char(s[0]) {
        spec_trim(s.drop_first())
    } else if s.len() > 0 && is_space_char(s[s.len() - 1]) {
        spec_trim(s.drop_last())
    } else {
        s
    }
}

/// Trimming keeps exactly the part between the leading and trailing runs of
/// spaces.
proof fn lemma_trim_range(s: Seq<char>, lo: int, hi: int)
    requires
        0 <= lo <= hi <= s.len(),
        forall|j: int| 0 <= j < lo ==> is_space_char(s[j]),
        forall|j: int| hi <= j < s.len() ==> is_space_char(s[j]),
        lo < hi ==> !is_space_char(s[lo]) && !is_space_char(s[hi - 1]),
        lo == hi ==> lo == 0 && hi == 0,
    ensures
        spec_trim(s) == s.subrange(lo, hi),
    decreases s.len(),
{
    if s.len() == 0 {
        assert(spec_trim(s) =~= s.subrange(lo, hi));
    } else if is_space_char(s[0]) {
        let t = s.drop_first();
        if lo == hi {
            // the whole of s is spaces
            lemma_trim_range(t, 0, 0);
            assert(spec_trim(s) =~= s.subrange(lo, hi));
        } else {
            // lo >= 1, else s[lo] == s[0] would not be a space
            lemma_trim_range(t, lo - 1, hi - 1);
            assert(t.subrange(lo - 1, hi - 1) =~= s.subrange(lo, hi));
        }
    } else if is_space_char(s[s.len() - 1]) {
        let t = s.drop_last();
        if lo == hi {
            lemma_trim_range(t, 0, 0);
            assert(spec_trim(s) =~= s.subrange(lo, hi));
        } else {
            // hi <= s.len() - 1, else s[hi - 1] would be the trailing space
            lemma_trim_range(t, lo, hi);
            assert(t.subrange(lo, hi) =~= s.subrange(lo, hi));
        }
    } else {
        // neither end is a space, so nothing is trimmed
        assert(lo == 0 && hi == s.len());
        assert(spec_trim(s) =~= s.subrange(lo, hi));
    }
}

/// Decides whether `c` is one of the characters trimming removes.
pub fn is_space(c: char) -> (r: bool)
    ensures
        r == is_space_char(c),
{
    c == ' ' || c == '\t' || c == '\n' || c == '\r'
}

/// Removes the spaces at both ends of `s`.
pub fn trim_str(s: &str) -> (r: String)
    ensures
        r@ == spec_trim(s@),
{
    let len = s.unicode_len();
    let mut lo: usize = 0;
    while lo < len && is_space(s.get_char(lo))
        invariant
            0 <= lo <= len,
            len == s@.len(),
            forall|j: int| 0 <= j < lo ==> is_space_char(s@[j]),
        decreases len - lo,
    {
        lo += 1;
    }
    if lo == len {
        proof {
            lemma_trim_range(s@, 0, 0);
        }
        return String::new();
    }
    let mut hi: usize = len;
    while hi > lo && is_space(s.get_char(hi - 1))
        invariant
            lo <= hi <= len,
            lo < len,
            len == s@.len(),
            forall|j: int| hi <= j < len ==> is_space_char(s@[j]),
        decreases hi,
    {
        hi -= 1;
    }
    // s[lo] is not a space, so the scan from the right stops above lo
    assert(hi > lo);
    proof {
        lemma_trim_range(s@, lo as int, hi as int);
    }
    s.substring_char(lo, hi).to_owned()
}

/// The line content of `cur` once a line break ends it: a final carriage
/// return belongs to the break and is dropped.
pub open spec fn strip_cr(l: Seq<char>) -> Seq<char> {
    if l.len() > 0 && l[l.len() - 1] == '\r' {
        l.drop_last()
    } else {
        l
    }
}

/// The lines of `s` after the part already consumed, given the characters
/// `cur` of the line in progress: split at `'\n'`, dropping a `'\r'` that
/// precedes one, with no empty final line after a terminal break.
pub open spec fn split_lines_from(s: Seq<char>, cur: Seq<char>) -> Seq<Seq<char>>
    decreases s.len(),
{
    if s.len() == 0 {
        if cur.len() == 0 {
            seq![]
        } else {
            seq![cur]
        }
    } else if s[0] == '\n' {
        seq![strip_cr(cur)] + split_lines_from(s.drop_first(), seq![])
    } else {
        split_lines_from(s.drop_first(), cur.push(s[0]))
    }
}

/// The lines of `s`, as `str::lines` yields them.
pub open spec fn spec_split_lines(s: Seq<char>) -> Seq<Seq<char>> {
    split_lines_from(s, seq![])
}

/// The views of a sequence of owned strings.
pub open spec fn seq_views(s: Seq<String>) -> Seq<Seq<char>> {
    s.map_values(|x: String| x@)
}

/// Splits `s` into its lines.
pub fn split_lines(s: &str) -> (r: Vec<String>)
    ensures
        seq_views(r@) == spec_split_lines(s@),
{
    let len = s.unicode_len();
    let mut res: Vec<String> = Vec::new();
    let mut cur = String::new();
    let mut i: usize = 0;
    proof {
        assert(s@.subrange(0, len as int) =~= s@);
        assert(seq_views(res@) + split_lines_from(s@, cur@) =~= split_lines_from(s@, cur@));
    }
    while i < len
        invariant
            0 <= i <= len,
            len == s@.len(),
            spec_split_lines(s@) == seq_views(res@) + split_lines_from(
                s@.subrange(i as int, len as int),
                cur@,
            ),
        decreases len - i,
    {
        let ghost suffix = s@.subrange(i as int, len as int);
        let c = s.get_char(i);
        proof {
            assert(suffix[0] == c);
            assert(suffix.drop_first() =~= s@.subrange(i + 1, len as int));
        }
        if c == '\n' {
            let ghost cur0 = cur@;
            let ghost res0 = res@;
            let cur_len = cur.as_str().unicode_len();
            let line = if cur_len > 0 && cur.as_str().get_char(cur_len - 1) == '\r' {
                cur.as_str().substring_char(0, cur_len - 1).to_owned()
            } else {
                cur
            };
            proof {
                assert(line@ =~= strip_cr(cur0));
            }
            res.push(line);
            cur = String::new();
            proof {
                assert(seq_views(res@) =~= seq_views(res0).push(strip_cr(cur0)));
                assert(seq_views(res0) + split_lines_from(suffix, cur0) =~= seq_views(res@)
                    + split_lines_from(s@.subrange(i + 1, len as int), cur@));
            }
        } else {
            let ghost cur0 = cur@;
            let piece = s.substring_char(i, i + 1);
            proof {
                assert(piece@ =~= seq![c]);
            }
            cur.append(piece);
            proof {
                assert(cur@ =~= cur0.push(c));
            }
        }
        i += 1;
    }
    proof {
        assert(s@.subrange(len as int, len as int) =~= Seq::<char>::empty());
    }
    let cur_len = cur.as_str().unicode_len();
    if cur_len > 0 {
        let ghost res0 = res@;
        let ghost cur0 = cur@;
        res.push(cur);
        proof {
            assert(seq_views(res@) =~= seq_views(res0).push(cur0));
            assert(seq_views(res0) + split_lines_from(Seq::<char>::empty(), cur0) =~= seq_views(
                res@,
            ));
        }
    } else {
        proof {
            assert(seq_views(res@) + split_lines_from(Seq::<char>::empty(), cur@) =~= seq_views(
                res@,
            ));
        }
    }
    res
}

/// `s` with every occurrence of `t` removed.
pub open spec fn remove_char_seq(s: Seq<char>, t: char) -> Seq<char>
    decreases s.len(),
{
    if s.len() == 0 {
        s
    } else if s[0] == t {
        remove_char_seq(s.drop_first(), t)
    } else {
        seq![s[0]] + remove_char_seq(s.drop_first(), t)
    }
}

/// Removes every occurrence of `t` from `s`.
pub fn remove_char(s: &str, t: char) -> (r: String)
    ensures
        r@ == remove_char_seq(s@, t),
{
    let len = s.unicode_len();
    let mut r = String::new();
    let mut i: usize = 0;
    proof {
        assert(s@.subrange(0, len as int) =~= s@);
        assert(r@ + remove_char_seq(s@, t) =~= remove_char_seq(s@, t));
    }
    while i < len
        invariant
            0 <= i <= len,
            len == s@.len(),
            remove_char_seq(s@, t) == r@ + remove_char_seq(s@.subrange(i as int, len as int), t),
        decreases len - i,
    {
        let ghost suffix = s@.subrange(i as int, len as int);
        let c = s.get_char(i);
        proof {
            assert(suffix[0] == c);
            assert(suffix.drop_first() =~= s@.subrange(i + 1, len as int));
        }
        if c != t {
            let ghost r0 = r@;
            let piece = s.substring_char(i, i + 1);
            proof {
                assert(piece@ =~= seq![c]);
            }
            r.append(piece);
            proof {
                assert(r0 + (seq![c] + remove_char_seq(s@.subrange(i + 1, len as int), t)) =~= r@
                    + remove_char_seq(s@.subrange(i + 1, len as int), t));
            }
        }
        i += 1;
    }
    proof {
        assert(s@.subrange(len as int, len as int) =~= Seq::<char>::empty());
        assert(r@ + remove_char_seq(s@.subrange(len as int, len as int), t) =~= r@);
    }
    r
}

/// Compares two string slices character by character.
pub fn str_eq(a: &str, b: &str) -> (r: bool)
    ensures
        r == (a@ == b@),
{
    let alen = a.unicode_len();
    let blen = b.unicode_len();
    if alen != blen {
        return false;
    }
    let mut i: usize = 0;
    while i < alen
        invariant
            0 <= i <= alen,
            alen == a@.len(),
            alen == b@.len(),
            forall|j: int| 0 <= j < i ==> a@[j] == b@[j],
        decreases alen - i,
    {
        if a.get_char(i) != b.get_char(i) {
            return false;
        }
        i += 1;
    }
    proof {
        assert(a@ =~= b@);
    }
    true
}

/// What `str::to_lowercase` returns for a given string: the result depends on
/// the characters alone.
pub uninterp spec fn lower_of(s: Seq<char>) -> Seq<char>;

/// Relies on str::to_lowercase for the Unicode lowercase mapping.
#[verifier::external_body]
pub fn to_lower(s: &str) -> (r: String)
    ensures
        r@ == lower_of(s@),
{
    s.to_lowercase()
}

} // verus!
