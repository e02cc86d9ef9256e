//! Hashtags in the text of notes, reflections and summaries.
//!
//! A tag is `#`, an ASCII letter and at least one more ASCII letter, digit, `_`
//! or `-`, and it starts the text or follows whitespace (a line break among
//! them) or ASCII punctuation other than `#`, `-` and `_`. Its label is the text
//! after `#`, in lower case. Markdown headings (`# Heading`), `##x` and a `#`
//! inside a word (after a letter or digit of any script) are no tags.
use vstd::prelude::*;
use crate::text::{chars_of, is_ascii_alpha, is_ascii_digit, is_whitespace, spec_is_ascii_alpha,
    spec_is_ascii_digit, spec_is_whitespace, string_of};

verus! {

pub open spec fn spec_is_tag_char(c: char) -> bool {
    spec_is_ascii_alpha(c) || spec_is_ascii_digit(c) || c == '_' || c == '-'
}

/// A char a tag may follow: whitespace, or ASCII punctuation but `#`, `-`, `_`.
pub open spec fn spec_may_precede_tag(c: char) -> bool {
    ||| spec_is_whitespace(c)
    ||| (('!' <= c <= '/') || (':' <= c <= '@') || ('[' <= c <= '`') || ('{' <= c <= '~')) && c != '#' && c
        != '-' && c != '_'
}

/// A tag starts at `i`: a `#` at the start or after a char a tag may follow,
/// then a letter and one more tag char.
pub open spec fn spec_tag_starts_at(s: Seq<char>, i: int) -> bool {
    &&& 0 <= i
    &&& i + 2 < s.len()
    &&& s[i] == '#'
    &&& (i == 0 || spec_may_precede_tag(s[i - 1]))
    &&& spec_is_ascii_alpha(s[i + 1])
    &&& spec_is_tag_char(s[i + 2])
}

/// The first position from `k` on that holds no tag char (or the end).
pub open spec fn spec_tag_end(s: Seq<char>, k: int) -> int
    decreases s.len() - k,
{
    if k < 0 || k >= s.len() || !spec_is_tag_char(s[k]) {
        k
    } else {
        spec_tag_end(s, k + 1)
    }
}

pub open spec fn spec_ascii_lower(c: char) -> char {
    if 'A' <= c && c <= 'Z' {
        ((c as u8) + 32) as char
    } else {
        c
    }
}

pub open spec fn spec_lower(s: Seq<char>) -> Seq<char> {
    s.map_values(|c: char| spec_ascii_lower(c))
}

/// The label of the tag that starts at `i`.
pub open spec fn spec_tag_label(s: Seq<char>, i: int) -> Seq<char> {
    spec_lower(s.subrange(i + 1, spec_tag_end(s, i + 1)))
}

/// The labels of the tags that start before position `k`, in order, repeats kept.
pub open spec fn spec_labels_before(s: Seq<char>, k: int) -> Seq<Seq<char>>
    decreases k,
{
    if k <= 0 {
        Seq::empty()
    } else if spec_tag_starts_at(s, k - 1) {
        spec_labels_before(s, k - 1).push(spec_tag_label(s, k - 1))
    } else {
        spec_labels_before(s, k - 1)
    }
}

/// `xs` with every repeat after the first occurrence left out.
pub open spec fn spec_dedup(xs: Seq<Seq<char>>) -> Seq<Seq<char>>
    decreases xs.len(),
{
    if xs.len() == 0 {
        Seq::empty()
    } else {
        let d = spec_dedup(xs.drop_last());
        if d.contains(xs.last()) {
            d
        } else {
            d.push(xs.last())
        }
    }
}

/// The labels of the tags of `s`, each once, in the order of first use.
pub open spec fn spec_extract_tags(s: Seq<char>) -> Seq<Seq<char>> {
    spec_dedup(spec_labels_before(s, s.len() as int))
}

fn is_tag_char(c: char) -> (r: bool)
    ensures
        r == spec_is_tag_char(c),
{
    is_ascii_alpha(c) || is_ascii_digit(c) || c == '_' || c == '-'
}

fn may_precede_tag(c: char) -> (r: bool)
    ensures
        r == spec_may_precede_tag(c),
{
    is_whitespace(c) || ((('!' <= c && c <= '/') || (':' <= c && c <= '@') || ('[' <= c && c <= '`') || ('{'
        <= c && c <= '~')) && c != '#' && c != '-' && c != '_')
}

fn ascii_lower(c: char) -> (r: char)
    ensures
        r == spec_ascii_lower(c),
{
    if 'A' <= c && c <= 'Z' {
        ((c as u8) + 32) as char
    } else {
        c
    }
}

fn vec_eq(a: &Vec<char>, b: &Vec<char>) -> (r: bool)
    ensures
        r == (a@ == b@),
{
    if a.len() != b.len() {
        return false;
    }
    let mut i: usize = 0;
    while i < a.len()
        invariant
            a.len() == b.len(),
            i <= a.len(),
            a@.subrange(0, i as int) == b@.subrange(0, i as int),
        decreases a.len() - i,
    {
        if a[i] != b[i] {
            return false;
        }
        assert(a@.subrange(0, i + 1) =~= a@.subrange(0, i as int).push(a@[i as int]));
        assert(b@.subrange(0, i + 1) =~= b@.subrange(0, i as int).push(b@[i as int]));
        i = i + 1;
    }
    assert(a@ =~= a@.subrange(0, a.len() as int));
    assert(b@ =~= b@.subrange(0, b.len() as int));
    true
}

pub open spec fn spec_views(v: Seq<Vec<char>>) -> Seq<Seq<char>> {
    v.map_values(|x: Vec<char>| x@)
}

fn contains_label(labels: &Vec<Vec<char>>, label: &Vec<char>) -> (r: bool)
    ensures
        r == spec_views(labels@).contains(label@),
{
    let mut i: usize = 0;
    while i < labels.len()
        invariant
            i <= labels.len(),
            forall|j: int| 0 <= j < i ==> labels@[j]@ != label@,
        decreases labels.len() - i,
    {
        if vec_eq(&labels[i], label) {
            assert(spec_views(labels@)[i as int] == label@);
            return true;
        }
        i = i + 1;
    }
    assert forall|j: int| 0 <= j < spec_views(labels@).len() implies spec_views(labels@)[j] != label@ by {
        assert(spec_views(labels@)[j] == labels@[j]@);
    }
    false
}

/// Tags of the notes, reflections and summaries.
pub struct TagService;

impl TagService {
    /// The labels of the hashtags in `content`, each once, in the order of first use.
    pub fn extract_tags(content: &str) -> (labels: Vec<String>)
        ensures
            labels@.map_values(|l: String| l@) == spec_extract_tags(content@),
    {
        extract_labels(content)
    }
}

fn extract_labels(content: &str) -> (labels: Vec<String>)
    ensures
        labels@.map_values(|l: String| l@) == spec_extract_tags(content@),
{
    let s = chars_of(content);
    let n = s.len();
    let mut found: Vec<Vec<char>> = Vec::new();
    let mut i: usize = 0;
    while i < n
        invariant
            s@ == content@,
            n == s.len(),
            i <= n,
            spec_views(found@) == spec_dedup(spec_labels_before(s@, i as int)),
        decreases n - i,
    {
        let starts = s[i] == '#' && n - i > 2 && (i == 0 || may_precede_tag(s[i - 1]))
            && is_ascii_alpha(s[i + 1]) && is_tag_char(s[i + 2]);
        assert(starts == spec_tag_starts_at(s@, i as int));
        if starts {
            let mut j = i + 1;
            while j < n && is_tag_char(s[j])
                invariant
                    i + 1 <= j <= n,
                    n == s.len(),
                    spec_tag_end(s@, (i + 1) as int) == spec_tag_end(s@, j as int),
                decreases n - j,
            {
                j = j + 1;
            }
            let mut label: Vec<char> = Vec::new();
            let mut k = i + 1;
            while k < j
                invariant
                    i + 1 <= k <= j <= n,
                    n == s.len(),
                    label@ == spec_lower(s@.subrange(i + 1, k as int)),
                decreases j - k,
            {
                label.push(ascii_lower(s[k]));
                k = k + 1;
                assert(label@ =~= spec_lower(s@.subrange(i + 1, k as int)));
            }
            assert(label@ == spec_tag_label(s@, i as int));
            let ghost before = spec_labels_before(s@, i as int);
            assert(spec_labels_before(s@, i + 1) == before.push(label@));
            assert(before.push(label@).drop_last() =~= before);
            if !contains_label(&found, &label) {
                found.push(label);
                assert(spec_views(found@) =~= spec_views(found@).drop_last().push(spec_views(found@).last()));
                assert(spec_views(found@).drop_last() =~= spec_dedup(before));
            }
        }
        i = i + 1;
    }
    let mut labels: Vec<String> = Vec::new();
    let mut m: usize = 0;
    while m < found.len()
        invariant
            m <= found.len(),
            labels.len() == m,
            labels@.map_values(|l: String| l@) == spec_views(found@).subrange(0, m as int),
        decreases found.len() - m,
    {
        let ghost prev = labels@;
        let l = string_of(&found[m]);
        labels.push(l);
        assert(labels@ =~= prev.push(l));
        assert(spec_views(found@)[m as int] == found@[m as int]@);
        assert(labels@[m as int] == l);
        assert(labels@.map_values(|l: String| l@)[m as int] == l@);
        assert(labels@.map_values(|l: String| l@).drop_last() =~= prev.map_values(|l: String| l@));
        m = m + 1;
        assert(labels@.map_values(|l: String| l@) =~= spec_views(found@).subrange(0, m as int));
    }
    assert(spec_views(found@).subrange(0, found.len() as int) =~= spec_views(found@));
    labels
}

proof fn lemma_lower_char(c: char)
    ensures
        spec_is_ascii_alpha(spec_ascii_lower(c)) == spec_is_ascii_alpha(c),
        spec_is_tag_char(spec_ascii_lower(c)) == spec_is_tag_char(c),
        spec_is_whitespace(spec_ascii_lower(c)) == spec_is_whitespace(c),
        spec_may_precede_tag(spec_ascii_lower(c)) == spec_may_precede_tag(c),
        (spec_ascii_lower(c) == '#') == (c == '#'),
        (spec_ascii_lower(c) == '(') == (c == '('),
        spec_ascii_lower(spec_ascii_lower(c)) == spec_ascii_lower(c),
        !('A' <= spec_ascii_lower(c) && spec_ascii_lower(c) <= 'Z'),
{
    if 'A' <= c && c <= 'Z' {
        assert((c as u8) as int == c as int);
        assert('a' <= spec_ascii_lower(c) && spec_ascii_lower(c) <= 'z');
    }
}

proof fn lemma_lower_seq(s: Seq<char>, a: int, b: int)
    requires
        0 <= a <= b <= s.len(),
    ensures
        spec_lower(spec_lower(s).subrange(a, b)) == spec_lower(s.subrange(a, b)),
{
    assert forall|i: int| 0 <= i < b - a implies spec_lower(spec_lower(s).subrange(a, b))[i]
        == spec_lower(s.subrange(a, b))[i] by {
        lemma_lower_char(s[a + i]);
    }
    assert(spec_lower(spec_lower(s).subrange(a, b)) =~= spec_lower(s.subrange(a, b)));
}

proof fn lemma_tag_end_lower(s: Seq<char>, k: int)
    requires
        0 <= k,
    ensures
        spec_tag_end(spec_lower(s), k) == spec_tag_end(s, k),
        k <= spec_tag_end(s, k) <= if k <= s.len() { s.len() as int } else { k },
    decreases s.len() - k,
{
    if k < s.len() {
        lemma_lower_char(s[k]);
        if spec_is_tag_char(s[k]) {
            lemma_tag_end_lower(s, k + 1);
        }
    }
}

proof fn lemma_labels_before_lower(s: Seq<char>, k: int)
    ensures
        spec_labels_before(spec_lower(s), k) == spec_labels_before(s, k),
    decreases k,
{
    if k > 0 {
        lemma_labels_before_lower(s, k - 1);
        let i = k - 1;
        let t = spec_lower(s);
        if 0 <= i && i + 2 < s.len() {
            lemma_lower_char(s[i]);
            lemma_lower_char(s[i + 1]);
            lemma_lower_char(s[i + 2]);
            if i > 0 {
                lemma_lower_char(s[i - 1]);
            }
        }
        assert(spec_tag_starts_at(t, i) == spec_tag_starts_at(s, i));
        if spec_tag_starts_at(s, i) {
            lemma_tag_end_lower(s, i + 1);
            lemma_lower_seq(s, i + 1, spec_tag_end(s, i + 1));
        }
    }
}

proof fn lemma_dedup_facts(xs: Seq<Seq<char>>)
    ensures
        spec_dedup(xs).no_duplicates(),
        forall|j: int| 0 <= j < spec_dedup(xs).len() ==> xs.contains(#[trigger] spec_dedup(xs)[j]),
        forall|x: Seq<char>| xs.contains(x) ==> spec_dedup(xs).contains(x),
    decreases xs.len(),
{
    if xs.len() > 0 {
        let p = xs.drop_last();
        lemma_dedup_facts(p);
        let d = spec_dedup(p);
        assert forall|j: int| 0 <= j < spec_dedup(xs).len() implies xs.contains(#[trigger] spec_dedup(xs)[j]) by {
            if j < d.len() {
                let w = choose|w: int| 0 <= w < p.len() && p[w] == d[j];
                assert(xs[w] == d[j]);
            } else {
                assert(xs[xs.len() - 1] == xs.last());
            }
        }
        assert forall|x: Seq<char>| xs.contains(x) implies spec_dedup(xs).contains(x) by {
            let w = choose|w: int| 0 <= w < xs.len() && xs[w] == x;
            if w < xs.len() - 1 {
                assert(p[w] == x);
                assert(p.contains(x));
                let v = choose|v: int| 0 <= v < d.len() && d[v] == x;
                assert(spec_dedup(xs)[v] == x);
            } else if !d.contains(xs.last()) {
                assert(spec_dedup(xs)[d.len() as int] == x);
            }
        }
    }
}

proof fn lemma_labels_lower(s: Seq<char>, k: int)
    ensures
        forall|j: int, m: int|
            0 <= j < spec_labels_before(s, k).len() && 0 <= m < spec_labels_before(s, k)[j].len()
                ==> !('A' <= #[trigger] spec_labels_before(s, k)[j][m] && spec_labels_before(s, k)[j][m] <= 'Z'),
    decreases k,
{
    if k > 0 {
        lemma_labels_lower(s, k - 1);
        let prev = spec_labels_before(s, k - 1);
        let cur = spec_labels_before(s, k);
        if spec_tag_starts_at(s, k - 1) {
            let lab = spec_tag_label(s, k - 1);
            lemma_tag_end_lower(s, k);
            let sub = s.subrange(k, spec_tag_end(s, k));
            assert forall|j: int, m: int| 0 <= j < cur.len() && 0 <= m < cur[j].len() implies !('A'
                <= #[trigger] cur[j][m] && cur[j][m] <= 'Z') by {
                if j < prev.len() {
                    assert(cur[j] == prev[j]);
                    assert(!('A' <= prev[j][m] && prev[j][m] <= 'Z'));
                } else {
                    assert(cur[j] == lab);
                    assert(lab[m] == spec_ascii_lower(sub[m]));
                    lemma_lower_char(sub[m]);
                }
            }
        }
    }
}

/// Tags do not depend on case: lower-casing the text yields the same labels.
pub proof fn law_tags_ignore_case(text: Seq<char>)
    ensures
        spec_extract_tags(spec_lower(text)) == spec_extract_tags(text),
{
    lemma_labels_before_lower(text, text.len() as int);
    assert(spec_lower(text).len() == text.len());
}

/// The labels found are distinct, and none holds an upper-case letter.
pub proof fn law_tags_distinct_and_lowercase(text: Seq<char>)
    ensures
        spec_extract_tags(text).no_duplicates(),
        forall|j: int, m: int|
            0 <= j < spec_extract_tags(text).len() && 0 <= m < spec_extract_tags(text)[j].len()
                ==> !('A' <= #[trigger] spec_extract_tags(text)[j][m] && spec_extract_tags(text)[j][m] <= 'Z'),
{
    let xs = spec_labels_before(text, text.len() as int);
    lemma_dedup_facts(xs);
    lemma_labels_lower(text, text.len() as int);
    assert forall|j: int, m: int|
        0 <= j < spec_extract_tags(text).len() && 0 <= m < spec_extract_tags(text)[j].len()
            implies !('A' <= #[trigger] spec_extract_tags(text)[j][m] && spec_extract_tags(text)[j][m] <= 'Z') by {
        let w = choose|w: int| 0 <= w < xs.len() && xs[w] == spec_dedup(xs)[j];
        assert(xs[w][m] == spec_extract_tags(text)[j][m]);
    }
}

} // verus!
