//! The template resolver: a requested filename can encode a configured
//! rendition preset by convention, as `<template>_<stem>` (prefix) or
//! `<stem>_<template>` (suffix). Resolution splits the name on `_`, scans the
//! configured templates in order — the first match wins — and strips the
//! matched pattern to recover the canonical on-disk stem.

use vstd::prelude::*;
use vstd::string::StrSliceExecFns;
use crate::encoding::ImageEncoding;
use crate::transcoder::PixelSize;

verus! {

/// Whether a template's name is matched against the first token (before the
/// first `_`) or the last token (after the last `_`) of a requested name.
#[derive(Debug, Clone, Copy, PartialEq, Eq, Structural)]
pub enum TemplateType {
    Prefix,
    Suffix,
}

/// A named, fixed-size output rendition triggered by filename convention.
#[derive(Debug)]
pub struct TemplateSettings {
    pub location: TemplateType,
    pub name: String,
    pub size: PixelSize,
    pub format: ImageEncoding,
}

/// Whether the name holds a `_` delimiter at all; without one there are no
/// candidate tokens and resolution always fails.
pub open spec fn has_underscore(s: Seq<char>) -> bool {
    exists|i: int| 0 <= i < s.len() && s[i] == '_'
}

/// The candidate prefix token: the characters before the first `_` (the
/// whole name when there is none).
pub open spec fn prefix_tok(s: Seq<char>) -> Seq<char>
    decreases s.len(),
{
    if s.len() == 0 {
        Seq::empty()
    } else if s[0] == '_' {
        Seq::empty()
    } else {
        seq![s[0]] + prefix_tok(s.drop_first())
    }
}

/// The candidate suffix token: the characters after the last `_` (the whole
/// name when there is none).
pub open spec fn suffix_tok(s: Seq<char>) -> Seq<char>
    decreases s.len(),
{
    if s.len() == 0 {
        Seq::empty()
    } else if s.last() == '_' {
        Seq::empty()
    } else {
        suffix_tok(s.drop_last()) + seq![s.last()]
    }
}

/// Whether one template matches a requested name: the name must carry a `_`,
/// and the template's name must equal the candidate token its location
/// selects.
pub open spec fn template_matches(t: TemplateSettings, s: Seq<char>) -> bool {
    has_underscore(s) && match t.location {
        TemplateType::Prefix => t.name@ == prefix_tok(s),
        TemplateType::Suffix => t.name@ == suffix_tok(s),
    }
}

/// The index of the first template that matches, scanning in configured
/// order; ambiguity between templates is settled by list order alone.
pub open spec fn first_match_idx(s: Seq<char>, ts: Seq<TemplateSettings>) -> Option<int>
    decreases ts.len(),
{
    if ts.len() == 0 {
        None
    } else if template_matches(ts[0], s) {
        Some(0)
    } else {
        match first_match_idx(s, ts.drop_first()) {
            Some(i) => Some(i + 1),
            None => None,
        }
    }
}

/// The canonical stem left after stripping a matched template's pattern:
/// `name_` from the front for a prefix template, `_name` from the back for a
/// suffix template.
pub open spec fn canonical_stem(s: Seq<char>, t: TemplateSettings) -> Seq<char> {
    match t.location {
        TemplateType::Prefix => s.subrange(t.name@.len() as int + 1, s.len() as int),
        TemplateType::Suffix => s.subrange(0, s.len() - t.name@.len() - 1),
    }
}

/// A matched prefix template's name sits at the front of the name, followed
/// by the first `_`.
proof fn lemma_prefix_tok_shape(s: Seq<char>, j: int)
    requires
        0 <= j < s.len(),
        s[j] == '_',
        forall|k: int| 0 <= k < j ==> s[k] != '_',
    ensures
        prefix_tok(s) =~= s.subrange(0, j),
    decreases j,
{
    if j == 0 {
    } else {
        lemma_prefix_tok_shape(s.drop_first(), j - 1);
        assert(prefix_tok(s) =~= seq![s[0]] + prefix_tok(s.drop_first()));
        assert(s.drop_first().subrange(0, j - 1) =~= s.subrange(1, j));
        assert(seq![s[0]] + s.subrange(1, j) =~= s.subrange(0, j));
    }
}

/// A matched suffix template's name sits at the back of the name, preceded
/// by the last `_`.
proof fn lemma_suffix_tok_shape(s: Seq<char>, j: int)
    requires
        0 <= j < s.len(),
        s[j] == '_',
        forall|k: int| j < k < s.len() ==> s[k] != '_',
    ensures
        suffix_tok(s) =~= s.subrange(j + 1, s.len() as int),
    decreases s.len() - j,
{
    if j == s.len() - 1 {
    } else {
        lemma_suffix_tok_shape(s.drop_last(), j);
        assert(suffix_tok(s) =~= suffix_tok(s.drop_last()) + seq![s.last()]);
        assert(s.drop_last().subrange(j + 1, s.len() - 1) =~= s.subrange(j + 1, s.len() - 1));
        assert(s.subrange(j + 1, s.len() - 1) + seq![s.last()] =~= s.subrange(
            j + 1,
            s.len() as int,
        ));
    }
}

/// When a name has no `_`, no template matches it.
proof fn lemma_no_underscore_no_match(s: Seq<char>, ts: Seq<TemplateSettings>)
    requires
        !has_underscore(s),
    ensures
        first_match_idx(s, ts) is None,
    decreases ts.len(),
{
    if ts.len() > 0 {
        lemma_no_underscore_no_match(s, ts.drop_first());
    }
}

/// The first match is exactly the first index whose template matches.
proof fn lemma_first_match_at(s: Seq<char>, ts: Seq<TemplateSettings>, i: int)
    requires
        0 <= i < ts.len(),
        template_matches(ts[i], s),
        forall|j: int| 0 <= j < i ==> !template_matches(#[trigger] ts[j], s),
    ensures
        first_match_idx(s, ts) == Some(i),
    decreases i,
{
    if i > 0 {
        lemma_first_match_at(s, ts.drop_first(), i - 1);
    }
}

/// When no template matches, the scan reports no match.
proof fn lemma_first_match_none(s: Seq<char>, ts: Seq<TemplateSettings>)
    requires
        forall|j: int| 0 <= j < ts.len() ==> !template_matches(#[trigger] ts[j], s),
    ensures
        first_match_idx(s, ts) is None,
    decreases ts.len(),
{
    if ts.len() > 0 {
        lemma_first_match_none(s, ts.drop_first());
    }
}

/// A reported first match is a real match at its index.
pub proof fn lemma_first_match_is_match(s: Seq<char>, ts: Seq<TemplateSettings>)
    requires
        first_match_idx(s, ts) is Some,
    ensures
        ({
            let i = first_match_idx(s, ts)->0;
            0 <= i < ts.len() && template_matches(ts[i], s)
        }),
    decreases ts.len(),
{
    if ts.len() > 0 && !template_matches(ts[0], s) {
        lemma_first_match_is_match(s, ts.drop_first());
    }
}

/// Character-by-character string equality.
fn str_eq(a: &str, b: &str) -> (r: bool)
    ensures
        r == (a@ == b@),
{
    let n = a.unicode_len();
    if n != b.unicode_len() {
        return false;
    }
    let mut i: usize = 0;
    while i < n
        invariant
            i <= n,
            n == a@.len(),
            n == b@.len(),
            forall|j: int| 0 <= j < i ==> a@[j] == b@[j],
        decreases n - i,
    {
        if a.get_char(i) != b.get_char(i) {
            return false;
        }
        i += 1;
    }
    assert(a@ =~= b@);
    true
}

/// The position of the first `_` in the name, and of the last, or `None`
/// when the name holds no delimiter.
fn find_delimiters(s: &str) -> (r: Option<(usize, usize)>)
    ensures
        match r {
            Some((f, l)) => {
                &&& has_underscore(s@)
                &&& 0 <= f < s@.len() && s@[f as int] == '_'
                &&& forall|k: int| 0 <= k < f ==> s@[k] != '_'
                &&& 0 <= l < s@.len() && s@[l as int] == '_'
                &&& forall|k: int| l < k < s@.len() ==> s@[k] != '_'
            },
            None => !has_underscore(s@),
        },
{
    let n = s.unicode_len();
    let mut first: Option<usize> = None;
    let mut last: Option<usize> = None;
    let mut i: usize = 0;
    while i < n
        invariant
            i <= n,
            n == s@.len(),
            first is None ==> forall|k: int| 0 <= k < i ==> s@[k] != '_',
            first matches Some(f) ==> 0 <= f < i && s@[f as int] == '_' && forall|k: int|
                0 <= k < f ==> s@[k] != '_',
            last is None <==> first is None,
            last matches Some(l) ==> 0 <= l < i && s@[l as int] == '_' && forall|k: int|
                l < k < i ==> s@[k] != '_',
        decreases n - i,
    {
        if s.get_char(i) == '_' {
            if first.is_none() {
                first = Some(i);
            }
            last = Some(i);
        }
        i += 1;
    }
    match (first, last) {
        (Some(f), Some(l)) => Some((f, l)),
        _ => None,
    }
}

/// Scans the configured templates in order and returns the first whose
/// `(location, name)` matches the requested name's candidate prefix or
/// suffix token; `None` is the expected no-template-match outcome, not a
/// failure.
pub fn check_templates<'a>(
    image_name: &String,
    config_templates: &'a Vec<TemplateSettings>,
) -> (r: Option<&'a TemplateSettings>)
    ensures
        match r {
            Some(t) => {
                &&& first_match_idx(image_name@, config_templates@) matches Some(i)
                &&& *t == config_templates@[first_match_idx(image_name@, config_templates@)->0]
            },
            None => first_match_idx(image_name@, config_templates@) is None,
        },
{
    let s = image_name.as_str();
    let delims = find_delimiters(s);
    if delims.is_none() {
        proof {
            lemma_no_underscore_no_match(s@, config_templates@);
        }
        return None;
    }
    let (f, l) = delims.unwrap();
    let total = s.unicode_len();
    let prefix_candidate = s.substring_char(0, f);
    let suffix_candidate = s.substring_char(l + 1, total);
    proof {
        lemma_prefix_tok_shape(s@, f as int);
        lemma_suffix_tok_shape(s@, l as int);
    }
    let n = config_templates.len();
    let mut i: usize = 0;
    while i < n
        invariant
            i <= n,
            n == config_templates@.len(),
            prefix_candidate@ == prefix_tok(image_name@),
            suffix_candidate@ == suffix_tok(image_name@),
            has_underscore(image_name@),
            forall|j: int| 0 <= j < i ==> !template_matches(
                #[trigger] config_templates@[j],
                image_name@,
            ),
        decreases n - i,
    {
        let t = &config_templates[i];
        let matched = match t.location {
            TemplateType::Prefix => str_eq(t.name.as_str(), prefix_candidate),
            TemplateType::Suffix => str_eq(t.name.as_str(), suffix_candidate),
        };
        if matched {
            proof {
                lemma_first_match_at(image_name@, config_templates@, i as int);
            }
            return Some(t);
        }
        i += 1;
    }
    proof {
        lemma_first_match_none(image_name@, config_templates@);
    }
    None
}

/// Strips the matched `name_` or `_name` pattern from the requested name,
/// leaving the canonical on-disk stem.
pub fn remove_template_pattern(image: &str, template: &TemplateSettings) -> (r: String)
    requires
        template_matches(*template, image@),
    ensures
        r@ == canonical_stem(image@, *template),
{
    let n = template.name.as_str().unicode_len();
    let total = image.unicode_len();
    match template.location {
        TemplateType::Prefix => {
            proof {
                lemma_first_underscore_exists(image@);
                let j = choose|j: int|
                    0 <= j < image@.len() && image@[j] == '_' && forall|k: int|
                        0 <= k < j ==> image@[k] != '_';
                lemma_prefix_tok_shape(image@, j);
            }
            let stripped = image.substring_char(n + 1, total);
            stripped.to_owned()
        },
        TemplateType::Suffix => {
            proof {
                lemma_last_underscore_exists(image@);
                let j = choose|j: int|
                    0 <= j < image@.len() && image@[j] == '_' && forall|k: int|
                        j < k < image@.len() ==> image@[k] != '_';
                lemma_suffix_tok_shape(image@, j);
            }
            let stripped = image.substring_char(0, total - n - 1);
            stripped.to_owned()
        },
    }
}

/// A name with a `_` has a first `_`.
proof fn lemma_first_underscore_exists(s: Seq<char>)
    requires
        has_underscore(s),
    ensures
        exists|j: int|
            0 <= j < s.len() && s[j] == '_' && forall|k: int| 0 <= k < j ==> s[k] != '_',
    decreases s.len(),
{
    let w = choose|i: int| 0 <= i < s.len() && s[i] == '_';
    if s[0] == '_' {
        assert(0 <= 0 < s.len() && s[0] == '_' && forall|k: int| 0 <= k < 0 ==> s[k] != '_');
    } else {
        assert(has_underscore(s.drop_first())) by {
            assert(s.drop_first()[w - 1] == '_');
        }
        lemma_first_underscore_exists(s.drop_first());
        let j = choose|j: int|
            0 <= j < s.drop_first().len() && s.drop_first()[j] == '_' && forall|k: int|
                0 <= k < j ==> s.drop_first()[k] != '_';
        assert(s[j + 1] == '_');
        assert(forall|k: int| 0 <= k < j + 1 ==> s[k] != '_') by {
            assert(forall|k: int| 1 <= k < j + 1 ==> s[k] == s.drop_first()[k - 1]);
        }
    }
}

/// A name with a `_` has a last `_`.
proof fn lemma_last_underscore_exists(s: Seq<char>)
    requires
        has_underscore(s),
    ensures
        exists|j: int|
            0 <= j < s.len() && s[j] == '_' && forall|k: int| j < k < s.len() ==> s[k] != '_',
    decreases s.len(),
{
    let w = choose|i: int| 0 <= i < s.len() && s[i] == '_';
    if s.last() == '_' {
        assert(forall|k: int| s.len() - 1 < k < s.len() ==> s[k] != '_');
    } else {
        assert(has_underscore(s.drop_last())) by {
            assert(s.drop_last()[w] == '_');
        }
        lemma_last_underscore_exists(s.drop_last());
        let j = choose|j: int|
            0 <= j < s.drop_last().len() && s.drop_last()[j] == '_' && forall|k: int|
                j < k < s.drop_last().len() ==> s.drop_last()[k] != '_';
        assert(s[j] == '_');
        assert(forall|k: int| j < k < s.len() - 1 ==> s[k] == s.drop_last()[k]);
        assert(forall|k: int| j < k < s.len() ==> s[k] != '_');
    }
}

} // verus!
