//! The pattern prefilter: categories of regular expressions that settle
//! the sign and magnitude of an utterance outright when one of them
//! matches. Categories and their patterns are tried in file order; the
//! first match wins.

use regex::Regex;
use vstd::prelude::*;
use crate::listener_perspective::types::{
    ListenerPerspectiveError, LpErrorView, Magnitude, PrefilterHit, Sign, magnitude_parse, sign_parse,
};

verus! {

#[verifier::external_type_specification]
#[verifier::external_body]
pub struct ExRegex(regex::Regex);

/// What `Regex::new` reports for `pattern`: `None` when it compiles, else
/// the text of its error. The pattern alone decides it (the size limit is
/// the crate's default).
pub uninterp spec fn regex_new_error(pattern: Seq<char>) -> Option<Seq<char>>;

/// A regular expression and the text it was compiled from. Only
/// `compile_pattern` makes one, so the regex is always that of the text.
#[derive(Debug)]
struct CompiledPattern {
    source: String,
    re: Regex,
}

/// Compiles `pattern` with `regex::Regex::new`. Claimed: it succeeds
/// exactly when `regex_new_error(pattern)` is `None`, keeping the text
/// beside the regex, and otherwise fails with that error's text (the
/// `Display` of `regex::Error`).
#[verifier::external_body]
fn compile_pattern(pattern: &str) -> (r: Result<CompiledPattern, String>)
    ensures
        match r {
            Ok(p) => regex_new_error(pattern@) is None && p.source@ == pattern@,
            Err(e) => regex_new_error(pattern@) == Some(e@),
        },
{
    match Regex::new(pattern) {
        Ok(re) => Ok(CompiledPattern { source: pattern.to_string(), re }),
        Err(e) => Err(e.to_string()),
    }
}

/// Whether the regular expression `pattern` matches somewhere in `text`,
/// as `regex::Regex::is_match` decides for the regex compiled from it. The
/// pattern and the text alone decide it.
pub uninterp spec fn regex_matches(pattern: Seq<char>, text: Seq<char>) -> bool;

/// Whether `p` matches somewhere in `text`, by `regex::Regex::is_match`.
/// Claimed: the answer is `regex_matches` of the pattern's text and `text`
/// (the regex was compiled from that text by `compile_pattern`).
#[verifier::external_body]
fn pattern_matches(p: &CompiledPattern, text: &str) -> (r: bool)
    ensures
        r == regex_matches(p.source@, text@),
{
    p.re.is_match(text)
}

/// A category as read from a pattern file.
#[derive(Debug, Clone)]
pub struct CategoryDef {
    pub name: String,
    /// `keep` or `invert`.
    pub sign: String,
    /// `weak`, `normal` or `strong`.
    pub magnitude: String,
    /// The default speaker probability, as a float bit pattern.
    pub p_s_default: u32,
    pub description: String,
    /// Regular expressions, in file order.
    pub patterns: Vec<String>,
}

#[derive(Debug)]
struct CompiledCategory {
    name: String,
    sign: Sign,
    magnitude: Magnitude,
    p_s_default: u32,
    patterns: Vec<CompiledPattern>,
}

/// The prefilter: compiled categories, in file order.
#[derive(Debug)]
pub struct Prefilter {
    categories: Vec<CompiledCategory>,
}

/// A compiled category: its name, sign, magnitude, default probability
/// bits and the source texts of its patterns.
pub struct CategoryView {
    pub name: Seq<char>,
    pub sign: Sign,
    pub magnitude: Magnitude,
    pub p_s_default: u32,
    pub patterns: Seq<Seq<char>>,
}

/// The source texts of compiled patterns.
spec fn pattern_sources(ps: Seq<CompiledPattern>) -> Seq<Seq<char>> {
    ps.map_values(|p: CompiledPattern| p.source@)
}

/// The texts of a sequence of strings.
pub open spec fn string_views(ps: Seq<String>) -> Seq<Seq<char>> {
    ps.map_values(|p: String| p@)
}

spec fn category_view(c: CompiledCategory) -> CategoryView {
    CategoryView {
        name: c.name@,
        sign: c.sign,
        magnitude: c.magnitude,
        p_s_default: c.p_s_default,
        patterns: pattern_sources(c.patterns@),
    }
}

impl View for Prefilter {
    type V = Seq<CategoryView>;

    closed spec fn view(&self) -> Seq<CategoryView> {
        self.categories@.map_values(|c: CompiledCategory| category_view(c))
    }
}

/// The first pattern of `patterns` that does not compile, as the error of
/// the category `name`.
pub open spec fn pattern_fault(name: Seq<char>, patterns: Seq<Seq<char>>) -> Option<LpErrorView>
    decreases patterns.len(),
{
    if patterns.len() == 0 {
        None
    } else {
        match regex_new_error(patterns[0]) {
            Some(reason) => Some(LpErrorView::PatternCompile { category: name, pattern: patterns[0], reason }),
            None => pattern_fault(name, patterns.drop_first()),
        }
    }
}

/// What is wrong with a category: its sign, else its magnitude, else its
/// first pattern that does not compile.
pub open spec fn category_fault(d: CategoryDef) -> Option<LpErrorView> {
    if sign_parse(d.sign@) is None {
        Some(LpErrorView::InvalidSign(d.sign@))
    } else if magnitude_parse(d.magnitude@) is None {
        Some(LpErrorView::InvalidMagnitude(d.magnitude@))
    } else {
        pattern_fault(d.name@, string_views(d.patterns@))
    }
}

/// The fault of the first faulty category, in file order.
pub open spec fn categories_fault(ds: Seq<CategoryDef>) -> Option<LpErrorView>
    decreases ds.len(),
{
    if ds.len() == 0 {
        None
    } else if category_fault(ds[0]) is Some {
        category_fault(ds[0])
    } else {
        categories_fault(ds.drop_first())
    }
}

/// Whether the compiled form `c` is what the category `d` compiles to.
pub open spec fn compiled_from(c: CategoryView, d: CategoryDef) -> bool {
    &&& c.name == d.name@
    &&& sign_parse(d.sign@) == Some(c.sign)
    &&& magnitude_parse(d.magnitude@) == Some(c.magnitude)
    &&& c.p_s_default == d.p_s_default
    &&& c.patterns == string_views(d.patterns@)
}

/// Compiles the patterns of the category `name`, stopping at the first
/// one that does not compile.
fn compile_patterns(name: &String, patterns: &Vec<String>) -> (r: Result<Vec<CompiledPattern>, ListenerPerspectiveError>)
    ensures
        match r {
            Ok(v) => pattern_fault(name@, string_views(patterns@)) is None && pattern_sources(v@) == string_views(
                patterns@,
            ),
            Err(e) => pattern_fault(name@, string_views(patterns@)) == Some(e@),
        },
{
    let ghost all = string_views(patterns@);
    let mut out: Vec<CompiledPattern> = Vec::new();
    let n = patterns.len();
    let mut j: usize = 0;
    assert(all.skip(0) =~= all);
    while j < n
        invariant
            n == patterns@.len(),
            all == string_views(patterns@),
            j <= n,
            pattern_fault(name@, all) == pattern_fault(name@, all.skip(j as int)),
            pattern_sources(out@) == all.take(j as int),
        decreases n - j,
    {
        proof {
            assert(all.skip(j as int)[0] == patterns@[j as int]@);
            assert(all.skip(j as int).drop_first() =~= all.skip(j + 1));
        }
        match compile_pattern(patterns[j].as_str()) {
            Ok(compiled) => {
                let ghost before = out@;
                out.push(compiled);
                assert(pattern_sources(out@) =~= all.take(j + 1)) by {
                    assert(pattern_sources(out@) =~= pattern_sources(before).push(patterns@[j as int]@));
                }
            },
            Err(reason) => {
                return Err(
                    ListenerPerspectiveError::PatternCompile {
                        category: name.clone(),
                        pattern: patterns[j].clone(),
                        reason,
                    },
                );
            },
        }
        j = j + 1;
    }
    assert(all.skip(n as int) =~= Seq::<Seq<char>>::empty());
    assert(all.take(n as int) =~= all);
    Ok(out)
}

/// The first pattern of `ps`, from index `j` on, that matches `text`.
pub open spec fn first_match_from(ps: Seq<Seq<char>>, text: Seq<char>, j: int) -> Option<int>
    decreases ps.len() - j,
{
    if j < 0 || j >= ps.len() {
        None
    } else if regex_matches(ps[j], text) {
        Some(j)
    } else {
        first_match_from(ps, text, j + 1)
    }
}

/// The first hit on `text` of the categories of `cats` from index `i` on:
/// the category and the index of its first matching pattern.
pub open spec fn first_hit_from(cats: Seq<CategoryView>, text: Seq<char>, i: int) -> Option<(int, int)>
    decreases cats.len() - i,
{
    if i < 0 || i >= cats.len() {
        None
    } else {
        match first_match_from(cats[i].patterns, text, 0) {
            Some(j) => Some((i, j)),
            None => first_hit_from(cats, text, i + 1),
        }
    }
}

/// Whether `h` is the hit that pattern `j` of category `c` makes.
pub open spec fn hit_of(c: CategoryView, j: int, h: PrefilterHit) -> bool {
    &&& h.sign == c.sign
    &&& h.magnitude == c.magnitude
    &&& h.p_s_default == c.p_s_default
    &&& h.matched_category@ == c.name
    &&& h.matched_pattern@ == c.patterns[j]
}

impl Prefilter {
    /// Compiles the categories read from a pattern file, in order. The
    /// first category whose sign or magnitude is unknown, or that has a
    /// pattern that does not compile, makes the whole file fail with that
    /// error.
    pub fn from_categories(defs: Vec<CategoryDef>) -> (r: Result<Prefilter, ListenerPerspectiveError>)
        ensures
            match r {
                Ok(p) => categories_fault(defs@) is None && p@.len() == defs@.len() && forall|i: int|
                    0 <= i < defs@.len() ==> compiled_from(#[trigger] p@[i], defs@[i]),
                Err(e) => categories_fault(defs@) == Some(e@),
            },
    {
        let ghost ds = defs@;
        let n = defs.len();
        let mut categories: Vec<CompiledCategory> = Vec::new();
        let mut i: usize = 0;
        assert(ds.skip(0) =~= ds);
        while i < n
            invariant
                n == ds.len(),
                ds == defs@,
                i <= n,
                categories_fault(ds) == categories_fault(ds.skip(i as int)),
                categories@.len() == i,
                forall|k: int| 0 <= k < i ==> compiled_from(#[trigger] category_view(categories@[k]), ds[k]),
            decreases n - i,
        {
            let d = &defs[i];
            proof {
                assert(ds.skip(i as int)[0] == ds[i as int]);
                assert(ds.skip(i as int).drop_first() =~= ds.skip(i + 1));
            }
            let sign = match Sign::from_str(d.sign.as_str()) {
                Ok(s) => s,
                Err(e) => {
                    return Err(e);
                },
            };
            let magnitude = match Magnitude::from_str(d.magnitude.as_str()) {
                Ok(m) => m,
                Err(e) => {
                    return Err(e);
                },
            };
            let patterns = match compile_patterns(&d.name, &d.patterns) {
                Ok(v) => v,
                Err(e) => {
                    return Err(e);
                },
            };
            categories.push(
                CompiledCategory { name: d.name.clone(), sign, magnitude, p_s_default: d.p_s_default, patterns },
            );
            i = i + 1;
        }
        assert(ds.skip(n as int) =~= Seq::<CategoryDef>::empty());
        let p = Prefilter { categories };
        assert forall|k: int| 0 <= k < ds.len() implies compiled_from(#[trigger] p@[k], ds[k]) by {
            assert(p@[k] == category_view(p.categories@[k]));
        }
        Ok(p)
    }

    /// The hit that pattern `j` of category `i` makes.
    pub fn hit_at(&self, i: usize, j: usize) -> (r: PrefilterHit)
        requires
            i < self@.len(),
            j < self@[i as int].patterns.len(),
        ensures
            hit_of(self@[i as int], j as int, r),
    {
        let cat = &self.categories[i];
        proof {
            assert(self@[i as int] == category_view(self.categories@[i as int]));
        }
        PrefilterHit {
            sign: cat.sign,
            magnitude: cat.magnitude,
            p_s_default: cat.p_s_default,
            matched_category: cat.name.clone(),
            matched_pattern: cat.patterns[j].source.clone(),
        }
    }

    /// The first hit of the categories and their patterns, in order, on
    /// `utterance`; `None` when no pattern matches.
    pub fn classify(&self, utterance: &str) -> (r: Option<PrefilterHit>)
        ensures
            match first_hit_from(self@, utterance@, 0) {
                None => r is None,
                Some((i, j)) => r matches Some(h) && hit_of(self@[i], j, h),
            },
    {
        let n = self.categories.len();
        let mut i: usize = 0;
        while i < n
            invariant
                n == self@.len(),
                i <= n,
                first_hit_from(self@, utterance@, 0) == first_hit_from(self@, utterance@, i as int),
            decreases n - i,
        {
            let cat = &self.categories[i];
            let ghost ps = self@[i as int].patterns;
            proof {
                assert(self@[i as int] == category_view(self.categories@[i as int]));
            }
            let m = cat.patterns.len();
            let mut j: usize = 0;
            while j < m
                invariant
                    n == self@.len(),
                    i < n,
                    cat == &self.categories@[i as int],
                    ps == self@[i as int].patterns,
                    ps == pattern_sources(cat.patterns@),
                    m == cat.patterns@.len(),
                    j <= m,
                    first_match_from(ps, utterance@, 0) == first_match_from(ps, utterance@, j as int),
                    first_hit_from(self@, utterance@, 0) == first_hit_from(self@, utterance@, i as int),
                decreases m - j,
            {
                if pattern_matches(&cat.patterns[j], utterance) {
                    assert(ps[j as int] == cat.patterns@[j as int].source@);
                    assert(first_match_from(ps, utterance@, j as int) == Some(j as int));
                    assert(first_hit_from(self@, utterance@, i as int) == Some((i as int, j as int)));
                    return Some(self.hit_at(i, j));
                }
                j = j + 1;
            }
            i = i + 1;
        }
        None
    }

    /// The category names, in file order.
    pub fn category_names(&self) -> (r: Vec<&str>)
        ensures
            r@.len() == self@.len(),
            forall|i: int| 0 <= i < r@.len() ==> #[trigger] r@[i]@ == self@[i].name,
    {
        let mut out: Vec<&str> = Vec::new();
        let n = self.categories.len();
        let mut i: usize = 0;
        while i < n
            invariant
                n == self.categories@.len(),
                i <= n,
                out@.len() == i,
                forall|k: int| 0 <= k < i ==> #[trigger] out@[k]@ == self@[k].name,
            decreases n - i,
        {
            proof {
                assert(self@[i as int] == category_view(self.categories@[i as int]));
            }
            out.push(self.categories[i].name.as_str());
            i = i + 1;
        }
        out
    }

    /// The number of categories.
    pub fn category_count(&self) -> (r: usize)
        ensures
            r == self@.len(),
    {
        self.categories.len()
    }
}

} // verus!
