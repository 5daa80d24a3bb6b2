//! The page content cache: raw page files are minified once, the landing page
//! additionally has the static list of unit display names substituted into
//! its template, and the results are held as an immutable mapping from
//! logical path to rendered body. In production the mapping is preloaded and
//! served from memory; in development every request re-renders from source.

use vstd::prelude::*;

verus! {

/// The minified form of an HTML string, as the minifier computes it from the
/// text alone.
pub uninterp spec fn minified_of(raw: Seq<char>) -> Seq<char>;

/// Whether the minifier accepts an HTML string; like its output, a function
/// of the input text alone.
pub uninterp spec fn minify_ok(raw: Seq<char>) -> bool;

/// The rendering of a template against a context holding the given list of
/// unit display names, as the template engine computes it from template and
/// list alone.
pub uninterp spec fn units_rendering(template: Seq<char>, units: Seq<Seq<char>>) -> Seq<char>;

/// Whether the template engine accepts a template against a context holding
/// the given list of unit display names; a function of template and list
/// alone.
pub uninterp spec fn render_ok(template: Seq<char>, units: Seq<Seq<char>>) -> bool;

/// Relies on html-minifier's `minify`: both the outcome and the minified
/// form are functions of the input text alone. Malformed markup is rejected
/// with the minifier's message.
#[verifier::external_body]
fn minify_html(raw: &str) -> (r: Result<String, String>)
    ensures
        r is Ok <==> minify_ok(raw@),
        r matches Ok(s) ==> s@ == minified_of(raw@),
{
    html_minifier::minify(raw).map_err(|e| e.to_string())
}

/// Characters the template grammar may interleave between a mustache
/// opening and the marker that introduces a partial or a decorator:
/// whitespace, the whitespace omitter, and the block marker.
pub open spec fn partial_skip_char(c: char) -> bool {
    c == ' ' || c == '\t' || c == '\n' || c == '\r' || c == '~' || c == '#'
}

/// A mustache opens at `i`, and the first character after it past
/// whitespace, omitters and block markers is the `>` or `*` at `j`: the
/// shape of every partial inclusion, partial block, inline-partial
/// definition and decorator the template grammar admits.
pub open spec fn partial_marker_at(s: Seq<char>, i: int, j: int) -> bool {
    &&& 0 <= i
    &&& i + 2 <= j < s.len()
    &&& s[i] == '{'
    &&& s[i + 1] == '{'
    &&& (forall|k: int| i + 2 <= k < j ==> partial_skip_char(#[trigger] s[k]))
    &&& (s[j] == '>' || s[j] == '*')
}

/// The text holds a construct that can define or include a template partial
/// (or a decorator, which shares the marker).
pub open spec fn has_partial_syntax(s: Seq<char>) -> bool {
    exists|i: int, j: int| partial_marker_at(s, i, j)
}

/// Whether a character may stand between a mustache opening and a partial
/// marker.
fn is_partial_skip(c: char) -> (r: bool)
    ensures
        r == partial_skip_char(c),
{
    c == ' ' || c == '\t' || c == '\n' || c == '\r' || c == '~' || c == '#'
}

/// Scan a template's text for partial or decorator syntax.
fn contains_partial_syntax(s: &str) -> (r: bool)
    ensures
        r == has_partial_syntax(s@),
{
    let n = s.unicode_len();
    let mut i: usize = 0;
    while i < n
        invariant
            n == s@.len(),
            i <= n,
            forall|a: int, b: int| 0 <= a < i ==> !partial_marker_at(s@, a, b),
        decreases n - i,
    {
        if i + 1 < n && s.get_char(i) == '{' && s.get_char(i + 1) == '{' {
            let mut j: usize = i + 2;
            while j < n && is_partial_skip(s.get_char(j))
                invariant
                    n == s@.len(),
                    i + 2 <= j <= n,
                    i + 1 < n,
                    s@[i as int] == '{',
                    s@[i as int + 1] == '{',
                    forall|k: int| i + 2 <= k < j ==> partial_skip_char(#[trigger] s@[k]),
                decreases n - j,
            {
                j = j + 1;
            }
            if j < n {
                let c = s.get_char(j);
                if c == '>' || c == '*' {
                    proof {
                        assert(partial_marker_at(s@, i as int, j as int));
                    }
                    return true;
                }
            }
            proof {
                assert forall|b: int| !partial_marker_at(s@, i as int, b) by {
                    if i + 2 <= b < s@.len() {
                        if b < j {
                            assert(partial_skip_char(s@[b]));
                        } else if j < b {
                            assert(j < s@.len() && !partial_skip_char(s@[j as int]));
                        }
                    }
                }
            }
        }
        i = i + 1;
    }
    proof {
        assert forall|a: int, b: int| !partial_marker_at(s@, a, b) by {
            if 0 <= a < i {
            }
        }
    }
    false
}

/// Relies on handlebars' `Handlebars::render_template` on a fresh registry,
/// against a context with the unit display names under the key `units`: both
/// the outcome and the output are functions of template and names alone. A
/// malformed template is rejected with the engine's message. Templates that
/// define or include partials are left out: the engine's recursion guard
/// does not stop inline partials that include each other, so such a call may
/// never return.
#[verifier::external_body]
fn render_with_units(template: &str, units: &Vec<String>) -> (r: Result<String, String>)
    requires
        !has_partial_syntax(template@),
    ensures
        r is Ok <==> render_ok(template@, units.deep_view()),
        r matches Ok(s) ==> s@ == units_rendering(template@, units.deep_view()),
{
    let mut context = serde_json::Map::new();
    context.insert("units".to_string(), serde_json::Value::from(units.clone()));
    let registry = handlebars::Handlebars::new();
    registry.render_template(template, &serde_json::Value::Object(context)).map_err(
        |e| e.to_string(),
    )
}

/// Why a page body could not be rendered.
#[derive(Debug, Clone)]
pub enum CacheError {
    /// The minifier rejected the page text; its message.
    Minify(String),
    /// The template engine rejected the landing page; its message.
    Render(String),
    /// The landing page's template defines or includes a template partial;
    /// it is refused before rendering, as the engine does not bound
    /// recursion through partials.
    UnsupportedTemplate,
}

/// The logical path of the landing page, the one page that gets the unit
/// list substituted at preload.
pub open spec fn spec_index_path() -> Seq<char> {
    "pages/index.html"@
}

/// The static list of unit display names offered on the landing page.
pub open spec fn spec_display_units() -> Seq<Seq<char>> {
    seq!["Times"@, "Rakah"@, "Minutes"@, "Hours"@, "Days"@]
}

/// The unit display names substituted into the landing page, in their
/// display order.
pub fn display_unit_names() -> (r: Vec<String>)
    ensures
        r.deep_view() == spec_display_units(),
{
    let mut r: Vec<String> = Vec::new();
    r.push(String::from_str("Times"));
    r.push(String::from_str("Rakah"));
    r.push(String::from_str("Minutes"));
    r.push(String::from_str("Hours"));
    r.push(String::from_str("Days"));
    proof {
        assert(r.deep_view() =~= spec_display_units());
    }
    r
}

/// The rendered body of a page: its raw text minified, and for the landing
/// page the unit list then substituted into the minified template.
pub open spec fn prepared(path: Seq<char>, raw: Seq<char>, out: Seq<char>) -> bool {
    if path == spec_index_path() {
        out == units_rendering(minified_of(raw), spec_display_units())
    } else {
        out == minified_of(raw)
    }
}

/// A page's raw text renders: the minifier accepts it, and for the landing
/// page the minified template is free of partial syntax and the template
/// engine then accepts it against the unit list.
pub open spec fn page_renders(path: Seq<char>, raw: Seq<char>) -> bool {
    &&& minify_ok(raw)
    &&& path == spec_index_path() ==> !has_partial_syntax(minified_of(raw)) && render_ok(
        minified_of(raw),
        spec_display_units(),
    )
}

/// Render one page body from its raw file text: minify it, and substitute
/// the unit display names when the path is the landing page's. Succeeds
/// exactly when the page's text renders; the minifier's rejection comes as
/// `Minify`, a landing page with partial syntax as `UnsupportedTemplate`,
/// and the engine's rejection as `Render`.
pub fn prepare_content(path: &String, raw: &str) -> (r: Result<String, CacheError>)
    ensures
        r is Ok <==> page_renders(path@, raw@),
        r matches Ok(c) ==> prepared(path@, raw@, c@),
        r matches Err(e) ==> if !minify_ok(raw@) {
            e is Minify
        } else if has_partial_syntax(minified_of(raw@)) {
            e is UnsupportedTemplate
        } else {
            e is Render
        },
{
    let minified = match minify_html(raw) {
        Ok(m) => m,
        Err(e) => {
            return Err(CacheError::Minify(e));
        },
    };
    if *path == String::from_str("pages/index.html") {
        if contains_partial_syntax(minified.as_str()) {
            return Err(CacheError::UnsupportedTemplate);
        }
        let units = display_unit_names();
        match render_with_units(minified.as_str(), &units) {
            Ok(rendered) => Ok(rendered),
            Err(e) => Err(CacheError::Render(e)),
        }
    } else {
        Ok(minified)
    }
}

/// The process-wide mapping from logical page path to rendered body, built
/// once before serving begins and read-only afterwards.
pub struct PageCache {
    entries: Vec<(String, String)>,
}

impl View for PageCache {
    type V = Seq<(Seq<char>, Seq<char>)>;

    closed spec fn view(&self) -> Seq<(Seq<char>, Seq<char>)> {
        Seq::new(self.entries@.len(), |i: int| (self.entries@[i].0@, self.entries@[i].1@))
    }
}

/// The body an entry sequence associates with a path: that of the latest
/// entry carrying the path, as repeated preloads of one path overwrite
/// earlier ones.
pub open spec fn lookup_in(entries: Seq<(Seq<char>, Seq<char>)>, path: Seq<char>) -> Option<
    Seq<char>,
>
    decreases entries.len(),
{
    if entries.len() == 0 {
        None
    } else if entries.last().0 == path {
        Some(entries.last().1)
    } else {
        lookup_in(entries.drop_last(), path)
    }
}

impl PageCache {
    /// The preloaded body under a logical path, if the path was preloaded.
    pub fn lookup(&self, path: &String) -> (r: Option<String>)
        ensures
            match r {
                Some(c) => lookup_in(self@, path@) == Some(c@),
                None => lookup_in(self@, path@) is None,
            },
    {
        let mut i: usize = self.entries.len();
        proof {
            assert(self@.subrange(0, i as int) =~= self@);
        }
        while i > 0
            invariant
                i <= self.entries@.len(),
                lookup_in(self@, path@) == lookup_in(self@.subrange(0, i as int), path@),
            decreases i,
        {
            proof {
                assert(self@.subrange(0, i as int).drop_last() =~= self@.subrange(0, i as int - 1));
            }
            let entry = &self.entries[i - 1];
            if entry.0 == *path {
                return Some(entry.1.clone());
            }
            i = i - 1;
        }
        proof {
            assert(self@.subrange(0, 0) =~= Seq::<(Seq<char>, Seq<char>)>::empty());
        }
        None
    }
}

/// Preload the cache: render every given `(path, raw text)` page once and
/// hold the results. Succeeds exactly when every page's text renders, and
/// fails with the first page that does not.
pub fn initialize_cache(files: &Vec<(String, String)>) -> (r: Result<PageCache, CacheError>)
    ensures
        r is Ok <==> forall|i: int|
            0 <= i < files@.len() ==> page_renders((#[trigger] files@[i]).0@, files@[i].1@),
        r matches Ok(c) ==> {
            &&& c@.len() == files@.len()
            &&& forall|i: int|
                0 <= i < files@.len() ==> (#[trigger] c@[i]).0 == files@[i].0@ && prepared(
                    files@[i].0@,
                    files@[i].1@,
                    c@[i].1,
                )
        },
        r matches Err(e) ==> exists|i: int|
            {
                &&& 0 <= i < files@.len()
                &&& !page_renders((#[trigger] files@[i]).0@, files@[i].1@)
                &&& forall|j: int|
                    0 <= j < i ==> page_renders((#[trigger] files@[j]).0@, files@[j].1@)
                &&& if !minify_ok(files@[i].1@) {
                    e is Minify
                } else if has_partial_syntax(minified_of(files@[i].1@)) {
                    e is UnsupportedTemplate
                } else {
                    e is Render
                }
            },
{
    let mut entries: Vec<(String, String)> = Vec::new();
    let n = files.len();
    let mut i: usize = 0;
    while i < n
        invariant
            n == files@.len(),
            i <= n,
            entries@.len() == i,
            forall|k: int|
                0 <= k < i ==> page_renders((#[trigger] files@[k]).0@, files@[k].1@),
            forall|k: int|
                0 <= k < i ==> (#[trigger] entries@[k]).0@ == files@[k].0@ && prepared(
                    files@[k].0@,
                    files@[k].1@,
                    entries@[k].1@,
                ),
        decreases n - i,
    {
        let file = &files[i];
        let content = match prepare_content(&file.0, file.1.as_str()) {
            Ok(c) => c,
            Err(e) => {
                return Err(e);
            },
        };
        entries.push((file.0.clone(), content));
        i = i + 1;
    }
    let cache = PageCache { entries };
    proof {
        assert forall|i: int| 0 <= i < files@.len() implies (#[trigger] cache@[i]).0
            == files@[i].0@ && prepared(files@[i].0@, files@[i].1@, cache@[i].1) by {
            assert(cache@[i] == (cache.entries@[i].0@, cache.entries@[i].1@));
        }
    }
    Ok(cache)
}

/// The cache mode the environment selects: development re-renders every
/// request from source; production serves the preloaded mapping.
#[derive(Debug, Clone, Copy, PartialEq, Eq, Structural)]
pub enum CacheMode {
    Development,
    Production,
}

/// The mode an environment label selects: the production label turns the
/// preloaded mapping on; every other label, the development default among
/// them, re-renders per request.
pub fn cache_mode_of(label: &String) -> (r: CacheMode)
    ensures
        r == (if label@ == "production"@ {
            CacheMode::Production
        } else {
            CacheMode::Development
        }),
{
    if *label == String::from_str("production") {
        CacheMode::Production
    } else {
        CacheMode::Development
    }
}

/// Where a requested page's body comes from: the preloaded mapping, or a
/// fresh render from the source file.
#[derive(Debug, Clone)]
pub enum PageSource {
    /// Serve this preloaded body.
    Cached(String),
    /// Read the source file and render it on demand.
    LoadFromDisk,
}

/// Decide how to deliver a page: development always re-renders from source;
/// production serves the preloaded body, falling back to an on-demand render
/// when the path was never preloaded.
pub fn plan_page_delivery(cache: &PageCache, mode: CacheMode, path: &String) -> (r: PageSource)
    ensures
        mode == CacheMode::Development ==> r is LoadFromDisk,
        mode == CacheMode::Production ==> match lookup_in(cache@, path@) {
            Some(c) => r matches PageSource::Cached(s) && s@ == c,
            None => r is LoadFromDisk,
        },
{
    match mode {
        CacheMode::Development => PageSource::LoadFromDisk,
        CacheMode::Production => match cache.lookup(path) {
            Some(c) => PageSource::Cached(c),
            None => PageSource::LoadFromDisk,
        },
    }
}

/// The full path of a page file under the page directory.
pub fn page_path(filename: &String) -> (r: String)
    ensures
        r@ == "pages/"@ + filename@,
{
    let mut r = String::from_str("pages/");
    r.append(filename.as_str());
    r
}

} // verus!
