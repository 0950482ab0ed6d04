//! Rendering of pages: which renderings are kept for reuse, under which key, and how a
//! rendering is finished.

use std::collections::hash_map::DefaultHasher;
use std::hash::Hasher;
use vstd::prelude::*;
use vstd::std_specs::hash::DefaultHasherAdditionalSpecFns;
use vstd::string::StringExecFns;
use vstd::utf8::{decode_utf8, encode_utf8, valid_utf8};

use crate::config::{lookup, parse_switch, switch_or, Environment};
use crate::text::{
    all_distinct, chars_of, concatenated, decimal_text, first_index, first_index_from,
    lemma_first_index_from, matches_at, occurs_at, optional_text, push_decimal, same_text,
};
use crate::validation::lowered;

verus! {

/// The number of renderings at which the cache is emptied before the next one is stored.
pub const TEMPLATE_CACHE_LIMIT: usize = 100;

/// How a page is made smaller. Each switch is one of the minifier.
#[derive(Debug, Clone, Copy, PartialEq, Eq, Structural)]
pub struct MinifyConfig {
    pub do_not_minify_doctype: bool,
    pub ensure_spec_compliant_unquoted_attribute_values: bool,
    pub keep_closing_tags: bool,
    pub keep_html_and_head_opening_tags: bool,
    pub keep_spaces_between_attributes: bool,
    pub keep_comments: bool,
    pub keep_input_type_text_attr: bool,
    pub keep_ssi_comments: bool,
    pub preserve_brace_template_syntax: bool,
    pub preserve_chevron_percent_template_syntax: bool,
    pub minify_css: bool,
    pub minify_js: bool,
    pub remove_bangs: bool,
    pub remove_processing_instructions: bool,
}

/// The bytes that the minifier makes of the page `html` under the switches `config`.
pub uninterp spec fn minified(html: Seq<char>, config: MinifyConfig) -> Seq<u8>;

/// Whether `c` can stand in the name of a tag: an ASCII letter, a digit, `:` or `-`.
pub open spec fn is_tag_name_char(c: char) -> bool {
    ('a' <= c && c <= 'z') || ('A' <= c && c <= 'Z') || ('0' <= c && c <= '9') || c == ':' || c
        == '-'
}

/// Whether `c` can stand in the name of a tag.
pub fn tag_name_char(c: char) -> (r: bool)
    ensures
        r == is_tag_name_char(c),
{
    ('a' <= c && c <= 'z') || ('A' <= c && c <= 'Z') || ('0' <= c && c <= '9') || c == ':' || c
        == '-'
}

/// A page is made smaller only if it has no more than this many places at which an
/// element may begin. The minifier descends once for each element that is open at the
/// same time, and an element begins only where a `<` is followed by a character of a
/// tag's name, so no page nests deeper than it has such places. Which of them nest the
/// minifier alone decides, by its own reading of tags, comments and quotes, so they are
/// all counted. A level takes the minifier about 4 KiB of stack in a build without
/// optimisation; 256 levels keep it within half of the 2 MiB that a thread has by
/// default.
pub const MAX_MINIFIED_NESTING: usize = 256;

/// Whether an element may begin in `html` at `at`: a `<` stands there, and after it a
/// character of a tag's name.
pub open spec fn starts_element(html: Seq<char>, at: int) -> bool {
    0 <= at && at + 1 < html.len() && html[at] == '<' && is_tag_name_char(html[at + 1])
}

/// The number of places before `end` at which an element may begin in `html`.
pub open spec fn element_starts_before(html: Seq<char>, end: int) -> nat
    decreases end,
{
    if end <= 0 {
        0
    } else {
        element_starts_before(html, end - 1) + if starts_element(html, end - 1) {
            1nat
        } else {
            0nat
        }
    }
}

/// The number of places at which an element may begin in `html`: no page nests deeper.
pub open spec fn element_starts(html: Seq<char>) -> nat {
    element_starts_before(html, html.len() as int)
}

/// The number of places at which an element may begin in `html`.
pub fn count_element_starts(html: &str) -> (n: usize)
    ensures
        n == element_starts(html@),
{
    let chars = chars_of(html);
    let mut n: usize = 0;
    let mut i: usize = 0;
    while i < chars.len()
        invariant
            i <= chars.len(),
            n <= i,
            n == element_starts_before(chars@, i as int),
        decreases chars.len() - i,
    {
        if chars[i] == '<' && i + 1 < chars.len() && tag_name_char(chars[i + 1]) {
            n += 1;
        }
        i += 1;
    }
    n
}

/// The small letter of an ASCII capital letter, and any other character itself.
pub fn ascii_lower(c: char) -> (r: char)
    ensures
        r == lowered(c),
{
    if 'A' <= c && c <= 'Z' {
        let code: u8 = c as u8;
        (code + 32) as char
    } else {
        c
    }
}

/// The page `html` with each ASCII capital letter made small.
pub open spec fn in_small_letters(html: Seq<char>) -> Seq<char> {
    Seq::new(html.len(), |i: int| lowered(html[i]))
}

/// The characters `chars` with each ASCII capital letter made small.
pub fn lowered_chars(chars: &[char]) -> (r: Vec<char>)
    ensures
        r@ == in_small_letters(chars@),
{
    let mut r: Vec<char> = Vec::new();
    let mut i: usize = 0;
    while i < chars.len()
        invariant
            i <= chars.len(),
            r@ == in_small_letters(chars@.take(i as int)),
        decreases chars.len() - i,
    {
        r.push(ascii_lower(chars[i]));
        assert(r@ =~= in_small_letters(chars@.take(i + 1)));
        i += 1;
    }
    assert(chars@.take(chars.len() as int) =~= chars@);
    r
}

/// Whether the closing tag `tag` (`</` and a name in small letters) stands in `html` at
/// `at`, in small or capital letters, with a name that runs on: the next character is
/// one of a tag's name too.
pub open spec fn name_runs_on(html: Seq<char>, tag: Seq<char>, at: int) -> bool {
    occurs_at(in_small_letters(html), tag, at) && at + tag.len() < html.len() && is_tag_name_char(
        html[at + tag.len()],
    )
}

/// Whether `html` holds at `at` the beginning of a closing tag of a script, a style, a
/// text area or a title whose name runs on, as in `</scripts>`.
pub open spec fn ends_raw_text_loosely(html: Seq<char>, at: int) -> bool {
    name_runs_on(html, "</script"@, at) || name_runs_on(html, "</style"@, at) || name_runs_on(
        html,
        "</textarea"@,
        at,
    ) || name_runs_on(html, "</title"@, at)
}

/// Whether no closing tag of a script, a style, a text area or a title in `html` has a
/// name that runs on. The minifier ends the content of such an element at the first
/// `</script`, `</style`, `</textarea` or `</title`, in small or capital letters, and
/// expects the tag that it reads there to bear the element's name.
pub open spec fn raw_text_ends_cleanly(html: Seq<char>) -> bool {
    forall|at: int| !#[trigger] ends_raw_text_loosely(html, at)
}

/// Whether the closing tag `tag` stands in `chars` at `at` with a name that runs on;
/// `lower` is `chars` in small letters.
fn runs_on(chars: &[char], lower: &[char], tag: &[char], at: usize) -> (r: bool)
    requires
        lower@ == in_small_letters(chars@),
    ensures
        r == name_runs_on(chars@, tag@, at as int),
{
    if matches_at(lower, tag, at) && tag.len() < chars.len() - at {
        tag_name_char(chars[at + tag.len()])
    } else {
        false
    }
}

/// Whether no closing tag of a script, a style, a text area or a title in `html` has a
/// name that runs on.
pub fn closes_raw_text_cleanly(html: &str) -> (r: bool)
    ensures
        r == raw_text_ends_cleanly(html@),
{
    let chars = chars_of(html);
    let lower = lowered_chars(chars.as_slice());
    let script = chars_of("</script");
    let style = chars_of("</style");
    let textarea = chars_of("</textarea");
    let title = chars_of("</title");
    let mut at: usize = 0;
    while at < chars.len()
        invariant
            at <= chars.len(),
            chars@ == html@,
            lower@ == in_small_letters(chars@),
            script@ == "</script"@,
            style@ == "</style"@,
            textarea@ == "</textarea"@,
            title@ == "</title"@,
            forall|k: int| 0 <= k < at ==> !#[trigger] ends_raw_text_loosely(html@, k),
        decreases chars.len() - at,
    {
        if runs_on(chars.as_slice(), lower.as_slice(), script.as_slice(), at) || runs_on(
            chars.as_slice(),
            lower.as_slice(),
            style.as_slice(),
            at,
        ) || runs_on(chars.as_slice(), lower.as_slice(), textarea.as_slice(), at) || runs_on(
            chars.as_slice(),
            lower.as_slice(),
            title.as_slice(),
            at,
        ) {
            assert(ends_raw_text_loosely(html@, at as int));
            return false;
        }
        at += 1;
    }
    assert forall|k: int| !#[trigger] ends_raw_text_loosely(html@, k) by {
        if k < 0 || k >= html@.len() {
            assert(!name_runs_on(html@, "</script"@, k));
            assert(!name_runs_on(html@, "</style"@, k));
            assert(!name_runs_on(html@, "</textarea"@, k));
            assert(!name_runs_on(html@, "</title"@, k));
        }
    }
    true
}

/// Whether the minifier is handed the page `html`: it nests no deeper than the minifier
/// is trusted to descend, and each script, style, text area and title ends in a tag of
/// its own name.
pub open spec fn fit_to_minify(html: Seq<char>) -> bool {
    element_starts(html) <= MAX_MINIFIED_NESTING && raw_text_ends_cleanly(html)
}

/// Makes the page `html` smaller with `minify_html::minify` under a `minify_html::Cfg`
/// that has the switches of `config`. The result depends on the page and the switches
/// alone. The switches are those for production, which leave scripts and styles to
/// themselves. The page has no more places at which an element may begin than the
/// minifier is trusted to descend, and none at which the minifier would read a closing
/// tag of another name than the element's whose content it has just ended.
#[verifier::external_body]
fn run_minifier(html: &str, config: &MinifyConfig) -> (r: Vec<u8>)
    requires
        *config == production_config(),
        element_starts(html@) <= MAX_MINIFIED_NESTING,
        raw_text_ends_cleanly(html@),
    ensures
        r@ == minified(html@, *config),
{
    let c = config;
    let cfg = minify_html::Cfg {
        do_not_minify_doctype: c.do_not_minify_doctype,
        ensure_spec_compliant_unquoted_attribute_values: c.ensure_spec_compliant_unquoted_attribute_values,
        keep_closing_tags: c.keep_closing_tags, keep_comments: c.keep_comments,
        keep_html_and_head_opening_tags: c.keep_html_and_head_opening_tags,
        keep_spaces_between_attributes: c.keep_spaces_between_attributes,
        keep_input_type_text_attr: c.keep_input_type_text_attr, keep_ssi_comments: c.keep_ssi_comments,
        preserve_brace_template_syntax: c.preserve_brace_template_syntax,
        preserve_chevron_percent_template_syntax: c.preserve_chevron_percent_template_syntax,
        minify_css: c.minify_css, minify_js: c.minify_js, remove_bangs: c.remove_bangs,
        remove_processing_instructions: c.remove_processing_instructions,
    };
    minify_html::minify(html.as_bytes(), &cfg)
}

/// The switches with which pages are made smaller for production: cautious about what
/// browsers expect, and leaving styles and scripts alone.
pub open spec fn production_config() -> MinifyConfig {
    MinifyConfig {
        do_not_minify_doctype: true,
        ensure_spec_compliant_unquoted_attribute_values: true,
        keep_closing_tags: true,
        keep_html_and_head_opening_tags: true,
        keep_spaces_between_attributes: true,
        keep_comments: false,
        keep_input_type_text_attr: true,
        keep_ssi_comments: false,
        preserve_brace_template_syntax: false,
        preserve_chevron_percent_template_syntax: false,
        minify_css: false,
        minify_js: false,
        remove_bangs: false,
        remove_processing_instructions: false,
    }
}

/// The switches with which pages are made smaller for production.
pub fn production_minify_config() -> (r: MinifyConfig)
    ensures
        r == production_config(),
{
    MinifyConfig {
        do_not_minify_doctype: true,
        ensure_spec_compliant_unquoted_attribute_values: true,
        keep_closing_tags: true,
        keep_html_and_head_opening_tags: true,
        keep_spaces_between_attributes: true,
        keep_comments: false,
        keep_input_type_text_attr: true,
        keep_ssi_comments: false,
        preserve_brace_template_syntax: false,
        preserve_chevron_percent_template_syntax: false,
        minify_css: false,
        minify_js: false,
        remove_bangs: false,
        remove_processing_instructions: false,
    }
}

/// The page that the minifier's bytes `bytes` are, or why they are no page.
pub fn minified_page(bytes: Vec<u8>) -> (r: Result<String, String>)
    ensures
        r is Ok <==> valid_utf8(bytes@),
        r matches Ok(page) ==> page@ == decode_utf8(bytes@),
        r matches Err(e) ==> "Failed to convert minified HTML to string: "@.is_prefix_of(e@),
{
    match String::from_utf8(bytes) {
        Ok(page) => Ok(page),
        Err(e) => {
            let cause = e.to_string();
            Err(concatenated("Failed to convert minified HTML to string: ", cause.as_str()))
        },
    }
}

/// The page that is sent in place of `html` where pages are made smaller: `html` itself
/// where the minifier is not handed it; else what the minifier makes of it, if that is
/// text, and none if it is not.
pub open spec fn smaller_page(html: Seq<char>) -> Option<Seq<char>> {
    if !fit_to_minify(html) {
        Some(html)
    } else if valid_utf8(minified(html, production_config())) {
        Some(decode_utf8(minified(html, production_config())))
    } else {
        None
    }
}

/// Makes the page `html` smaller for production. A page that may nest deeper than the
/// limit, or in which a script, a style, a text area or a title ends in a tag of a
/// longer name, is left as it is.
pub fn minify_html(html: &str) -> (r: Result<String, String>)
    ensures
        match smaller_page(html@) {
            Some(smaller) => r matches Ok(page) && page@ == smaller,
            None => r matches Err(e) && "Failed to convert minified HTML to string: "@.is_prefix_of(
                e@,
            ),
        },
{
    if count_element_starts(html) > MAX_MINIFIED_NESTING || !closes_raw_text_cleanly(html) {
        return Ok(html.to_owned());
    }
    let config = production_minify_config();
    minified_page(run_minifier(html, &config))
}

/// Whether the template named `name` shows what belongs to one user, so that no rendering
/// of it may be reused.
pub open spec fn is_user_specific(name: Seq<char>) -> bool {
    name == "display.html"@ || name == "edit.html"@
}

/// The word that a switch prints as.
pub open spec fn switch_word(on: bool) -> Seq<char> {
    if on {
        "true"@
    } else {
        "false"@
    }
}

/// The hash of a context that prints as `context`: what the standard hasher makes of the
/// bytes of the text followed by the byte `0xff`, which is how it hashes a string.
pub open spec fn context_hash_of(context: Seq<char>) -> u64 {
    DefaultHasher::spec_finish(seq![encode_utf8(context), seq![0xffu8]])
}

/// The hash of a context that prints as `context`.
pub fn context_hash(context: &str) -> (r: u64)
    ensures
        r == context_hash_of(context@),
{
    let mut hasher = DefaultHasher::new();
    hasher.write(context.as_bytes());
    let mut end: Vec<u8> = Vec::new();
    end.push(0xff);
    hasher.write(end.as_slice());
    assert(hasher@ =~= seq![encode_utf8(context@), seq![0xffu8]]);
    hasher.finish()
}

/// The key under which the rendering of the template `name` with a context of the given
/// hash is kept: name, hash and whether pages are made smaller, with colons between.
pub open spec fn cache_key_text(name: Seq<char>, context_hash: u64, minify: bool) -> Seq<char> {
    name + ":"@ + decimal_text(context_hash as nat) + ":"@ + switch_word(minify)
}

/// The keys of `pages`, in order.
pub open spec fn page_keys(pages: Seq<(Seq<char>, Seq<char>)>) -> Seq<Seq<char>> {
    Seq::new(pages.len(), |i: int| pages[i].0)
}

/// The page that `pages` keeps under `key`, if it keeps one.
pub open spec fn kept_page(pages: Seq<(Seq<char>, Seq<char>)>, key: Seq<char>) -> Option<Seq<char>> {
    match first_index(page_keys(pages), key) {
        Some(i) => Some(pages[i].1),
        None => None,
    }
}

/// `pages` after `html` is kept under `key`. A cache that has reached its limit is
/// emptied first.
pub open spec fn with_page(pages: Seq<(Seq<char>, Seq<char>)>, key: Seq<char>, html: Seq<char>) -> Seq<
    (Seq<char>, Seq<char>),
> {
    let base = if pages.len() >= TEMPLATE_CACHE_LIMIT {
        Seq::empty()
    } else {
        pages
    };
    match first_index(page_keys(base), key) {
        Some(i) => base.update(i, (key, html)),
        None => base.push((key, html)),
    }
}

/// The contents of a list of kept pages.
pub open spec fn pages_view(pages: Seq<(String, String)>) -> Seq<(Seq<char>, Seq<char>)> {
    Seq::new(pages.len(), |i: int| (pages[i].0@, pages[i].1@))
}

/// The renderings that are kept for reuse, and the switches of the service. A rendering
/// is found by its key, a text; `vstd` states what a hash map holds only for keys of
/// whose hashing it knows, and a text is none of them, so the renderings stand in a
/// vector in which no key occurs twice.
pub struct TemplateService {
    cache_enabled: bool,
    template_cache: Vec<(String, String)>,
    minify_enabled: bool,
}

impl View for TemplateService {
    type V = Seq<(Seq<char>, Seq<char>)>;

    closed spec fn view(&self) -> Seq<(Seq<char>, Seq<char>)> {
        pages_view(self.template_cache@)
    }
}

/// The first position at which `pages` keeps a page under `key`, if there is one.
fn position(pages: &Vec<(String, String)>, key: &str) -> (r: Option<usize>)
    ensures
        match r {
            Some(i) => first_index(page_keys(pages_view(pages@)), key@) == Some(i as int) && i
                < pages.len() && pages@[i as int].0@ == key@,
            None => first_index(page_keys(pages_view(pages@)), key@) is None,
        },
{
    let ghost keys = page_keys(pages_view(pages@));
    let mut i: usize = 0;
    while i < pages.len()
        invariant
            i <= pages.len(),
            keys == page_keys(pages_view(pages@)),
            first_index(keys, key@) == first_index_from(keys, key@, i as int),
        decreases pages.len() - i,
    {
        if same_text(pages[i].0.as_str(), key) {
            return Some(i);
        }
        i += 1;
    }
    None
}

/// What is to be done about a request for a page.
#[derive(Debug)]
pub enum RenderPlan {
    /// The page is at hand.
    Cached(String),
    /// The page has to be rendered, and is then to be kept under the key, if there is one.
    Render(Option<String>),
}

/// The mathematical content of a [`RenderPlan`].
pub enum RenderPlanView {
    Cached(Seq<char>),
    Render(Option<Seq<char>>),
}

impl View for RenderPlan {
    type V = RenderPlanView;

    open spec fn view(&self) -> RenderPlanView {
        match self {
            RenderPlan::Cached(html) => RenderPlanView::Cached(html@),
            RenderPlan::Render(key) => RenderPlanView::Render(optional_text(*key)),
        }
    }
}

impl TemplateService {
    #[verifier::type_invariant]
    spec fn well_formed(self) -> bool {
        &&& all_distinct(page_keys(pages_view(self.template_cache@)))
        &&& self.template_cache@.len() <= TEMPLATE_CACHE_LIMIT
    }

    /// Whether renderings are kept for reuse.
    pub closed spec fn cache_enabled(&self) -> bool {
        self.cache_enabled
    }

    /// Whether pages are made smaller.
    pub closed spec fn minify_enabled(&self) -> bool {
        self.minify_enabled
    }

    /// A service with the given switches and nothing kept.
    pub fn new(cache_enabled: bool, minify_enabled: bool) -> (r: Self)
        ensures
            r@ == Seq::<(Seq<char>, Seq<char>)>::empty(),
            r.cache_enabled() == cache_enabled,
            r.minify_enabled() == minify_enabled,
    {
        let template_cache: Vec<(String, String)> = Vec::new();
        TemplateService { cache_enabled, template_cache, minify_enabled }
    }

    /// The number of renderings that are kept: never more than the limit, and no two
    /// under the same key.
    pub fn cached_pages(&self) -> (r: usize)
        ensures
            r == self@.len(),
            r <= TEMPLATE_CACHE_LIMIT,
            all_distinct(page_keys(self@)),
    {
        proof {
            use_type_invariant(self);
        }
        self.template_cache.len()
    }

    /// Whether the template named `template_name` shows what belongs to one user.
    pub fn is_user_specific_template(&self, template_name: &str) -> (r: bool)
        ensures
            r == is_user_specific(template_name@),
    {
        same_text(template_name, "display.html") || same_text(template_name, "edit.html")
    }

    /// The key under which the rendering of `template_name` with a context of the given
    /// hash is kept.
    pub fn cache_key(&self, template_name: &str, context_hash: u64) -> (r: String)
        ensures
            r@ == cache_key_text(template_name@, context_hash, self.minify_enabled()),
    {
        let mut key = String::from_str(template_name);
        key.append(":");
        push_decimal(&mut key, context_hash);
        key.append(":");
        if self.minify_enabled {
            key.append("true");
        } else {
            key.append("false");
        }
        key
    }

    /// The page that is kept under `key`, if one is.
    pub fn get_cached_html(&self, key: &str) -> (r: Option<String>)
        ensures
            optional_text(r) == kept_page(self@, key@),
    {
        match position(&self.template_cache, key) {
            Some(i) => Some(self.template_cache[i].1.clone()),
            None => None,
        }
    }

    /// Keeps `html` under `key`.
    pub fn cache_html(&mut self, key: String, html: String)
        ensures
            final(self).cache_enabled() == old(self).cache_enabled(),
            final(self).minify_enabled() == old(self).minify_enabled(),
            final(self)@ == with_page(old(self)@, key@, html@),
    {
        proof {
            use_type_invariant(&*self);
        }
        let mut pages: Vec<(String, String)> = Vec::new();
        core::mem::swap(&mut self.template_cache, &mut pages);
        if pages.len() >= TEMPLATE_CACHE_LIMIT {
            pages = Vec::new();
        }
        let ghost base = pages_view(pages@);
        let ghost keys = page_keys(base);
        match position(&pages, key.as_str()) {
            Some(i) => {
                pages.set(i, (key, html));
                proof {
                    assert(page_keys(pages_view(pages@)) =~= keys);
                }
            },
            None => {
                pages.push((key, html));
                proof {
                    lemma_first_index_from(keys, key@, 0);
                    assert(page_keys(pages_view(pages@)) =~= keys.push(key@));
                }
            },
        }
        self.template_cache = pages;
    }

    /// Forgets every rendering.
    pub fn clear_cache(&mut self)
        ensures
            final(self).cache_enabled() == old(self).cache_enabled(),
            final(self).minify_enabled() == old(self).minify_enabled(),
            final(self)@ == Seq::<(Seq<char>, Seq<char>)>::empty(),
    {
        let pages: Vec<(String, String)> = Vec::new();
        self.template_cache = pages;
    }

    /// What is to be done about a request for the template `template_name` with a context
    /// that prints as `context`. A rendering is reused only where renderings are kept at
    /// all and the template does not show what belongs to one user.
    pub fn render_plan(&self, template_name: &str, context: &str) -> (r: RenderPlan)
        ensures
            r@ == if self.cache_enabled() && !is_user_specific(template_name@) {
                let key = cache_key_text(
                    template_name@,
                    context_hash_of(context@),
                    self.minify_enabled(),
                );
                match kept_page(self@, key) {
                    Some(html) => RenderPlanView::Cached(html),
                    None => RenderPlanView::Render(Some(key)),
                }
            } else {
                RenderPlanView::Render(None)
            },
    {
        if self.cache_enabled && !self.is_user_specific_template(template_name) {
            let key = self.cache_key(template_name, context_hash(context));
            match self.get_cached_html(key.as_str()) {
                Some(html) => RenderPlan::Cached(html),
                None => RenderPlan::Render(Some(key)),
            }
        } else {
            RenderPlan::Render(None)
        }
    }

    /// The page to send for the rendering `html`: made smaller where the service does
    /// that, and from now on kept under `key` where there is a key. Where the page cannot
    /// be made smaller, nothing is kept.
    pub fn render(&mut self, key: Option<String>, html: String) -> (r: Result<String, String>)
        ensures
            final(self).cache_enabled() == old(self).cache_enabled(),
            final(self).minify_enabled() == old(self).minify_enabled(),
            !old(self).minify_enabled() ==> (r matches Ok(page) && page@ == html@),
            old(self).minify_enabled() ==> match smaller_page(html@) {
                Some(smaller) => r matches Ok(page) && page@ == smaller,
                None => r is Err,
            },
            final(self)@ == match (r, key) {
                (Ok(page), Some(k)) => with_page(old(self)@, k@, page@),
                _ => old(self)@,
            },
    {
        let page = if self.minify_enabled {
            match minify_html(html.as_str()) {
                Ok(page) => page,
                Err(e) => {
                    return Err(e);
                },
            }
        } else {
            html
        };
        match key {
            Some(k) => {
                self.cache_html(k, page.clone());
            },
            None => {},
        }
        Ok(page)
    }
}

/// The service as the environment asks for it: renderings are kept unless
/// `TEMPLATE_CACHE_ENABLED` says otherwise, and pages are made smaller only if
/// `MINIFY_ENABLED` says so.
pub fn create_template_service(env: &Environment) -> (r: TemplateService)
    ensures
        r@ == Seq::<(Seq<char>, Seq<char>)>::empty(),
        r.cache_enabled() == switch_or(lookup(env@, "TEMPLATE_CACHE_ENABLED"@), true),
        r.minify_enabled() == switch_or(lookup(env@, "MINIFY_ENABLED"@), false),
{
    let cache_enabled = parse_switch(env.var("TEMPLATE_CACHE_ENABLED"), true);
    let minify_enabled = parse_switch(env.var("MINIFY_ENABLED"), false);
    TemplateService::new(cache_enabled, minify_enabled)
}

} // verus!
