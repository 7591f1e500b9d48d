//! Listing the pages a user may see, each with a display title.

use vstd::prelude::*;
use vstd::string::*;
use crate::access::{can_view, user_can_view_page};

verus! {

/// A page directory as listed: its display title and its directory name.
#[derive(Debug, PartialEq, Eq)]
pub struct Page {
    pub title: String,
    pub dir: String,
}

/// The text of the first `<title>` element of an HTML document, parsed with
/// error recovery, if it has one.
pub uninterp spec fn html_title(html: Seq<char>) -> Option<Seq<char>>;

/// The lower-case form of a text.
pub uninterp spec fn lowercase_of(s: Seq<char>) -> Seq<char>;

/// The text of an optional string.
pub open spec fn opt_view(o: Option<String>) -> Option<Seq<char>> {
    match o {
        Some(s) => Some(s@),
        None => None,
    }
}

/// Relies on scraper: `Html::parse_document` (html5ever's tree builder,
/// which recovers from malformed markup), `Html::select` with the selector
/// `title`, whose first match is the first title element in document order,
/// and `ElementRef::inner_html`, which serialises that element's children.
#[verifier::external_body]
fn scrape_title(html: &str) -> (r: Option<String>)
    ensures
        opt_view(r) == html_title(html@),
{
    let document = scraper::Html::parse_document(html);
    let selector = match scraper::Selector::parse("title") {
        Ok(s) => s,
        Err(_) => return None,
    };
    match document.select(&selector).next() {
        Some(element) => Some(element.inner_html()),
        None => None,
    }
}

/// Relies on `str::to_lowercase`, whose result depends on the text alone.
#[verifier::external_body]
fn lowercase(s: &str) -> (r: String)
    ensures
        r@ == lowercase_of(s@),
{
    s.to_lowercase()
}

/// The title of an HTML document: the text of its first `<title>` element.
pub fn page_title(index_html: &str) -> (r: Option<String>)
    ensures
        opt_view(r) == html_title(index_html@),
{
    scrape_title(index_html)
}

/// The title shown for directory `dir` whose index file read as
/// `index_html` (`None` when it could not be read): the document's title,
/// or else the directory name.
pub open spec fn display_title(dir: Seq<char>, index_html: Option<Seq<char>>) -> Seq<char> {
    match index_html {
        Some(h) => match html_title(h) {
            Some(t) => t,
            None => dir,
        },
        None => dir,
    }
}

/// `p` is the listing entry of directory `dir` with index file `index_html`.
pub open spec fn is_page_for(p: Page, dir: String, index_html: Option<String>) -> bool {
    p.dir == dir && p.title@ == display_title(dir@, opt_view(index_html))
}

/// The listing entry of directory `dir`, whose index file read as
/// `index_html`. A missing file or title falls back to the directory name.
pub fn page_for_dir(dir: String, index_html: Option<String>) -> (p: Page)
    ensures
        is_page_for(p, dir, index_html),
{
    let title = match &index_html {
        Some(h) => match page_title(h.as_str()) {
            Some(t) => t,
            None => dir.clone(),
        },
        None => dir.clone(),
    };
    Page { title, dir }
}

/// Whether a directory name is visible to a user holding `roles`.
pub open spec fn visible_to(roles: Seq<String>) -> spec_fn(String) -> bool {
    |name: String| can_view(roles, name@)
}

/// The names among `names` that a user holding `roles` may view, in order.
pub fn visible_dirs(names: &[String], roles: &[String]) -> (r: Vec<String>)
    ensures
        r@ == names@.filter(visible_to(roles@)),
{
    let mut out: Vec<String> = Vec::new();
    let mut i: usize = 0;
    assert(names@.subrange(0, 0) =~= Seq::<String>::empty());
    proof {
        reveal(Seq::filter);
    }
    while i < names.len()
        invariant
            i <= names@.len(),
            out@ == names@.subrange(0, i as int).filter(visible_to(roles@)),
        decreases names@.len() - i,
    {
        let name = &names[i];
        let keep = user_can_view_page(roles, name);
        proof {
            reveal(Seq::filter);
            let next = names@.subrange(0, i + 1);
            assert(next.drop_last() =~= names@.subrange(0, i as int));
            assert(next.last() == *name);
        }
        if keep {
            out.push(name.clone());
        }
        i = i + 1;
    }
    assert(names@.subrange(0, names@.len() as int) =~= names@);
    out
}

/// `a` comes no later than `b` in the lexicographic order of characters,
/// which is also the byte order of their UTF-8 encodings.
pub open spec fn lex_le(a: Seq<char>, b: Seq<char>) -> bool
    decreases a.len(),
{
    if a.len() == 0 {
        true
    } else if b.len() == 0 {
        false
    } else if (a[0] as u32) != (b[0] as u32) {
        (a[0] as u32) < (b[0] as u32)
    } else {
        lex_le(a.drop_first(), b.drop_first())
    }
}

/// Any two texts are ordered one way or the other.
pub proof fn lemma_lex_total(a: Seq<char>, b: Seq<char>)
    ensures
        lex_le(a, b) || lex_le(b, a),
    decreases a.len(),
{
    if a.len() > 0 && b.len() > 0 && (a[0] as u32) == (b[0] as u32) {
        lemma_lex_total(a.drop_first(), b.drop_first());
    }
}

/// The key that pages are listed by: the title, case-insensitively.
pub open spec fn title_key(p: Page) -> Seq<char> {
    lowercase_of(p.title@)
}

/// Each page's key comes no later than the next page's.
pub open spec fn sorted_by_title(s: Seq<Page>) -> bool {
    forall|i: int| 0 <= i < s.len() - 1 ==> lex_le(title_key(#[trigger] s[i]), title_key(s[i + 1]))
}

/// Compares two texts in the lexicographic order of characters.
pub fn text_le(a: &str, b: &str) -> (r: bool)
    ensures
        r == lex_le(a@, b@),
{
    let la = a.unicode_len();
    let lb = b.unicode_len();
    let mut i: usize = 0;
    assert(a@.subrange(0, la as int) =~= a@);
    assert(b@.subrange(0, lb as int) =~= b@);
    while i < la && i < lb
        invariant
            i <= la,
            i <= lb,
            la == a@.len(),
            lb == b@.len(),
            lex_le(a@, b@) == lex_le(a@.subrange(i as int, la as int), b@.subrange(i as int, lb as int)),
        decreases la - i,
    {
        let ca = a.get_char(i);
        let cb = b.get_char(i);
        let ghost sa = a@.subrange(i as int, la as int);
        let ghost sb = b@.subrange(i as int, lb as int);
        assert(sa.drop_first() =~= a@.subrange(i + 1, la as int));
        assert(sb.drop_first() =~= b@.subrange(i + 1, lb as int));
        assert(sa[0] == ca && sb[0] == cb);
        if (ca as u32) != (cb as u32) {
            return (ca as u32) < (cb as u32);
        }
        i = i + 1;
    }
    i == la
}

/// Compares two pages by their titles, case-insensitively.
fn title_le(a: &Page, b: &Page) -> (r: bool)
    ensures
        r == lex_le(title_key(*a), title_key(*b)),
{
    let ka = lowercase(a.title.as_str());
    let kb = lowercase(b.title.as_str());
    text_le(ka.as_str(), kb.as_str())
}

/// Where `p` goes in the sorted `pages`: after every page whose key is not
/// greater than its own.
fn insertion_point(pages: &Vec<Page>, p: &Page) -> (k: usize)
    ensures
        k <= pages@.len(),
        k > 0 ==> lex_le(title_key(pages@[k - 1]), title_key(*p)),
        k < pages@.len() ==> !lex_le(title_key(pages@[k as int]), title_key(*p)),
{
    let mut k: usize = 0;
    while k < pages.len()
        invariant
            k <= pages@.len(),
            k > 0 ==> lex_le(title_key(pages@[k - 1]), title_key(*p)),
        decreases pages@.len() - k,
    {
        if !title_le(&pages[k], p) {
            return k;
        }
        k = k + 1;
    }
    k
}

/// Inserting into a sequence adds one occurrence to its multiset.
pub proof fn lemma_insert_to_multiset<A>(s: Seq<A>, k: int, x: A)
    requires
        0 <= k <= s.len(),
    ensures
        s.insert(k, x).to_multiset() =~= s.to_multiset().insert(x),
{
    broadcast use vstd::seq_lib::group_to_multiset_ensures;

    let t = s.insert(k, x);
    t.to_multiset_ensures();
    assert(t.remove(k) =~= s);
    assert(t[k] == x);
    assert(t.contains(x));
}

/// The pages ordered by title, case-insensitively; pages with equal keys
/// keep their order.
pub fn sort_pages(pages: Vec<Page>) -> (r: Vec<Page>)
    ensures
        sorted_by_title(r@),
        r@.to_multiset() =~= pages@.to_multiset(),
{
    broadcast use vstd::seq_lib::group_to_multiset_ensures;

    let mut rest = pages;
    let mut out: Vec<Page> = Vec::new();
    while rest.len() > 0
        invariant
            sorted_by_title(out@),
            out@.to_multiset().add(rest@.to_multiset()) =~= pages@.to_multiset(),
        decreases rest@.len(),
    {
        let ghost r0 = rest@;
        let p = rest.remove(0);
        assert(r0.contains(p)) by {
            assert(r0[0] == p);
        }
        assert(rest@ =~= r0.remove(0));
        proof {
            r0.to_multiset_ensures();
        }
        assert(rest@.to_multiset() =~= r0.to_multiset().remove(p));
        assert(r0.to_multiset().count(p) > 0);
        let k = insertion_point(&out, &p);
        let ghost o0 = out@;
        proof {
            if k < o0.len() {
                lemma_lex_total(title_key(o0[k as int]), title_key(p));
            }
            lemma_insert_to_multiset(o0, k as int, p);
        }
        out.insert(k, p);
        assert forall|j: int| 0 <= j < out@.len() - 1 implies lex_le(
            title_key(#[trigger] out@[j]),
            title_key(out@[j + 1]),
        ) by {
            if j < k - 1 {
                assert(out@[j] == o0[j] && out@[j + 1] == o0[j + 1]);
            } else if j == k - 1 {
                assert(out@[j] == o0[j] && out@[j + 1] == p);
            } else if j == k {
                assert(out@[j] == p && out@[j + 1] == o0[j]);
            } else {
                assert(out@[j] == o0[j - 1] && out@[j + 1] == o0[j]);
            }
        }
    }
    assert(rest@.to_multiset() =~= vstd::multiset::Multiset::empty());
    out
}

/// The listing of the directories in `entries`, each given with the
/// contents of its index file (`None` when it could not be read), sorted by
/// title case-insensitively.
pub fn list_pages(entries: Vec<(String, Option<String>)>) -> (r: Vec<Page>)
    ensures
        sorted_by_title(r@),
        exists|built: Seq<Page>|
            {
                &&& built.len() == entries@.len()
                &&& forall|i: int|
                    0 <= i < built.len() ==> is_page_for(
                        #[trigger] built[i],
                        entries@[i].0,
                        entries@[i].1,
                    )
                &&& r@.to_multiset() =~= #[trigger] built.to_multiset()
            },
{
    let ghost all = entries@;
    let mut rest = entries;
    let mut built: Vec<Page> = Vec::new();
    while rest.len() > 0
        invariant
            built@.len() + rest@.len() == all.len(),
            rest@ =~= all.subrange(built@.len() as int, all.len() as int),
            forall|i: int|
                0 <= i < built@.len() ==> is_page_for(#[trigger] built@[i], all[i].0, all[i].1),
        decreases rest@.len(),
    {
        let ghost r0 = rest@;
        let (dir, html) = rest.remove(0);
        assert(all[built@.len() as int] == r0[0]);
        let page = page_for_dir(dir, html);
        built.push(page);
    }
    let ghost b = built@;
    let r = sort_pages(built);
    assert(b.len() == all.len());
    r
}

} // verus!
