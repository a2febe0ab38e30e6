//! The list of security identifiers, read from the options of a reference page.

use vstd::prelude::*;

verus! {

/// Address of the reference page whose options name every security.
pub const LISTING_URL: &'static str = "https://www.mse.mk/mk/stats/symbolhistory/ADIN";

/// The texts of the `option` elements of a page, as scraper reads them.
pub uninterp spec fn option_texts_of(html: Seq<char>) -> Seq<Seq<char>>;

/// Whether `char::is_numeric` holds of `c`.
pub uninterp spec fn numeric_of(c: char) -> bool;

pub open spec fn strings_view(v: Seq<String>) -> Seq<Seq<char>> {
    v.map_values(|s: String| s@)
}

pub open spec fn has_numeric(s: Seq<char>) -> bool {
    exists|i: int| 0 <= i < s.len() && numeric_of(#[trigger] s[i])
}

/// The option texts that name a security: those holding no numeric
/// character, in order.
pub open spec fn security_names(texts: Seq<Seq<char>>) -> Seq<Seq<char>>
    decreases texts.len(),
{
    if texts.len() == 0 {
        seq![]
    } else if has_numeric(texts.last()) {
        security_names(texts.drop_last())
    } else {
        security_names(texts.drop_last()).push(texts.last())
    }
}

/// Relies on scraper's `Html::parse_document` and `Selector`: the text of
/// each `option` element of the document, in document order.
#[verifier::external_body]
fn option_texts(html: &str) -> (r: Vec<String>)
    ensures
        strings_view(r@) == option_texts_of(html@),
{
    let document = scraper::Html::parse_document(html);
    let options = scraper::Selector::parse("option").unwrap();
    let mut out = Vec::new();
    for element in document.select(&options) {
        out.push(element.text().collect::<String>());
    }
    out
}

/// Relies on `char::is_numeric`.
#[verifier::external_body]
fn is_numeric_char(c: char) -> (r: bool)
    ensures
        r == numeric_of(c),
{
    c.is_numeric()
}

/// Whether `s` holds a numeric character.
pub fn contains_numeric(s: &str) -> (r: bool)
    ensures
        r == has_numeric(s@),
{
    let n = s.unicode_len();
    let mut i: usize = 0;
    while i < n
        invariant
            n == s@.len(),
            i <= n,
            forall|j: int| 0 <= j < i ==> !numeric_of(#[trigger] s@[j]),
        decreases n - i,
    {
        if is_numeric_char(s.get_char(i)) {
            return true;
        }
        i = i + 1;
    }
    false
}

/// The security identifiers among option texts: those without a numeric
/// character, which name index entries instead.
pub fn securities_from_options(texts: Vec<String>) -> (r: Vec<String>)
    ensures
        strings_view(r@) == security_names(strings_view(texts@)),
{
    let mut out: Vec<String> = Vec::new();
    let mut i: usize = 0;
    let ghost tv = strings_view(texts@);
    while i < texts.len()
        invariant
            i <= texts@.len(),
            tv == strings_view(texts@),
            strings_view(out@) == security_names(tv.subrange(0, i as int)),
        decreases texts@.len() - i,
    {
        let ghost next = tv.subrange(0, i + 1);
        assert(next.drop_last() =~= tv.subrange(0, i as int));
        assert(next.last() == texts@[i as int]@);
        if !contains_numeric(texts[i].as_str()) {
            let ghost before = out@;
            out.push(texts[i].clone());
            assert(strings_view(out@) =~= strings_view(before).push(texts@[i as int]@));
        }
        i = i + 1;
    }
    assert(tv.subrange(0, texts@.len() as int) =~= tv);
    out
}

/// The security identifiers named by the reference page.
pub fn list_securities(html: &str) -> (r: Vec<String>)
    ensures
        strings_view(r@) == security_names(option_texts_of(html@)),
{
    securities_from_options(option_texts(html))
}

} // verus!
