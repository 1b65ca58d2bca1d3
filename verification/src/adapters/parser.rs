use vstd::prelude::*;

verus! {

/// What a `scraper` query gives: for each element of the HTML document `html` (parsed by
/// `scraper::Html::parse_document`) that matches the CSS selector group `selector`, in
/// document order, the value of its attribute `attr` where it has one; or `None` where
/// `scraper::Selector::parse` refuses the selector.
pub uninterp spec fn spec_select_attr(html: Seq<char>, selector: Seq<char>, attr: Seq<char>) -> Option<Seq<Option<Seq<char>>>>;

/// The strings that a sequence of `String`s holds.
pub open spec fn strings_view(v: Seq<String>) -> Seq<Seq<char>> {
    v.map_values(|s: String| s@)
}

/// The values of optional strings that are present, in order.
pub open spec fn present_values(s: Seq<Option<Seq<char>>>) -> Seq<Seq<char>>
    decreases s.len(),
{
    if s.len() == 0 {
        Seq::empty()
    } else {
        match s.last() {
            Some(v) => present_values(s.drop_last()).push(v),
            None => present_values(s.drop_last()),
        }
    }
}

/// Reading present values splits over a concatenation: what is kept of `a + b` is what is
/// kept of `a` followed by what is kept of `b`; a missing value drops nothing around it.
pub proof fn lemma_present_values_concat(a: Seq<Option<Seq<char>>>, b: Seq<Option<Seq<char>>>)
    ensures
        present_values(a + b) == present_values(a) + present_values(b),
    decreases b.len(),
{
    if b.len() == 0 {
        assert(a + b =~= a);
        assert(present_values(b) =~= Seq::<Seq<char>>::empty());
        assert(present_values(a) + present_values(b) =~= present_values(a));
    } else {
        let c = b.drop_last();
        lemma_present_values_concat(a, c);
        assert((a + b).drop_last() =~= a + c);
        assert((a + b).last() == b.last());
        match b.last() {
            Some(v) => {
                assert(present_values(a) + present_values(c).push(v) =~= (present_values(a) + present_values(c)).push(v));
            },
            None => {},
        }
    }
}

/// One value read alone: a present value is kept, a missing one gives nothing.
pub proof fn lemma_present_values_single(o: Option<Seq<char>>)
    ensures
        present_values(seq![o]) == match o {
            Some(v) => seq![v],
            None => Seq::<Seq<char>>::empty(),
        },
{
    let e = Seq::<Option<Seq<char>>>::empty();
    assert(seq![o].drop_last() =~= e);
    assert(seq![o].last() == o);
    assert(present_values(e) == Seq::<Seq<char>>::empty());
    match o {
        Some(v) => {
            assert(present_values(e).push(v) =~= seq![v]);
        },
        None => {},
    }
}

/// A value is kept exactly when it is present somewhere in the sequence.
pub proof fn lemma_present_values_contains(s: Seq<Option<Seq<char>>>, v: Seq<char>)
    ensures
        present_values(s).contains(v) <==> s.contains(Some(v)),
    decreases s.len(),
{
    if s.len() > 0 {
        let c = s.drop_last();
        lemma_present_values_contains(c, v);
        assert(s =~= c.push(s.last()));
        if s.contains(Some(v)) {
            let k = choose|k: int| 0 <= k < s.len() && s[k] == Some(v);
            if k < c.len() {
                assert(c[k] == Some(v));
            }
        }
        if c.contains(Some(v)) {
            let k = choose|k: int| 0 <= k < c.len() && c[k] == Some(v);
            assert(s[k] == Some(v));
        }
        match s.last() {
            Some(w) => {
                let p = present_values(c).push(w);
                if p.contains(v) {
                    let k = choose|k: int| 0 <= k < p.len() && p[k] == v;
                    if k < present_values(c).len() {
                        assert(present_values(c)[k] == v);
                    } else {
                        assert(s[s.len() - 1] == Some(v));
                    }
                }
                if present_values(c).contains(v) {
                    let k = choose|k: int| 0 <= k < present_values(c).len() && present_values(c)[k] == v;
                    assert(p[k] == v);
                }
                if w == v {
                    assert(p[p.len() - 1] == v);
                }
            },
            None => {},
        }
    }
}

/// The optional strings that a sequence of `Option<String>`s holds.
pub open spec fn optional_strings_view(v: Seq<Option<String>>) -> Seq<Option<Seq<char>>> {
    v.map_values(|o: Option<String>| o.deep_view())
}

/// Queries the document with `scraper`: parses the selector with `Selector::parse`, the
/// document with `Html::parse_document`, and reads the attribute of each element that
/// `Html::select` yields. The result is the named one, `spec_select_attr`. The type selector
/// `a` is always accepted by `Selector::parse`.
#[verifier::external_body]
fn select_attr(html: &str, selector: &str, attr: &str) -> (res: Option<Vec<Option<String>>>)
    ensures
        selector@ == "a"@ ==> res is Some,
        match res {
            Some(v) => spec_select_attr(html@, selector@, attr@) == Some(optional_strings_view(v@)),
            None => spec_select_attr(html@, selector@, attr@) is None,
        },
{
    let selector = match scraper::Selector::parse(selector) {
        Ok(s) => s,
        Err(_) => return None,
    };
    let document = scraper::Html::parse_document(html);
    Some(document.select(&selector).map(|e| e.value().attr(attr).map(|s| s.to_string())).collect())
}

/// The links of a page: the `href` values of its anchor (`a`) elements that have one, in
/// document order.
pub open spec fn spec_anchor_links(html: Seq<char>) -> Option<Seq<Seq<char>>> {
    match spec_select_attr(html, "a"@, "href"@) {
        Some(values) => Some(present_values(values)),
        None => None,
    }
}

/// The anchor selector was refused.
#[derive(Debug, PartialEq, Eq, Structural)]
pub enum ParseError {
    InvalidSelector,
}

/// Extracts links from HTML.
pub struct HtmlParser;

/// The values that are present, in order.
fn keep_present(values: Vec<Option<String>>) -> (res: Vec<String>)
    ensures
        strings_view(res@) == present_values(optional_strings_view(values@)),
{
    let ghost all = optional_strings_view(values@);
    let mut res: Vec<String> = Vec::new();
    let n = values.len();
    let mut i: usize = 0;
    while i < n
        invariant
            n == values@.len(),
            i <= n,
            all == optional_strings_view(values@),
            strings_view(res@) == present_values(all.take(i as int)),
        decreases n - i,
    {
        assert(all.take(i + 1).drop_last() =~= all.take(i as int));
        match &values[i] {
            Some(v) => {
                res.push(v.clone());
                assert(strings_view(res@) =~= present_values(all.take(i as int)).push(v@));
            },
            None => {},
        }
        i = i + 1;
    }
    assert(all.take(n as int) =~= all);
    res
}

impl HtmlParser {
    pub fn new() -> (p: Self) {
        Self
    }

    /// The `href` value of every anchor element of the document that has one, in document
    /// order; repeated and empty values are kept. It never fails.
    pub fn parse_links(&self, html: &str) -> (res: Result<Vec<String>, ParseError>)
        ensures
            res matches Ok(links) && spec_anchor_links(html@) == Some(strings_view(links@)),
    {
        match select_attr(html, "a", "href") {
            Some(values) => Ok(keep_present(values)),
            None => Err(ParseError::InvalidSelector),
        }
    }
}

impl Default for HtmlParser {
    fn default() -> (p: Self) {
        Self::new()
    }
}

} // verus!
