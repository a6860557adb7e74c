//! The marker-based extraction scan.
//!
//! Given raw page content, the content's `<script>` fragments are obtained
//! through the `scraper` crate, and each fragment is scanned independently by
//! a four-state byte search: find the fixed marker, then the next `:` from
//! the marker's end, then the next `"`, then the closing `"`. The bytes
//! strictly between the two quotes are the extracted value. A fragment in
//! which any state fails is skipped, never an error.

use vstd::prelude::*;
use vstd::slice::{slice_subrange, slice_to_vec};
use crate::search::{
    byte_index_from, find_byte_from, find_substr, lemma_substr_index_first, substr_index,
};

verus! {

/// The fixed marker whose presence signals the embedded value: the bytes of
/// `rssUrl`.
pub open spec fn marker_bytes() -> Seq<u8> {
    seq![114u8, 115u8, 115u8, 85u8, 114u8, 108u8]
}

/// The marker as an executable byte vector.
fn marker_vec() -> (r: Vec<u8>)
    ensures
        r@ == marker_bytes(),
{
    let mut m: Vec<u8> = Vec::new();
    m.push(114);
    m.push(115);
    m.push(115);
    m.push(85);
    m.push(114);
    m.push(108);
    proof {
        assert(m@ =~= marker_bytes());
    }
    m
}

/// Byte value of `:`.
pub const COLON: u8 = 58;

/// Byte value of `"`.
pub const QUOTE: u8 = 34;

/// The value the four-state scan draws from one fragment, if any: the bytes
/// strictly between the quote pair that follows the first `:` at or after
/// the end of the first marker occurrence.
pub open spec fn fragment_value(f: Seq<u8>) -> Option<Seq<u8>> {
    match substr_index(f, marker_bytes()) {
        None => None,
        Some(m) => match byte_index_from(f, COLON, m + marker_bytes().len() as int) {
            None => None,
            Some(c) => match byte_index_from(f, QUOTE, c) {
                None => None,
                Some(q1) => match byte_index_from(f, QUOTE, q1 + 1) {
                    None => None,
                    Some(q2) => Some(f.subrange(q1 + 1, q2)),
                },
            },
        },
    }
}

/// Runs the four-state scan on one candidate fragment.
///
/// A fragment without the marker, or one where the marker is not followed by
/// a `:` and a complete quote pair, yields None: it is skipped, never an
/// error.
pub fn scan_fragment(frag: &[u8]) -> (r: Option<Vec<u8>>)
    ensures
        (r matches Some(v) ==> fragment_value(frag@) == Some(v@)),
        (r is None ==> fragment_value(frag@) is None),
{
    let n = frag.len();
    let marker = marker_vec();
    let m = match find_substr(frag, marker.as_slice()) {
        Some(m) => m,
        None => {
            return None;
        },
    };
    proof {
        lemma_substr_index_first(frag@, marker_bytes());
        assert(m + marker_bytes().len() <= n);
    }
    let c = match find_byte_from(frag, COLON, m + marker.len()) {
        Some(c) => c,
        None => {
            return None;
        },
    };
    let q1 = match find_byte_from(frag, QUOTE, c) {
        Some(q) => q,
        None => {
            return None;
        },
    };
    let q2 = match find_byte_from(frag, QUOTE, q1 + 1) {
        Some(q) => q,
        None => {
            return None;
        },
    };
    let value = slice_to_vec(slice_subrange(frag, q1 + 1, q2));
    Some(value)
}

/// All values found across the fragments, in document order, at most one per
/// fragment.
pub open spec fn extracted_values(frags: Seq<Seq<u8>>) -> Seq<Seq<u8>> {
    frags.filter_map(|f: Seq<u8>| fragment_value(f))
}

/// Scans every fragment independently and returns the values found, in
/// fragment order. Scanning never stops at the first success.
pub fn extract_values(frags: &Vec<Vec<u8>>) -> (r: Vec<Vec<u8>>)
    ensures
        r.deep_view() == extracted_values(frags.deep_view()),
{
    let ghost gf = frags.deep_view();
    let mut out: Vec<Vec<u8>> = Vec::new();
    let mut i: usize = 0;
    while i < frags.len()
        invariant
            i <= frags@.len(),
            gf == frags.deep_view(),
            gf.len() == frags@.len(),
            out.deep_view() == extracted_values(gf.take(i as int)),
        decreases frags@.len() - i,
    {
        match scan_fragment(frags[i].as_slice()) {
            Some(v) => {
                out.push(v);
            },
            None => {},
        }
        proof {
            assert(gf[i as int] == frags@[i as int]@);
            gf.lemma_filter_map_take_succ(|f: Seq<u8>| fragment_value(f), i as int);
            assert(out.deep_view() =~~= extracted_values(gf.take(i as int + 1)));
        }
        i = i + 1;
    }
    proof {
        assert(gf.take(gf.len() as int) =~= gf);
    }
    out
}

/// Ordered sequence of script fragments that the page structure of `content`
/// holds, as byte strings, in document order. The fragments are a function
/// of the content alone.
pub uninterp spec fn script_fragments_of(content: Seq<char>) -> Seq<Seq<u8>>;

/// Relies on `scraper`: `Html::parse_document` followed by selecting every
/// `script` element in document order and taking each element's inner HTML.
/// The result depends on the content alone. `Selector::parse` cannot fail on
/// the fixed, well-formed selector `script`.
#[verifier::external_body]
fn script_fragments(content: &str) -> (r: Vec<Vec<u8>>)
    ensures
        r.deep_view() == script_fragments_of(content@),
{
    let document = scraper::Html::parse_document(content);
    let selector = scraper::Selector::parse("script").expect("a well-formed selector");
    let mut fragments: Vec<Vec<u8>> = Vec::new();
    for element in document.select(&selector) {
        fragments.push(element.inner_html().into_bytes());
    }
    fragments
}

/// The full extraction: every value found across the content's script
/// fragments, in document order.
pub open spec fn extraction_of(content: Seq<char>) -> Seq<Seq<u8>> {
    extracted_values(script_fragments_of(content))
}

/// Obtains the content's script fragments and scans each for an embedded
/// value, returning the full ordered list of values found.
pub fn rss_extractor(content: &str) -> (r: Vec<Vec<u8>>)
    ensures
        r.deep_view() == extraction_of(content@),
{
    let fragments = script_fragments(content);
    extract_values(&fragments)
}

/// Extraction is deterministic and idempotent: the values drawn from given
/// content are a function of that content alone, so scanning identical
/// content twice yields an identical ordered list of values.
pub proof fn lemma_extraction_deterministic(
    content: Seq<char>,
    first: Seq<Seq<u8>>,
    second: Seq<Seq<u8>>,
)
    requires
        first == extraction_of(content),
        second == extraction_of(content),
    ensures
        first == second,
{
}

} // verus!
