//! The lookup workflow and the presenter: URL building, extraction of the
//! definition page's parts, the spellcheck fallback, the two-stage find-word
//! flow, and the exact lines printed for each outcome.

use vstd::prelude::*;
use vstd::string::*;

use crate::html::all_inner_texts;
use crate::html::first_inner_text;
use crate::html::first_text_of;
use crate::html::nested_attr_of;
use crate::html::nested_tag_attr;
use crate::html::texts_of;
use crate::json::candidates_of;
use crate::json::parse_candidates;
use crate::json::CandView;
use crate::json::Candidate;
use crate::slug::upper_of;
use crate::slug::uppercase;
use crate::text::bullet_line;
use crate::text::bulleted;
use crate::text::clean_definition;
use crate::text::clean_definition_spec;
use crate::text::dec_str_of;
use crate::text::dec_string;
use crate::text::trim_ascii;
use crate::text::trim_spec;

verus! {

/// The origin prefixed to site-relative paths.
pub open spec fn site_origin() -> Seq<char> {
    "https://dictionary.cambridge.org"@
}

/// The URL of a word's definition page.
pub open spec fn definition_url_of(slug: Seq<char>) -> Seq<char> {
    "https://dictionary.cambridge.org/dictionary/english/"@ + slug
}

/// Builds the definition-page URL for a slug.
pub fn definition_url(slug: &str) -> (r: String)
    ensures
        r@ == definition_url_of(slug@),
{
    let mut s = String::from_str("https://dictionary.cambridge.org/dictionary/english/");
    s.append(slug);
    s
}

/// Builds the spellcheck URL for a word.
pub fn spellcheck_url(word: &str) -> (r: String)
    ensures
        r@ == "https://dictionary.cambridge.org/spellcheck/english/?q="@ + word@,
{
    let mut s = String::from_str("https://dictionary.cambridge.org/spellcheck/english/?q=");
    s.append(word);
    s
}

/// Builds the autocomplete URL for a word.
pub fn autocomplete_url(word: &str) -> (r: String)
    ensures
        r@ == "https://dictionary.cambridge.org/autocomplete/amp?dataset=english&q="@ + word@,
{
    let mut s = String::from_str("https://dictionary.cambridge.org/autocomplete/amp?dataset=english&q=");
    s.append(word);
    s
}

/// Prefixes a site-relative path with the site origin.
pub fn site_url(rel: &str) -> (r: String)
    ensures
        r@ == site_origin() + rel@,
{
    let mut s = String::from_str("https://dictionary.cambridge.org");
    s.append(rel);
    s
}

/// An expected element of the page was not found.
#[derive(Clone, Copy, Debug, PartialEq, Eq, Structural)]
pub enum LookupError {
    SelectorNotFound,
}

impl LookupError {
    /// The message printed when the failure aborts the command.
    pub fn message(&self) -> (r: String)
        ensures
            r@ == "failed to find the div element with this query-selector: 'div.def.ddef_d.db'"@,
    {
        String::from_str(
            "failed to find the div element with this query-selector: 'div.def.ddef_d.db'",
        )
    }
}

/// What a definition page yields: the cleaned primary definition and the
/// example sentences in document order.
#[derive(Debug)]
pub struct DefinitionReport {
    pub definition: String,
    pub examples: Vec<String>,
}

/// Extracts the primary definition and the example sentences from a
/// definition page. Fails exactly when no element matches the definition
/// selector; zero examples are valid.
pub fn extract_definition(html: &str) -> (r: Result<DefinitionReport, LookupError>)
    ensures
        r is Ok <==> first_text_of(html@, "div.def.ddef_d.db"@) is Some,
        r matches Ok(rep) ==> rep.definition@ == clean_definition_spec(
            first_text_of(html@, "div.def.ddef_d.db"@)->0,
        ) && rep.examples.deep_view() == texts_of(html@, "span.eg.deg"@),
{
    match first_inner_text(html, "div.def.ddef_d.db") {
        Some(raw) => {
            let definition = clean_definition(raw.as_str());
            let examples = all_inner_texts(html, "span.eg.deg");
            Ok(DefinitionReport { definition, examples })
        },
        None => Err(LookupError::SelectorNotFound),
    }
}

/// The pronunciation clip's full URL, when the page carries a US
/// pronunciation with an MPEG audio source.
pub fn audio_source_url(html: &str) -> (r: Option<String>)
    ensures
        match nested_attr_of(
            html@,
            "span.us.dpron-i"@,
            "source[type=\"audio/mpeg\"]"@,
            "src"@,
        ) {
            Some(src) => r matches Some(u) && u@ == site_origin() + src,
            None => r is None,
        },
{
    match nested_tag_attr(html, "span.us.dpron-i", "source[type=\"audio/mpeg\"]", "src") {
        Some(src) => Some(site_url(src.as_str())),
        None => None,
    }
}

/// The bulleted lines for a sequence of texts.
pub open spec fn bullet_all(ts: Seq<Seq<char>>) -> Seq<Seq<char>> {
    ts.map_values(|t: Seq<char>| bulleted(t))
}

/// The bulleted lines for a sequence of texts, each trimmed of ASCII
/// whitespace first.
pub open spec fn bullet_trim_all(ts: Seq<Seq<char>>) -> Seq<Seq<char>> {
    ts.map_values(|t: Seq<char>| bulleted(trim_spec(t)))
}

/// The lines printed for a definition page: the cleaned definition, a blank
/// line, the examples header, one bulleted line per example, a blank line,
/// and the source URL.
pub open spec fn definition_lines_spec(
    definition: Seq<char>,
    examples: Seq<Seq<char>>,
    slug: Seq<char>,
) -> Seq<Seq<char>> {
    seq![definition, Seq::<char>::empty(), "Examples:"@] + bullet_all(examples) + seq![
        Seq::<char>::empty(),
        "Source: https://dictionary.cambridge.org/dictionary/english/"@ + slug,
    ]
}

/// Assembles the lines printed for a definition report.
pub fn definition_lines(rep: &DefinitionReport, slug: &str) -> (r: Vec<String>)
    ensures
        r.deep_view() == definition_lines_spec(rep.definition@, rep.examples.deep_view(), slug@),
{
    let ghost head = seq![rep.definition@, Seq::<char>::empty(), "Examples:"@];
    let mut out: Vec<String> = Vec::new();
    out.push(rep.definition.clone());
    out.push(String::new());
    out.push(String::from_str("Examples:"));
    proof {
        assert(out.deep_view() =~~= head + bullet_all(rep.examples.deep_view().take(0)));
    }
    let n = rep.examples.len();
    let mut i: usize = 0;
    while i < n
        invariant
            0 <= i <= n,
            n == rep.examples@.len(),
            head == seq![rep.definition@, Seq::<char>::empty(), "Examples:"@],
            out.deep_view() == head + bullet_all(rep.examples.deep_view().take(i as int)),
        decreases n - i,
    {
        let ghost od = out.deep_view();
        out.push(bullet_line(rep.examples[i].as_str()));
        proof {
            assert(rep.examples@[i as int]@ == rep.examples.deep_view()[i as int]);
            assert(out.deep_view() =~~= od.push(bulleted(rep.examples.deep_view()[i as int])));
            assert(od.push(bulleted(rep.examples.deep_view()[i as int])) =~~= head + bullet_all(
                rep.examples.deep_view().take(i + 1),
            ));
        }
        i = i + 1;
    }
    proof {
        assert(rep.examples.deep_view().take(n as int) =~~= rep.examples.deep_view());
    }
    out.push(String::new());
    let mut src = String::from_str("Source: https://dictionary.cambridge.org/dictionary/english/");
    src.append(slug);
    out.push(src);
    proof {
        assert(out.deep_view() =~~= definition_lines_spec(
            rep.definition@,
            rep.examples.deep_view(),
            slug@,
        ));
    }
    out
}

/// The lines printed for the spellcheck fallback: the suggestions header and
/// one bulleted, trimmed line per suggestion.
pub open spec fn suggestion_lines_spec(ts: Seq<Seq<char>>) -> Seq<Seq<char>> {
    seq!["Similar spelling or pronunciations:"@] + bullet_trim_all(ts)
}

/// Extracts the suggestion list items of a spellcheck page and assembles
/// their printed lines.
pub fn spellcheck_lines(html: &str) -> (r: Vec<String>)
    ensures
        r.deep_view() == suggestion_lines_spec(texts_of(html@, "li.lbt.lp-5.lpl-20"@)),
{
    let texts = all_inner_texts(html, "li.lbt.lp-5.lpl-20");
    let ghost head = seq!["Similar spelling or pronunciations:"@];
    let mut out: Vec<String> = Vec::new();
    out.push(String::from_str("Similar spelling or pronunciations:"));
    proof {
        assert(out.deep_view() =~~= head + bullet_trim_all(texts.deep_view().take(0)));
    }
    let n = texts.len();
    let mut i: usize = 0;
    while i < n
        invariant
            0 <= i <= n,
            n == texts@.len(),
            head == seq!["Similar spelling or pronunciations:"@],
            texts.deep_view() == texts_of(html@, "li.lbt.lp-5.lpl-20"@),
            out.deep_view() == head + bullet_trim_all(texts.deep_view().take(i as int)),
        decreases n - i,
    {
        let ghost od = out.deep_view();
        out.push(bullet_line(trim_ascii(texts[i].as_str())));
        proof {
            assert(texts@[i as int]@ == texts.deep_view()[i as int]);
            assert(out.deep_view() =~~= od.push(
                bulleted(trim_spec(texts.deep_view()[i as int])),
            ));
            assert(od.push(bulleted(trim_spec(texts.deep_view()[i as int]))) =~~= head
                + bullet_trim_all(texts.deep_view().take(i + 1)));
        }
        i = i + 1;
    }
    proof {
        assert(texts.deep_view().take(n as int) =~~= texts.deep_view());
    }
    out
}

/// The informational notice printed on the error stream when the word was
/// not found verbatim.
pub fn not_found_notice(word: &str) -> (r: String)
    ensures
        r@ == "No results found for \""@ + word@ + "\""@,
{
    let mut s = String::from_str("No results found for \"");
    s.append(word);
    s.append("\"");
    s
}

/// The header lines printed before a definition lookup: the announcement
/// with the word uppercased, then a blank line.
pub fn search_header(word: &str) -> (r: Vec<String>)
    ensures
        r.deep_view() == seq![
            "Searching for the word: "@ + upper_of(word@),
            Seq::<char>::empty(),
        ],
{
    let mut line = String::from_str("Searching for the word: ");
    let up = uppercase(word);
    line.append(up.as_str());
    let mut out: Vec<String> = Vec::new();
    out.push(line);
    out.push(String::new());
    proof {
        assert(out.deep_view() =~~= seq![
            "Searching for the word: "@ + upper_of(word@),
            Seq::<char>::empty(),
        ]);
    }
    out
}

/// The header line printed before a find-word lookup.
pub fn find_header(word: &str) -> (r: String)
    ensures
        r@ == "Searching for words similar to: "@ + upper_of(word@),
{
    let mut line = String::from_str("Searching for words similar to: ");
    let up = uppercase(word);
    line.append(up.as_str());
    line
}

/// The line printed when the autocomplete endpoint returns no candidate.
pub fn no_results_line() -> (r: String)
    ensures
        r@ == "No results found"@,
{
    String::from_str("No results found")
}

/// The line printed when the server answers with status 500.
pub fn server_failed_line() -> (r: String)
    ensures
        r@ == "Server failed to respond back"@,
{
    String::from_str("Server failed to respond back")
}

/// The line printed for any other server-error status.
pub fn server_error_line(code: u16) -> (r: String)
    ensures
        r@ == "Server returned: "@ + dec_str_of(code as int),
{
    let mut s = String::from_str("Server returned: ");
    let d = dec_string(code as u64);
    s.append(d.as_str());
    s
}

/// The line printed when the transport itself fails.
pub fn io_error_line(err: &str) -> (r: String)
    ensures
        r@ == "IO Error occur: "@ + err@,
{
    let mut s = String::from_str("IO Error occur: ");
    s.append(err);
    s
}

/// What the find-word flow does after the autocomplete response arrived.
pub enum FindStep {
    /// The body was not an array of word records.
    Malformed,
    /// The array was empty: print that no results were found and stop.
    NoResults,
    /// Fetch the best match's definition page at `url`, keeping the whole
    /// candidate list for the report.
    Fetch { url: String, candidates: Vec<Candidate> },
}

/// Decides the find-word flow from the autocomplete response body: reject a
/// malformed body, stop on an empty candidate list, and otherwise follow the
/// first candidate's site-relative page.
pub fn find_word_step(json: &str) -> (r: FindStep)
    ensures
        match candidates_of(json@) {
            None => r is Malformed,
            Some(cs) => if cs.len() == 0 {
                r is NoResults
            } else {
                r matches FindStep::Fetch { url, candidates } && url@ == site_origin()
                    + cs[0].url && candidates.deep_view() == cs && candidates@.len() == cs.len()
            },
        },
{
    match parse_candidates(json) {
        None => FindStep::Malformed,
        Some(cs) => {
            if cs.len() == 0 {
                proof {
                    assert(cs.deep_view() =~= Seq::<CandView>::empty());
                }
                FindStep::NoResults
            } else {
                proof {
                    assert(cs.deep_view()[0] == cs@[0]@);
                }
                let url = site_url(cs[0].url.as_str());
                FindStep::Fetch { url, candidates: cs }
            }
        },
    }
}

/// The bulleted lines for the names of a candidate sequence.
pub open spec fn bullet_names(cs: Seq<CandView>) -> Seq<Seq<char>> {
    cs.map_values(|c: CandView| bulleted(c.name))
}

/// The lines printed by the two-stage find-word flow: a blank line, the best
/// match's uppercased name with its raw definition, the similar-words count
/// (the candidates besides the best match), and one bulleted line per
/// remaining candidate.
pub open spec fn find_word_lines_spec(cs: Seq<CandView>, def: Seq<char>) -> Seq<Seq<char>>
    recommends
        cs.len() >= 1,
{
    seq![
        Seq::<char>::empty(),
        upper_of(cs[0].name) + " means: "@ + def,
        "Found "@ + dec_str_of(cs.len() - 1) + " similar words:"@,
    ] + bullet_names(cs.drop_first())
}

/// Assembles the find-word report from the candidate list and the best
/// match's definition page. Fails exactly when no element matches the
/// definition selector.
pub fn find_word_lines(candidates: &Vec<Candidate>, html: &str) -> (r: Result<
    Vec<String>,
    LookupError,
>)
    requires
        candidates@.len() >= 1,
    ensures
        r is Ok <==> first_text_of(html@, "div.def.ddef_d.db"@) is Some,
        r matches Ok(lines) ==> lines.deep_view() == find_word_lines_spec(
            candidates.deep_view(),
            first_text_of(html@, "div.def.ddef_d.db"@)->0,
        ),
{
    match first_inner_text(html, "div.def.ddef_d.db") {
        None => Err(LookupError::SelectorNotFound),
        Some(def) => {
            let ghost cs = candidates.deep_view();
            let mut out: Vec<String> = Vec::new();
            out.push(String::new());
            proof {
                assert(cs[0] == candidates@[0]@);
            }
            let mut best = uppercase(candidates[0].name.as_str());
            best.append(" means: ");
            best.append(def.as_str());
            out.push(best);
            let count = candidates.len() - 1;
            let d = dec_string(count as u64);
            let mut cl = String::from_str("Found ");
            cl.append(d.as_str());
            cl.append(" similar words:");
            out.push(cl);
            let ghost head = seq![
                Seq::<char>::empty(),
                upper_of(cs[0].name) + " means: "@ + def@,
                "Found "@ + dec_str_of(cs.len() - 1) + " similar words:"@,
            ];
            proof {
                assert(out.deep_view() =~~= head + bullet_names(cs.subrange(1, 1)));
            }
            let n = candidates.len();
            let mut i: usize = 1;
            while i < n
                invariant
                    1 <= i <= n,
                    n == candidates@.len(),
                    cs == candidates.deep_view(),
                    head == seq![
                        Seq::<char>::empty(),
                        upper_of(cs[0].name) + " means: "@ + def@,
                        "Found "@ + dec_str_of(cs.len() - 1) + " similar words:"@,
                    ],
                    out.deep_view() == head + bullet_names(cs.subrange(1, i as int)),
                decreases n - i,
            {
                let ghost od = out.deep_view();
                out.push(bullet_line(candidates[i].name.as_str()));
                proof {
                    assert(candidates@[i as int]@ == cs[i as int]);
                    assert(out.deep_view() =~~= od.push(bulleted(cs[i as int].name)));
                    assert(od.push(bulleted(cs[i as int].name)) =~~= head + bullet_names(
                        cs.subrange(1, i + 1),
                    ));
                }
                i = i + 1;
            }
            proof {
                assert(cs.subrange(1, n as int) =~~= cs.drop_first());
                assert(out.deep_view() =~~= find_word_lines_spec(
                    cs,
                    first_text_of(html@, "div.def.ddef_d.db"@)->0,
                ));
            }
            Ok(out)
        },
    }
}

} // verus!
