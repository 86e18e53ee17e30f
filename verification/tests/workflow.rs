use dict_lookup::json::Candidate;
use dict_lookup::report::audio_source_url;
use dict_lookup::report::autocomplete_url;
use dict_lookup::report::definition_lines;
use dict_lookup::report::definition_url;
use dict_lookup::report::extract_definition;
use dict_lookup::report::find_header;
use dict_lookup::report::find_word_lines;
use dict_lookup::report::find_word_step;
use dict_lookup::report::io_error_line;
use dict_lookup::report::no_results_line;
use dict_lookup::report::not_found_notice;
use dict_lookup::report::search_header;
use dict_lookup::report::server_error_line;
use dict_lookup::report::server_failed_line;
use dict_lookup::report::spellcheck_lines;
use dict_lookup::report::spellcheck_url;
use dict_lookup::report::FindStep;
use dict_lookup::status::classify_status;
use dict_lookup::status::StatusClass;

#[test]
fn server_statuses_classify_exactly() {
    assert_eq!(classify_status(500), StatusClass::ServerFailed);
    assert_eq!(classify_status(501), StatusClass::ServerError);
    assert_eq!(classify_status(502), StatusClass::ServerError);
    assert_eq!(classify_status(599), StatusClass::ServerError);
    assert_eq!(classify_status(302), StatusClass::NotFound);
    assert_eq!(classify_status(200), StatusClass::Found);
    assert_eq!(classify_status(404), StatusClass::Found);
    assert_eq!(classify_status(301), StatusClass::Found);
}

#[test]
fn server_error_messages_carry_the_code() {
    assert_eq!(server_failed_line(), "Server failed to respond back");
    assert_eq!(server_error_line(501), "Server returned: 501");
    assert_eq!(server_error_line(599), "Server returned: 599");
    assert_eq!(io_error_line("connection refused"), "IO Error occur: connection refused");
}

#[test]
fn definition_page_yields_cleaned_definition_and_examples() {
    let html = "<html><body><div class=\"def ddef_d db\">hello world:</div>\
                <span class=\"eg deg\">example text</span></body></html>";
    let rep = extract_definition(html).unwrap();
    assert_eq!(rep.definition, "hello world");
    assert_eq!(rep.examples, vec!["example text".to_string()]);
    let lines = definition_lines(&rep, "hello-world");
    assert_eq!(
        lines,
        vec![
            "hello world".to_string(),
            String::new(),
            "Examples:".to_string(),
            "• example text".to_string(),
            String::new(),
            "Source: https://dictionary.cambridge.org/dictionary/english/hello-world".to_string(),
        ]
    );
}

#[test]
fn examples_header_prints_even_without_examples() {
    let html = "<div class=\"def ddef_d db\">word:</div>";
    let rep = extract_definition(html).unwrap();
    assert!(rep.examples.is_empty());
    let lines = definition_lines(&rep, "word");
    assert_eq!(
        lines,
        vec![
            "word".to_string(),
            String::new(),
            "Examples:".to_string(),
            String::new(),
            "Source: https://dictionary.cambridge.org/dictionary/english/word".to_string(),
        ]
    );
}

#[test]
fn missing_definition_element_is_reported() {
    let r = extract_definition("<p>nothing here</p>");
    assert!(r.is_err());
    assert_eq!(
        r.unwrap_err().message(),
        "failed to find the div element with this query-selector: 'div.def.ddef_d.db'"
    );
}

#[test]
fn spellcheck_fallback_lists_suggestions_without_extraction() {
    assert_eq!(classify_status(302), StatusClass::NotFound);
    let html = "<ul><li class=\"lbt lp-5 lpl-20\"> first </li>\
                <li class=\"lbt lp-5 lpl-20\">second</li></ul>";
    let lines = spellcheck_lines(html);
    assert_eq!(
        lines,
        vec![
            "Similar spelling or pronunciations:".to_string(),
            "• first".to_string(),
            "• second".to_string(),
        ]
    );
    assert_eq!(not_found_notice("wrd"), "No results found for \"wrd\"");
}

#[test]
fn empty_autocomplete_array_yields_no_results() {
    match find_word_step("[]") {
        FindStep::NoResults => {}
        _ => panic!("expected the empty-array outcome"),
    }
    assert_eq!(no_results_line(), "No results found");
}

#[test]
fn malformed_autocomplete_body_is_rejected() {
    match find_word_step("not json") {
        FindStep::Malformed => {}
        _ => panic!("expected the malformed outcome"),
    }
}

#[test]
fn two_stage_find_word_follows_only_the_first_candidate() {
    let json = "[{\"word\":\"cat\",\"url\":\"/x\"},{\"word\":\"cats\",\"url\":\"/y\"}]";
    match find_word_step(json) {
        FindStep::Fetch { url, candidates } => {
            assert_eq!(url, "https://dictionary.cambridge.org/x");
            assert_eq!(candidates.len(), 2);
            let html = "<div class=\"def ddef_d db\">a small animal</div>";
            let lines = find_word_lines(&candidates, html).unwrap();
            assert_eq!(
                lines,
                vec![
                    String::new(),
                    "CAT means: a small animal".to_string(),
                    "Found 1 similar words:".to_string(),
                    "• cats".to_string(),
                ]
            );
        }
        _ => panic!("expected the two-stage outcome"),
    }
}

#[test]
fn similar_word_count_is_decimal() {
    let mut cands = Vec::new();
    for i in 0..11 {
        cands.push(Candidate { name: format!("w{i}"), url: "/u".to_string() });
    }
    let lines = find_word_lines(&cands, "<div class=\"def ddef_d db\">d</div>").unwrap();
    assert_eq!(lines[2], "Found 10 similar words:");
    assert_eq!(lines.len(), 13);
    assert_eq!(lines[3], "• w1");
    assert_eq!(lines[12], "• w10");
}

#[test]
fn audio_source_is_prefixed_with_the_origin() {
    let html = "<span class=\"us dpron-i\"><audio>\
                <source type=\"audio/mpeg\" src=\"/media/cat.mp3\">\
                </audio></span>";
    assert_eq!(
        audio_source_url(html).unwrap(),
        "https://dictionary.cambridge.org/media/cat.mp3"
    );
    assert!(audio_source_url("<p>no pronunciation</p>").is_none());
}

#[test]
fn urls_and_headers_are_exact() {
    assert_eq!(definition_url("cat"), "https://dictionary.cambridge.org/dictionary/english/cat");
    assert_eq!(spellcheck_url("ct"), "https://dictionary.cambridge.org/spellcheck/english/?q=ct");
    assert_eq!(
        autocomplete_url("ca"),
        "https://dictionary.cambridge.org/autocomplete/amp?dataset=english&q=ca"
    );
    assert_eq!(
        search_header("cat"),
        vec!["Searching for the word: CAT".to_string(), String::new()]
    );
    assert_eq!(find_header("cat"), "Searching for words similar to: CAT");
}
