use dict_lookup::json::parse_candidates;
use dict_lookup::json::Candidate;
use dict_lookup::slug::normalize_word;
use dict_lookup::text::clean_definition;
use dict_lookup::text::dec_string;
use dict_lookup::text::trim_ascii;

#[test]
fn normalizer_replaces_spaces_and_apostrophes() {
    assert_eq!(normalize_word("Don't Worry"), "don-t-worry");
}

#[test]
fn normalizer_keeps_plain_words() {
    assert_eq!(normalize_word("cat"), "cat");
    assert_eq!(normalize_word(""), "");
}

#[test]
fn normalizer_lowercases_accented_letters() {
    assert_eq!(normalize_word("CAFÉ AU LAIT"), "café-au-lait");
}

#[test]
fn trim_removes_ascii_whitespace_only() {
    assert_eq!(trim_ascii("  hello \t\r\n"), "hello");
    assert_eq!(trim_ascii(""), "");
    assert_eq!(trim_ascii(" \t "), "");
    assert_eq!(trim_ascii("a b"), "a b");
}

#[test]
fn definition_cleanup_trims_then_drops_final_character() {
    assert_eq!(clean_definition("  hello world:  "), "hello world");
    assert_eq!(clean_definition(""), "");
    assert_eq!(clean_definition(" \t\n"), "");
    assert_eq!(clean_definition("x"), "");
    assert_eq!(clean_definition("no colon"), "no colo");
}

#[test]
fn decimal_rendering_is_exact() {
    assert_eq!(dec_string(0), "0");
    assert_eq!(dec_string(7), "7");
    assert_eq!(dec_string(10), "10");
    assert_eq!(dec_string(599), "599");
    assert_eq!(dec_string(18446744073709551615), "18446744073709551615");
}

#[test]
fn parser_reads_a_word_array() {
    let json = "[{\"word\":\"cat\",\"url\":\"/x\"},{\"word\":\"cats\",\"url\":\"/y\"}]";
    let cs = parse_candidates(json).unwrap();
    assert_eq!(cs.len(), 2);
    assert_eq!(cs[0].name, "cat");
    assert_eq!(cs[0].url, "/x");
    assert_eq!(cs[1].name, "cats");
    assert_eq!(cs[1].url, "/y");
}

#[test]
fn parser_reads_the_empty_array() {
    let cs = parse_candidates("[]").unwrap();
    assert!(cs.is_empty());
    let cs = parse_candidates("  [ ]  ").unwrap();
    assert!(cs.is_empty());
}

#[test]
fn parser_accepts_escapes_and_whitespace() {
    let json = " [ { \"word\" : \"a\\\"b\" , \"url\" : \"/p\\\\q\\n\" } ] ";
    let cs = parse_candidates(json).unwrap();
    assert_eq!(cs.len(), 1);
    assert_eq!(cs[0].name, "a\"b");
    assert_eq!(cs[0].url, "/p\\q\n");
}

#[test]
fn parser_keeps_member_order_free() {
    let cs = parse_candidates("[{\"url\":\"/x\",\"word\":\"dog\"}]").unwrap();
    assert_eq!(cs[0].name, "dog");
    assert_eq!(cs[0].url, "/x");
}

#[test]
fn parser_ignores_extra_scalar_members() {
    let json = "[{\"word\":\"cat\",\"beta\":true,\"rank\":12,\"url\":\"/x\",\"note\":\"n\"}]";
    let cs = parse_candidates(json).unwrap();
    assert_eq!(cs.len(), 1);
    assert_eq!(cs[0].name, "cat");
    assert_eq!(cs[0].url, "/x");
}

#[test]
fn parser_rejects_malformed_bodies() {
    assert!(parse_candidates("").is_none());
    assert!(parse_candidates("{}").is_none());
    assert!(parse_candidates("null").is_none());
    assert!(parse_candidates("[").is_none());
    assert!(parse_candidates("[{\"word\":\"cat\"}]").is_none());
    assert!(parse_candidates("[{\"url\":\"/x\"}]").is_none());
    assert!(parse_candidates("[{\"word\":\"cat\",\"url\":2}]").is_none());
    assert!(parse_candidates("[1,2]").is_none());
    assert!(parse_candidates("[] trailing").is_none());
    assert!(parse_candidates("[{\"word\":\"cat\",\"url\":\"/x\"},]").is_none());
    assert!(parse_candidates("[{\"word\":\"cat\",\"url\":\"/x\"").is_none());
}

#[test]
fn parser_matches_reference_json_parser() {
    let bodies = [
        "[]",
        "[{\"word\":\"cat\",\"url\":\"/x\"},{\"word\":\"cats\",\"url\":\"/y\"}]",
        "[{\"url\":\"/x\",\"word\":\"dog\"}]",
        " [ {\"word\" : \"a b\", \"url\": \"/u?q=1\"} ] ",
    ];
    for body in bodies {
        let mine: Vec<Candidate> = parse_candidates(body).unwrap();
        let reference: Vec<std::collections::HashMap<String, String>> =
            serde_json::from_str(body).unwrap();
        assert_eq!(mine.len(), reference.len());
        for (c, m) in mine.iter().zip(reference.iter()) {
            assert_eq!(&c.name, m.get("word").unwrap());
            assert_eq!(&c.url, m.get("url").unwrap());
        }
    }
}
