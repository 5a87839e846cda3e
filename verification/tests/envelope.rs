use show_me_the_loot_tables::envelope::{
    clean_payload, decode_payload, decoded_table, file_text, listing_entry, loot_document,
    parse_listing, read_decoded, table_document, ListingEntry,
};
use show_me_the_loot_tables::model::{Loot, LootError, LootSpec, Weight};

const TABLE_BODY: &str =
    "{\"name\": \"a.ron\", \"content\": \"WygxLjAsIEl0ZW0oIngueS56IikpXQ==\\n\", \"encoding\": \"base64\"}";

const TABLE_TEXT: &str = "[(1.0, Item(\"x.y.z\"))]";

fn entry(name: &str, url: &str) -> ListingEntry {
    ListingEntry { name: name.to_string(), url: url.to_string() }
}

#[test]
fn clean_payload_strips_escaped_breaks_and_quotes() {
    assert_eq!(clean_payload("\"Wygx\\nLjA=\\n\""), "WygxLjA=");
    assert_eq!(clean_payload("null"), "null");
    assert_eq!(clean_payload("\"\""), "");
    assert_eq!(clean_payload(""), "");
    assert_eq!(clean_payload("\"a\\\\nb\""), "a\\b");
}

#[test]
fn decode_payload_reads_base64_as_text() {
    assert_eq!(decode_payload("aGVsbG8gd29ybGQ="), Ok("hello world".to_string()));
    assert_eq!(decode_payload("WygxLjAsIEl0ZW0oIngueS56IikpXQ=="), Ok(TABLE_TEXT.to_string()));
    assert_eq!(decode_payload(""), Ok(String::new()));
}

#[test]
fn malformed_base64_is_an_encoding_error() {
    assert_eq!(decode_payload("!!!"), Err(LootError::Encoding));
    assert_eq!(decode_payload("aGVs bG8="), Err(LootError::Encoding));
    assert_eq!(decode_payload("a"), Err(LootError::Encoding));
}

#[test]
fn bytes_that_are_no_utf8_are_an_encoding_error() {
    assert_eq!(decode_payload("//4="), Err(LootError::Encoding));
    assert_eq!(read_decoded(Some(vec![0xff, 0xfe])), Err(LootError::Encoding));
    assert_eq!(read_decoded(Some(vec![0xe6, 0x88])), Err(LootError::Encoding));
}

#[test]
fn read_decoded_reads_utf8() {
    assert_eq!(read_decoded(Some(vec![0x68, 0x69])), Ok("hi".to_string()));
    assert_eq!(read_decoded(Some(vec![0xe6, 0x88, 0x98])), Ok("战".to_string()));
    assert_eq!(read_decoded(Some(Vec::new())), Ok(String::new()));
    assert_eq!(read_decoded(None), Err(LootError::Encoding));
}

#[test]
fn file_text_takes_the_file_out_of_its_envelope() {
    assert_eq!(file_text(TABLE_BODY), Ok(TABLE_TEXT.to_string()));
}

#[test]
fn file_text_joins_the_lines_of_a_long_payload() {
    let body = "{\"content\": \"SXRlbURlZigKICAgIG5hbWU6ICJDaGVlc2UiLAogICAgZGVzY3JpcHRpb246ICJBcm9tYXRpYyBh\\nbmQgbnV0cml0aW91cyIsCiAgICBraW5kOiBDb25zdW1hYmxlKGtpbmQ6IEZvb2QpLAogICAgcXVh\\nbGl0eTogQ29tbW9uLAopCg==\\n\"}";
    assert_eq!(
        file_text(body),
        Ok("ItemDef(\n    name: \"Cheese\",\n    description: \"Aromatic and nutritious\",\n    kind: Consumable(kind: Food),\n    quality: Common,\n)\n".to_string())
    );
}

#[test]
fn a_body_that_is_no_json_is_a_protocol_error() {
    assert_eq!(file_text("<html>rate limited</html>"), Err(LootError::Protocol));
    assert_eq!(file_text(""), Err(LootError::Protocol));
    assert_eq!(file_text("{\"content\": "), Err(LootError::Protocol));
}

#[test]
fn malformed_base64_in_content_is_an_encoding_error() {
    assert_eq!(file_text("{\"content\": \"%%%not base64%%%\"}"), Err(LootError::Encoding));
}

#[test]
fn an_envelope_without_content_is_an_encoding_error() {
    assert_eq!(file_text("{}"), Err(LootError::Encoding));
    assert_eq!(file_text("[1, 2]"), Err(LootError::Encoding));
}

#[test]
fn loot_document_wraps_the_text_in_the_loot_field() {
    assert_eq!(loot_document(TABLE_TEXT), "(loot: [(1.0, Item(\"x.y.z\"))])");
    assert_eq!(loot_document(""), "(loot: )");
}

#[test]
fn table_document_frames_what_the_fetch_brought() {
    assert_eq!(table_document(Some(TABLE_BODY)), Ok("(loot: [(1.0, Item(\"x.y.z\"))])".to_string()));
    assert_eq!(table_document(None), Err(LootError::Network));
    assert_eq!(table_document(Some("oops")), Err(LootError::Protocol));
    assert_eq!(table_document(Some("{\"content\": \"/\"}")), Err(LootError::Encoding));
}

#[test]
fn decoded_table_accepts_what_the_parser_made() {
    let entries = vec![(Weight::from_units(1), LootSpec::Item("x.y.z".to_string()))];
    let table = decoded_table("(loot: [(1.0, Item(\"x.y.z\"))])", Some(entries.clone())).unwrap();
    assert_eq!(table, Loot::new(entries).unwrap());
}

#[test]
fn decoded_table_reports_a_refused_document_with_its_text() {
    assert_eq!(
        decoded_table("(loot: [(1.0, Gold(3))])", None),
        Err(LootError::Decode("(loot: [(1.0, Gold(3))])".to_string()))
    );
}

#[test]
fn decoded_table_rejects_an_inverted_quantity_range() {
    let entries = vec![(Weight::from_units(1), LootSpec::ItemQuantity("x".to_string(), 5, 2))];
    assert_eq!(
        decoded_table("(loot: [(1, ItemQuantity(\"x\", 5, 2))])", Some(entries)),
        Err(LootError::Decode("(loot: [(1, ItemQuantity(\"x\", 5, 2))])".to_string()))
    );
}

#[test]
fn decoded_table_rejects_a_table_without_entries() {
    assert_eq!(
        decoded_table("(loot: [])", Some(Vec::new())),
        Err(LootError::Decode("(loot: [])".to_string()))
    );
}

#[test]
fn decoding_the_default_table_succeeds() {
    let table = decoded_table("(loot: [(0.0, Nothing)])", Some(vec![(Weight { micros: 0 }, LootSpec::Nothing)]));
    assert_eq!(table, Ok(Loot::default()));
}

#[test]
fn parse_listing_reads_names_and_locators_in_order() {
    assert_eq!(parse_listing("[{\"name\":\"a\",\"url\":\"U1\"}]"), Ok(vec![entry("a", "U1")]));
    let body = "[{\"name\":\"b.ron\",\"url\":\"https://h/b\",\"size\":3},{\"url\":\"https://h/a\",\"name\":\"a.ron\"},{\"name\":\"c.ron\",\"url\":\"https://h/c\"}]";
    assert_eq!(
        parse_listing(body),
        Ok(vec![entry("b.ron", "https://h/b"), entry("a.ron", "https://h/a"), entry("c.ron", "https://h/c")])
    );
    assert_eq!(parse_listing("[]"), Ok(Vec::new()));
}

#[test]
fn a_body_that_is_no_listing_is_a_protocol_error() {
    assert_eq!(parse_listing("not json"), Err(LootError::Protocol));
    assert_eq!(parse_listing("{\"message\":\"API rate limit exceeded\"}"), Err(LootError::Protocol));
    assert_eq!(parse_listing("[{\"name\":\"a\"}]"), Err(LootError::Protocol));
    assert_eq!(parse_listing("[{\"name\":\"a\",\"url\":\"u\"},{\"name\":7,\"url\":\"v\"}]"), Err(LootError::Protocol));
    assert_eq!(parse_listing("[{\"name\":\"a\",\"url\":null}]"), Err(LootError::Protocol));
    assert_eq!(parse_listing("[3]"), Err(LootError::Protocol));
}

#[test]
fn listing_entry_needs_both_members() {
    assert_eq!(listing_entry(Some("n"), Some("u")), Some(entry("n", "u")));
    assert_eq!(listing_entry(None, Some("u")), None);
    assert_eq!(listing_entry(Some("n"), None), None);
    assert_eq!(listing_entry(None, None), None);
}
