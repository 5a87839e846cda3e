use show_me_the_loot_tables::model::{Cause, LootError, LootSpec};
use show_me_the_loot_tables::names::{
    display_name, entry_label, locate_description, name_from_match, name_request, resolve_name,
    NameRequest, NESTED_TABLE_NAME, NOTHING_NAME,
};

const BASE: &str = "https://api.github.com/repos/EvanMeek/veloren-wecw-assets/contents/";

const CHEESE_BODY: &str = "{\"name\": \"z.ron\", \"content\": \"SXRlbURlZigKICAgIG5hbWU6ICJDaGVlc2UiLAogICAgZGVzY3JpcHRpb246ICJBcm9tYXRpYyBh\\nbmQgbnV0cml0aW91cyIsCiAgICBraW5kOiBDb25zdW1hYmxlKGtpbmQ6IEZvb2QpLAogICAgcXVh\\nbGl0eTogQ29tbW9uLAopCg==\\n\", \"encoding\": \"base64\"}";

#[test]
fn locate_description_turns_dots_into_slashes() {
    assert_eq!(
        locate_description(BASE, "x.y.z"),
        "https://api.github.com/repos/EvanMeek/veloren-wecw-assets/contents/x/y/z.ron"
    );
    assert_eq!(locate_description("b/", "common.items.food.cheese"), "b/common/items/food/cheese.ron");
    assert_eq!(locate_description("", ""), ".ron");
}

#[test]
fn an_item_is_named_by_its_description_file() {
    assert_eq!(
        name_request("b/", &LootSpec::Item("x.y.z".to_string())),
        NameRequest::Fetch("b/x/y/z.ron".to_string())
    );
    assert_eq!(
        name_request("b/", &LootSpec::ItemQuantity("x.y".to_string(), 1, 3)),
        NameRequest::Fetch("b/x/y.ron".to_string())
    );
}

#[test]
fn a_nested_table_gets_the_fixed_name_and_is_not_expanded() {
    assert_eq!(
        name_request(BASE, &LootSpec::LootTable("other.table".to_string())),
        NameRequest::Known("这是个战利品集合..".to_string())
    );
    assert_eq!(NESTED_TABLE_NAME, "这是个战利品集合..");
}

#[test]
fn nothing_gets_its_name_without_a_fetch() {
    assert_eq!(name_request(BASE, &LootSpec::Nothing), NameRequest::Known("啥都没有".to_string()));
    assert_eq!(NOTHING_NAME, "啥都没有");
}

#[test]
fn display_name_is_the_first_quoted_text() {
    assert_eq!(display_name("ItemDef(\n    name: \"Cheese\",\n    description: \"Aromatic\",\n)"), Ok("Cheese".to_string()));
    assert_eq!(display_name("a \"\" b \"c\""), Ok(String::new()));
    assert_eq!(display_name("x\"战利品\"y"), Ok("战利品".to_string()));
}

#[test]
fn display_name_does_not_cross_a_line_break() {
    assert_eq!(display_name("\"a\nb\" \"c\""), Ok(" ".to_string()));
}

#[test]
fn a_description_without_a_quoted_text_has_no_name() {
    assert_eq!(display_name("ItemDef(name: Cheese)"), Err(LootError::NameNotFound));
    assert_eq!(display_name(""), Err(LootError::NameNotFound));
    assert_eq!(display_name("only one \" here"), Err(LootError::NameNotFound));
}

#[test]
fn name_from_match_takes_the_quotes_off() {
    assert_eq!(name_from_match(Some("\"Cheese\"")), Ok("Cheese".to_string()));
    assert_eq!(name_from_match(Some("\"\"")), Ok(String::new()));
    assert_eq!(name_from_match(None), Err(LootError::NameNotFound));
}

#[test]
fn resolve_name_reads_the_name_off_the_body() {
    assert_eq!(resolve_name(Some(CHEESE_BODY)), Ok("Cheese".to_string()));
}

#[test]
fn every_failure_of_a_resolution_keeps_its_cause() {
    assert_eq!(resolve_name(None), Err(LootError::Resolution(Cause::Network)));
    assert_eq!(resolve_name(Some("<html>")), Err(LootError::Resolution(Cause::Protocol)));
    assert_eq!(resolve_name(Some("{\"content\": \"???\"}")), Err(LootError::Resolution(Cause::Encoding)));
    assert_eq!(
        resolve_name(Some("{\"name\": \"q.ron\", \"content\": \"bm8gcXVvdGVzIGhlcmUK\\n\", \"encoding\": \"base64\"}")),
        Err(LootError::Resolution(Cause::NameNotFound))
    );
}

#[test]
fn entry_label_puts_the_range_in_front() {
    assert_eq!(entry_label(&LootSpec::ItemQuantity("p".to_string(), 1, 3), "Cheese"), "1-3 Cheese");
    assert_eq!(entry_label(&LootSpec::ItemQuantity("p".to_string(), 0, 4294967295), "x"), "0-4294967295 x");
    assert_eq!(entry_label(&LootSpec::Item("p".to_string()), "Cheese"), "Cheese");
    assert_eq!(entry_label(&LootSpec::LootTable("p".to_string()), "这是个战利品集合.."), "这是个战利品集合..");
    assert_eq!(entry_label(&LootSpec::Nothing, "啥都没有"), "啥都没有");
}
