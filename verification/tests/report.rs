use show_me_the_loot_tables::model::{Loot, LootError, LootSpec, Weight};
use show_me_the_loot_tables::report::{
    heading_chars, percent_chars, render_report, render_table, row_chars, share_of, shown_name,
    total_of, weight_chars,
};

fn text(chars: Vec<char>) -> String {
    chars.into_iter().collect()
}

fn units(n: u32) -> Weight {
    Weight::from_units(n)
}

fn item(path: &str) -> LootSpec<String> {
    LootSpec::Item(path.to_string())
}

#[test]
fn weights_one_and_three_give_a_quarter_and_three_quarters() {
    let table = Loot::new(vec![(units(1), item("a")), (units(3), item("b"))]).unwrap();
    let total = total_of(&table);
    assert_eq!(total, 4_000_000);
    assert_eq!(share_of(units(1), total), 2500);
    assert_eq!(share_of(units(3), total), 7500);
    assert_eq!(text(percent_chars(2500)), "25.00%");
    assert_eq!(text(percent_chars(7500)), "75.00%");
}

#[test]
fn a_single_entry_has_the_whole() {
    assert_eq!(share_of(units(1), 1_000_000), 10_000);
    assert_eq!(text(percent_chars(10_000)), "100.00%");
}

#[test]
fn shares_round_to_the_nearest_with_halves_up() {
    assert_eq!(share_of(units(1), 3_000_000), 3333);
    assert_eq!(share_of(units(2), 3_000_000), 6667);
    assert_eq!(share_of(Weight { micros: 1 }, 20_000), 1);
    assert_eq!(share_of(Weight { micros: 1 }, 20_001), 0);
    assert_eq!(share_of(Weight { micros: 3 }, 20_000), 2);
    assert_eq!(share_of(Weight { micros: u64::MAX }, u64::MAX as u128), 10_000);
    assert_eq!(share_of(Weight { micros: u64::MAX }, 1), 184467440737095516150000);
}

#[test]
fn a_total_of_zero_gives_every_entry_no_chance() {
    assert_eq!(share_of(units(0), 0), 0);
    assert_eq!(share_of(units(5), 0), 0);
    assert_eq!(text(percent_chars(0)), "0.00%");
}

#[test]
fn the_shares_of_a_table_make_the_whole_up_to_rounding() {
    let weights = [1u64, 1, 1, 7, 13, 500_000, 3];
    let total: u128 = weights.iter().map(|w| *w as u128).sum();
    let sum: u128 = weights.iter().map(|w| share_of(Weight { micros: *w }, total)).sum();
    assert!(2 * sum + weights.len() as u128 >= 20_000);
    assert!(2 * sum <= 20_000 + weights.len() as u128);
    let thirds: u128 = (0..3).map(|_| share_of(units(1), 3_000_000)).sum();
    assert_eq!(thirds, 9999);
}

#[test]
fn total_of_adds_all_weights() {
    let table = Loot::new(vec![
        (Weight { micros: u64::MAX }, item("a")),
        (Weight { micros: u64::MAX }, item("b")),
        (Weight { micros: 2 }, LootSpec::Nothing),
    ])
    .unwrap();
    assert_eq!(total_of(&table), 36893488147419103232);
    assert_eq!(total_of(&Loot::default()), 0);
}

#[test]
fn percent_chars_always_shows_two_decimals() {
    assert_eq!(text(percent_chars(1)), "0.01%");
    assert_eq!(text(percent_chars(10)), "0.10%");
    assert_eq!(text(percent_chars(105)), "1.05%");
    assert_eq!(text(percent_chars(3333)), "33.33%");
    assert_eq!(text(percent_chars(123456)), "1234.56%");
}

#[test]
fn weight_chars_drops_trailing_zeros() {
    assert_eq!(text(weight_chars(units(1))), "1");
    assert_eq!(text(weight_chars(units(0))), "0");
    assert_eq!(text(weight_chars(units(3))), "3");
    assert_eq!(text(weight_chars(Weight { micros: 500_000 })), "0.5");
    assert_eq!(text(weight_chars(Weight { micros: 1_250_000 })), "1.25");
    assert_eq!(text(weight_chars(Weight { micros: 50_000 })), "0.05");
    assert_eq!(text(weight_chars(Weight { micros: 1 })), "0.000001");
    assert_eq!(text(weight_chars(Weight { micros: 12_000_010 })), "12.00001");
    assert_eq!(text(weight_chars(Weight { micros: 999_999 })), "0.999999");
    assert_eq!(text(weight_chars(Weight { micros: u64::MAX })), "18446744073709.551615");
}

#[test]
fn row_chars_pads_the_three_columns() {
    assert_eq!(
        text(row_chars(units(1), 4_000_000, "Cheese")),
        format!("{:<20}\t{:<30}\t{:<40}\n", "1", "25.00%", "Cheese")
    );
    assert_eq!(
        text(row_chars(Weight { micros: 500_000 }, 500_000, "啥都没有")),
        format!("{:<20}\t{:<30}\t{:<40}\n", "0.5", "100.00%", "啥都没有")
    );
}

#[test]
fn heading_chars_centres_the_name_and_names_the_columns() {
    assert_eq!(
        text(heading_chars("a")),
        format!("{:=^90}\n\n{:<20}{:<30}{:<40}\n", "a", "掉落权重", "掉率概率", "战利品")
    );
}

#[test]
fn one_table_with_one_item_shows_one_row_with_the_whole() {
    let table = Loot::new(vec![(units(1), item("x.y.z"))]).unwrap();
    let written = render_table("a", &table, &vec!["Cheese".to_string()]).unwrap();
    let expected = format!(
        "{:=^90}\n\n{:<20}{:<30}{:<40}\n{:<20}\t{:<30}\t{:<40}\n",
        "a", "掉落权重", "掉率概率", "战利品", "1", "100.00%", "Cheese"
    );
    assert_eq!(written, expected);
}

#[test]
fn rows_keep_the_order_of_the_table() {
    let table = Loot::new(vec![
        (units(3), LootSpec::ItemQuantity("q".to_string(), 1, 3)),
        (units(1), item("i")),
        (units(0), LootSpec::LootTable("t".to_string())),
        (units(4), LootSpec::Nothing),
    ])
    .unwrap();
    let names = vec!["Coin".to_string(), "Cheese".to_string(), "这是个战利品集合..".to_string(), "啥都没有".to_string()];
    let written = render_table("mixed.ron", &table, &names).unwrap();
    let mut expected = format!("{:=^90}\n\n{:<20}{:<30}{:<40}\n", "mixed.ron", "掉落权重", "掉率概率", "战利品");
    expected.push_str(&format!("{:<20}\t{:<30}\t{:<40}\n", "3", "37.50%", "1-3 Coin"));
    expected.push_str(&format!("{:<20}\t{:<30}\t{:<40}\n", "1", "12.50%", "Cheese"));
    expected.push_str(&format!("{:<20}\t{:<30}\t{:<40}\n", "0", "0.00%", "这是个战利品集合.."));
    expected.push_str(&format!("{:<20}\t{:<30}\t{:<40}\n", "4", "50.00%", "啥都没有"));
    assert_eq!(written, expected);
}

#[test]
fn the_default_table_renders_with_no_chance() {
    let written = render_table("empty", &Loot::default(), &vec!["啥都没有".to_string()]).unwrap();
    let expected = format!(
        "{:=^90}\n\n{:<20}{:<30}{:<40}\n{:<20}\t{:<30}\t{:<40}\n",
        "empty", "掉落权重", "掉率概率", "战利品", "0", "0.00%", "啥都没有"
    );
    assert_eq!(written, expected);
}

#[test]
fn render_table_needs_one_name_for_each_entry() {
    let table = Loot::new(vec![(units(1), item("a")), (units(1), item("b"))]).unwrap();
    assert_eq!(render_table("t", &table, &vec!["A".to_string()]), None);
    assert_eq!(render_table("t", &table, &Vec::new()), None);
    assert_eq!(render_table("t", &table, &vec!["A".to_string(), "B".to_string(), "C".to_string()]), None);
}

#[test]
fn render_report_opens_with_the_banner_and_keeps_table_order() {
    let first = Loot::new(vec![(units(1), item("x.y.z"))]).unwrap();
    let second = Loot::new(vec![(units(1), item("a")), (units(3), LootSpec::Nothing)]).unwrap();
    let tables = vec![("b.ron".to_string(), first.clone()), ("a.ron".to_string(), second.clone())];
    let names = vec![vec!["Cheese".to_string()], vec!["Apple".to_string(), "啥都没有".to_string()]];
    let mut expected = "=====正在解析**tier-0**地牢中...======\n".to_string();
    expected.push_str(&render_table("b.ron", &first, &names[0]).unwrap());
    expected.push_str(&render_table("a.ron", &second, &names[1]).unwrap());
    assert_eq!(render_report("tier-0", &tables, &names), Some(expected));
    assert_eq!(
        render_report("tier-0", &Vec::new(), &Vec::new()),
        Some("=====正在解析**tier-0**地牢中...======\n".to_string())
    );
}

#[test]
fn render_report_needs_names_that_fit() {
    let table = Loot::new(vec![(units(1), item("x"))]).unwrap();
    let tables = vec![("a".to_string(), table.clone()), ("b".to_string(), table)];
    assert_eq!(render_report("t", &tables, &vec![vec!["A".to_string()]]), None);
    assert_eq!(render_report("t", &tables, &vec![vec!["A".to_string()], Vec::new()]), None);
    assert_eq!(
        render_report("t", &tables, &vec![vec!["A".to_string()], vec!["B".to_string(), "C".to_string()]]),
        None
    );
}

#[test]
fn an_unresolved_name_is_shown_by_a_mark() {
    assert_eq!(shown_name(Ok("Cheese".to_string())), "Cheese");
    assert_eq!(shown_name(Err(LootError::NameNotFound)), "???");
}
