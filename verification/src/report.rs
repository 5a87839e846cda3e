//! Drop chances and the text of the report.
//!
//! An entry's chance is its weight's share of the table's total weight. The
//! report shows it in percent with two decimals, so a share is counted in
//! hundredths of a percent: a whole table is worth 10000 of them.

use crate::model::{
    default_table, entries_view, tables_view, valid_table, EntryView, Loot, LootError, LootSpec,
    TablesView, Weight, MICROS_PER_UNIT,
};
use crate::text::{
    append_chars, chars_of, decimal, decimal_chars, digit, digit_char, pad_center, pad_right,
    padded_center, padded_right, string_of,
};
use crate::names::{entry_label, label_of};
use vstd::prelude::*;

verus! {

/// What stands in front of the level's name in the line that opens a
/// tier's report.
pub const BANNER_OPENING: &'static str = "=====正在解析**";

/// What stands behind the level's name in that line.
pub const BANNER_CLOSING: &'static str = "**地牢中...======";

/// The name shown for an entry whose name could not be resolved.
pub const UNRESOLVED_NAME: &'static str = "???";

/// The heading of the weight column.
pub const WEIGHT_HEADING: &'static str = "掉落权重";

/// The heading of the chance column.
pub const CHANCE_HEADING: &'static str = "掉率概率";

/// The heading of the column that says what drops.
pub const LOOT_HEADING: &'static str = "战利品";

/// The width of a table's title line.
pub const TITLE_WIDTH: usize = 90;

/// The width of the weight column.
pub const WEIGHT_WIDTH: usize = 20;

/// The width of the chance column.
pub const CHANCE_WIDTH: usize = 30;

/// The width of the column that says what drops.
pub const LOOT_WIDTH: usize = 40;

/// The sum of the weights of all entries, in millionths.
pub open spec fn total_weight(entries: Seq<EntryView>) -> nat
    decreases entries.len(),
{
    if entries.len() == 0 {
        0
    } else {
        total_weight(entries.drop_last()) + entries.last().0
    }
}

/// The share of `weight` in `total`, in hundredths of a percent, rounded to
/// the nearest with halves going up. Where the total is zero there is
/// nothing to have a share of, and the share is zero.
pub open spec fn share(weight: nat, total: nat) -> nat {
    if total == 0 {
        0
    } else {
        (20_000 * weight + total) / (2 * total)
    }
}

/// A share is off from the exact quotient by half a hundredth at most:
/// twice the total times the share lies within one total of twice the whole
/// times the weight.
pub proof fn share_is_nearest(weight: nat, total: nat)
    requires
        total > 0,
    ensures
        20_000 * weight - total < 2 * total * share(weight, total) <= 20_000 * weight
            + total,
{
    let x: int = (20_000 * weight + total) as int;
    let d: int = 2 * (total as int);
    assert(x == d * (x / d) + x % d && 0 <= x % d < d) by {
        vstd::arithmetic::div_mod::lemma_fundamental_div_mod(x, d);
        vstd::arithmetic::div_mod::lemma_mod_bound(x, d);
    }
    assert(x / d >= 0) by {
        vstd::arithmetic::div_mod::lemma_div_pos_is_pos(x, d);
    }
}

/// The share computed from the quotient and the remainder of the weight's
/// hundredths by the total: the quotient, and one more where the remainder
/// is at least half the total.
proof fn share_by_remainder(weight: nat, total: nat)
    requires
        total > 0,
    ensures
        share(weight, total) == (10_000 * weight) / total + if 2 * ((10_000 * weight) % total)
            >= total {
            1nat
        } else {
            0nat
        },
{
    let t: int = total as int;
    let x: int = (10_000 * weight) as int;
    let q: int = x / t;
    let r: int = x % t;
    assert(x == t * q + r && 0 <= r < t) by {
        vstd::arithmetic::div_mod::lemma_fundamental_div_mod(x, t);
        vstd::arithmetic::div_mod::lemma_mod_bound(x, t);
    }
    assert(q >= 0) by {
        vstd::arithmetic::div_mod::lemma_div_pos_is_pos(x, t);
    }
    let up: int = if 2 * r >= t {
        1
    } else {
        0
    };
    let rest: int = 2 * r + t - 2 * t * up;
    assert(0 <= rest < 2 * t);
    assert(20_000 * weight + t == (q + up) * (2 * t) + rest) by (nonlinear_arith)
        requires
            x == 10_000 * weight,
            x == t * q + r,
            rest == 2 * r + t - 2 * t * up,
    ;
    vstd::arithmetic::div_mod::lemma_fundamental_div_mod_converse(
        20_000 * weight + t,
        2 * t,
        q + up,
        rest,
    );
}

/// Computes the share of `weight` in `total` in hundredths of a percent.
pub fn share_of(weight: Weight, total: u128) -> (hundredths: u128)
    ensures
        hundredths == share(weight.micros as nat, total as nat),
{
    if total == 0 {
        return 0;
    }
    let scaled: u128 = 10_000 * (weight.micros as u128);
    let quotient = scaled / total;
    let remainder = scaled % total;
    proof {
        share_by_remainder(weight.micros as nat, total as nat);
    }
    if remainder >= total - remainder {
        quotient + 1
    } else {
        quotient
    }
}

/// The shares of all entries in `total`, added up.
pub open spec fn shares_sum(entries: Seq<EntryView>, total: nat) -> nat
    decreases entries.len(),
{
    if entries.len() == 0 {
        0
    } else {
        shares_sum(entries.drop_last(), total) + share(entries.last().0, total)
    }
}

/// Rounding moves the sum of some shares away from the exact sum by half a
/// hundredth for each entry at most.
proof fn shares_sum_is_near(entries: Seq<EntryView>, total: nat)
    requires
        total > 0,
    ensures
        20_000 * total_weight(entries) - entries.len() * total <= 2 * total * shares_sum(
            entries,
            total,
        ) <= 20_000 * total_weight(entries) + entries.len() * total,
    decreases entries.len(),
{
    let t = total as int;
    if entries.len() > 0 {
        let front = entries.drop_last();
        let weight = entries.last().0 as int;
        shares_sum_is_near(front, total);
        share_is_nearest(entries.last().0, total);
        let near = shares_sum(front, total) as int;
        let last = share(entries.last().0, total) as int;
        let heavy = total_weight(front) as int;
        let count = front.len() as int;
        assert(shares_sum(entries, total) == near + last);
        assert(total_weight(entries) == heavy + weight);
        assert(entries.len() == count + 1);
        assert(20_000 * heavy - count * t <= 2 * t * near <= 20_000 * heavy + count * t);
        assert(20_000 * weight - t < 2 * t * last <= 20_000 * weight + t);
        assert(20_000 * (heavy + weight) - (count + 1) * t <= 2 * t * (near + last) <= 20_000
            * (heavy + weight) + (count + 1) * t) by (nonlinear_arith)
            requires
                20_000 * heavy - count * t <= 2 * t * near <= 20_000 * heavy + count * t,
                20_000 * weight - t < 2 * t * last <= 20_000 * weight + t,
        ;
    } else {
        assert(2 * t * 0 == 0) by (nonlinear_arith);
        assert(20_000 * 0 == 0) by (nonlinear_arith);
        assert(0 * t == 0) by (nonlinear_arith);
    }
}

/// The shares of a table's entries make the whole, up to rounding: with a
/// total weight above zero, the sum of all shares is off from 10000
/// hundredths of a percent by half a hundredth for each entry at most.
pub proof fn shares_make_the_whole(entries: Seq<EntryView>)
    requires
        total_weight(entries) > 0,
    ensures
        20_000 - entries.len() <= 2 * shares_sum(entries, total_weight(entries)) <= 20_000
            + entries.len(),
{
    let total = total_weight(entries);
    shares_sum_is_near(entries, total);
    let t = total as int;
    let sum = shares_sum(entries, total) as int;
    let count = entries.len() as int;
    assert(20_000 - count <= 2 * sum <= 20_000 + count) by (nonlinear_arith)
        requires
            t > 0,
            20_000 * t - count * t <= 2 * t * sum <= 20_000 * t + count * t,
    ;
}

/// With a total weight of zero every share is zero.
pub proof fn shares_of_nothing(entries: Seq<EntryView>)
    ensures
        shares_sum(entries, 0) == 0,
        forall|i: int| 0 <= i < entries.len() ==> share(#[trigger] entries[i].0, 0) == 0,
    decreases entries.len(),
{
    if entries.len() > 0 {
        shares_of_nothing(entries.drop_last());
    }
}

/// No prefix of a table weighs more than the table, and a table of `n`
/// entries weighs at most `n` times the greatest weight that fits an entry.
proof fn total_weight_bounds(entries: Seq<(Weight, LootSpec<String>)>, count: int)
    requires
        0 <= count <= entries.len(),
    ensures
        total_weight(entries_view(entries).take(count)) <= count * u64::MAX,
    decreases count,
{
    if count > 0 {
        total_weight_bounds(entries, count - 1);
        let taken = entries_view(entries).take(count);
        assert(taken.drop_last() =~= entries_view(entries).take(count - 1));
        assert(count * u64::MAX == (count - 1) * u64::MAX + u64::MAX) by (nonlinear_arith);
    }
}

/// Adds up the weights of a table.
pub fn total_of(table: &Loot) -> (total: u128)
    ensures
        total == total_weight(table@),
{
    let entries = table.entries();
    let mut total: u128 = 0;
    let mut i: usize = 0;
    while i < entries.len()
        invariant
            i <= entries.len(),
            total == total_weight(entries_view(entries@).take(i as int)),
        decreases entries.len() - i,
    {
        proof {
            total_weight_bounds(entries@, i as int);
            total_weight_bounds(entries@, i + 1);
            assert(entries_view(entries@).take(i + 1).drop_last() =~= entries_view(
                entries@,
            ).take(i as int));
            assert((i + 1) * u64::MAX <= usize::MAX * u64::MAX) by (nonlinear_arith)
                requires
                    i + 1 <= usize::MAX,
            ;
            assert(usize::MAX * u64::MAX <= u64::MAX * u64::MAX) by (nonlinear_arith)
                requires
                    usize::MAX <= u64::MAX,
            ;
        }
        total = total + entries[i].0.micros as u128;
        i += 1;
    }
    assert(entries_view(entries@).take(entries.len() as int) =~= entries_view(entries@));
    total
}

/// The digits behind the decimal point of a weight: `rest` is what is left
/// to write and `scale` the worth of the next digit. Writing stops when
/// nothing is left, so no zeros trail.
pub open spec fn fraction_digits(rest: nat, scale: nat) -> Seq<char>
    decreases scale,
{
    if rest == 0 || scale == 0 {
        Seq::empty()
    } else {
        seq![digit(rest / scale)] + fraction_digits(rest % scale, scale / 10)
    }
}

/// A weight as it is shown: its whole units, and behind a point what is left
/// of it, if anything is.
pub open spec fn weight_text(micros: nat) -> Seq<char> {
    if micros % (MICROS_PER_UNIT as nat) == 0 {
        decimal(micros / (MICROS_PER_UNIT as nat))
    } else {
        decimal(micros / (MICROS_PER_UNIT as nat)) + seq!['.'] + fraction_digits(
            micros % (MICROS_PER_UNIT as nat),
            (MICROS_PER_UNIT / 10) as nat,
        )
    }
}

/// A share as it is shown: percent with two decimals and the percent sign.
pub open spec fn percent_text(hundredths: nat) -> Seq<char> {
    decimal(hundredths / 100) + seq!['.', digit(hundredths / 10 % 10), digit(hundredths % 10), '%']
}

/// Writes a weight.
pub fn weight_chars(weight: Weight) -> (text: Vec<char>)
    ensures
        text@ == weight_text(weight.micros as nat),
{
    let units = weight.micros / MICROS_PER_UNIT;
    let mut rest = weight.micros % MICROS_PER_UNIT;
    let mut text = decimal_chars(units as u128);
    if rest == 0 {
        return text;
    }
    text.push('.');
    let mut scale: u64 = MICROS_PER_UNIT / 10;
    assert(text@ + fraction_digits(rest as nat, scale as nat) == weight_text(
        weight.micros as nat,
    ));
    while rest > 0 && scale > 0
        invariant
            rest < 10 * scale || rest == 0,
            scale == 100_000 || scale == 10_000 || scale == 1_000 || scale == 100 || scale == 10
                || scale <= 1,
            text@ + fraction_digits(rest as nat, scale as nat) == weight_text(
                weight.micros as nat,
            ),
        decreases scale,
    {
        let ghost before = text@;
        let ghost tail = fraction_digits((rest % scale) as nat, (scale / 10) as nat);
        assert(rest / scale < 10) by (nonlinear_arith)
            requires
                rest < 10 * scale,
                scale > 0,
        ;
        text.push(digit_char((rest / scale) as u8));
        assert(text@ + tail =~= before + (seq![digit((rest / scale) as nat)] + tail));
        rest = rest % scale;
        scale = scale / 10;
    }
    assert(fraction_digits(rest as nat, scale as nat) =~= Seq::<char>::empty());
    assert(text@ + Seq::<char>::empty() =~= text@);
    text
}

/// Writes a share in percent.
pub fn percent_chars(hundredths: u128) -> (text: Vec<char>)
    ensures
        text@ == percent_text(hundredths as nat),
{
    let mut text = decimal_chars(hundredths / 100);
    let ghost whole = text@;
    text.push('.');
    text.push(digit_char((hundredths / 10 % 10) as u8));
    text.push(digit_char((hundredths % 10) as u8));
    text.push('%');
    assert(text@ =~= whole + seq![
        '.',
        digit((hundredths / 10 % 10) as nat),
        digit((hundredths % 10) as nat),
        '%',
    ]);
    text
}

/// One line of a table: the weight, the chance and what drops, each padded
/// to its column, with a tab between the columns and a line break at the end.
pub open spec fn row_text(weight: nat, total: nat, label: Seq<char>) -> Seq<char> {
    padded_right(weight_text(weight), WEIGHT_WIDTH as nat, ' ') + seq!['\t'] + padded_right(
        percent_text(share(weight, total)),
        CHANCE_WIDTH as nat,
        ' ',
    ) + seq!['\t'] + padded_right(label, LOOT_WIDTH as nat, ' ') + seq!['\n']
}

/// Writes one line of a table.
pub fn row_chars(weight: Weight, total: u128, label: &str) -> (row: Vec<char>)
    ensures
        row@ == row_text(weight.micros as nat, total as nat, label@),
{
    let mut row = pad_right(&weight_chars(weight), WEIGHT_WIDTH, ' ');
    row.push('\t');
    append_chars(&mut row, &pad_right(&percent_chars(share_of(weight, total)), CHANCE_WIDTH, ' '));
    row.push('\t');
    append_chars(&mut row, &pad_right(&chars_of(label), LOOT_WIDTH, ' '));
    row.push('\n');
    row
}

/// What stands above the lines of a table: the table's name centred between
/// `=` signs, an empty line, and the headings of the three columns.
pub open spec fn heading_text(name: Seq<char>) -> Seq<char> {
    padded_center(name, TITLE_WIDTH as nat, '=') + seq!['\n', '\n'] + padded_right(
        WEIGHT_HEADING@,
        WEIGHT_WIDTH as nat,
        ' ',
    ) + padded_right(CHANCE_HEADING@, CHANCE_WIDTH as nat, ' ') + padded_right(
        LOOT_HEADING@,
        LOOT_WIDTH as nat,
        ' ',
    ) + seq!['\n']
}

/// Writes what stands above the lines of a table.
pub fn heading_chars(name: &str) -> (heading: Vec<char>)
    ensures
        heading@ == heading_text(name@),
{
    let mut heading = pad_center(&chars_of(name), TITLE_WIDTH, '=');
    heading.push('\n');
    heading.push('\n');
    assert(heading@ =~= padded_center(name@, TITLE_WIDTH as nat, '=') + seq!['\n', '\n']);
    append_chars(&mut heading, &pad_right(&chars_of(WEIGHT_HEADING), WEIGHT_WIDTH, ' '));
    append_chars(&mut heading, &pad_right(&chars_of(CHANCE_HEADING), CHANCE_WIDTH, ' '));
    append_chars(&mut heading, &pad_right(&chars_of(LOOT_HEADING), LOOT_WIDTH, ' '));
    heading.push('\n');
    heading
}

/// The lines of a table, one for each entry in table order. Each entry is
/// shown with its share of `total` and under the name given for it.
pub open spec fn rows_text(entries: Seq<EntryView>, names: Seq<Seq<char>>, total: nat) -> Seq<
    char,
>
    decreases entries.len(),
{
    if entries.len() == 0 {
        Seq::empty()
    } else {
        rows_text(entries.drop_last(), names.drop_last(), total) + row_text(
            entries.last().0,
            total,
            label_of(entries.last().1, names.last()),
        )
    }
}

/// A table as the report shows it: the heading, then the lines, where every
/// share is taken in the total weight of the table itself.
pub open spec fn table_text(name: Seq<char>, entries: Seq<EntryView>, names: Seq<Seq<char>>)
    -> Seq<char> {
    heading_text(name) + rows_text(entries, names, total_weight(entries))
}

/// Some strings, each by its view.
pub open spec fn texts_view(texts: Seq<String>) -> Seq<Seq<char>> {
    Seq::new(texts.len(), |i: int| texts[i]@)
}

/// Writes one table of the report. `names` holds the name resolved for each
/// entry, in table order; with any other number of names than entries there
/// is nothing to write.
pub fn render_table(name: &str, table: &Loot, names: &Vec<String>) -> (text: Option<String>)
    ensures
        text is Some <==> names@.len() == table@.len(),
        text matches Some(written) ==> written@ == table_text(
            name@,
            table@,
            texts_view(names@),
        ),
{
    let entries = table.entries();
    if names.len() != entries.len() {
        return None;
    }
    let total = total_of(table);
    let mut text = heading_chars(name);
    let ghost all = entries_view(entries@);
    let ghost shown = texts_view(names@);
    let mut i: usize = 0;
    assert(text@ + rows_text(all.take(0), shown.take(0), total as nat) =~= text@);
    while i < entries.len()
        invariant
            i <= entries.len(),
            names.len() == entries.len(),
            all == entries_view(entries@),
            shown == texts_view(names@),
            text@ == heading_text(name@) + rows_text(
                all.take(i as int),
                shown.take(i as int),
                total as nat,
            ),
        decreases entries.len() - i,
    {
        let label = entry_label(&entries[i].1, names[i].as_str());
        let row = row_chars(entries[i].0, total, label.as_str());
        proof {
            assert(all.take(i + 1).drop_last() =~= all.take(i as int));
            assert(shown.take(i + 1).drop_last() =~= shown.take(i as int));
            assert(all.take(i + 1).last() == all[i as int]);
            assert(shown.take(i + 1).last() == shown[i as int]);
        }
        append_chars(&mut text, &row);
        assert(text@ =~= heading_text(name@) + (rows_text(
            all.take(i as int),
            shown.take(i as int),
            total as nat,
        ) + row@));
        i += 1;
    }
    assert(all.take(entries.len() as int) =~= all);
    assert(shown.take(entries.len() as int) =~= shown);
    Some(string_of(&text))
}

/// Where the total weight is zero, every entry is shown with `0.00%`.
pub proof fn nothing_has_no_chance(weight: nat)
    ensures
        percent_text(share(weight, 0)) == seq!['0', '.', '0', '0', '%'],
{
    assert(decimal(0) =~= seq!['0']);
    assert(percent_text(0) =~= seq!['0', '.', '0', '0', '%']);
}

/// The table that gives nothing is a table, and it weighs nothing: its one
/// entry is shown with `0.00%`.
pub proof fn default_table_weighs_nothing()
    ensures
        valid_table(default_table()),
        total_weight(default_table()) == 0,
{
    let table = default_table();
    assert(table.drop_last() =~= Seq::<EntryView>::empty());
    assert(total_weight(table.drop_last()) == 0);
}

/// The name to show for an entry: the resolved one, or a fixed mark where
/// the resolution failed.
pub fn shown_name(resolved: Result<String, LootError>) -> (name: String)
    ensures
        name@ == match resolved {
            Ok(found) => found@,
            Err(_) => UNRESOLVED_NAME@,
        },
{
    match resolved {
        Ok(found) => found,
        Err(_) => UNRESOLVED_NAME.to_owned(),
    }
}

/// The line that opens the report of a tier, with its line break.
pub open spec fn banner_text(level: Seq<char>) -> Seq<char> {
    BANNER_OPENING@ + level + BANNER_CLOSING@ + seq!['\n']
}

/// The tables of a tier one after the other, each under its heading.
pub open spec fn tables_text(tables: TablesView, names: Seq<Seq<Seq<char>>>)
    -> Seq<char>
    decreases tables.len(),
{
    if tables.len() == 0 {
        Seq::empty()
    } else {
        tables_text(tables.drop_last(), names.drop_last()) + table_text(
            tables.last().0,
            tables.last().1,
            names.last(),
        )
    }
}

/// The report of a tier: the opening line, then the tables in their order.
pub open spec fn report_text(
    level: Seq<char>,
    tables: TablesView,
    names: Seq<Seq<Seq<char>>>,
) -> Seq<char> {
    banner_text(level) + tables_text(tables, names)
}

/// Whether there is one list of names for each table and one name for each
/// entry.
pub open spec fn names_fit(tables: TablesView, names: Seq<Seq<Seq<char>>>)
    -> bool {
    &&& names.len() == tables.len()
    &&& forall|i: int| 0 <= i < tables.len() ==> (#[trigger] names[i]).len() == tables[i].1.len()
}

/// Lists of strings, each string by its view.
pub open spec fn names_view(names: Seq<Vec<String>>) -> Seq<Seq<Seq<char>>> {
    Seq::new(names.len(), |i: int| texts_view(names[i]@))
}

/// Writes the report of a tier. `names` holds, for each table in order, the
/// names resolved for its entries in order; where the names do not fit the
/// tables there is nothing to write.
pub fn render_report(level: &str, tables: &Vec<(String, Loot)>, names: &Vec<Vec<String>>) -> (text:
    Option<String>)
    ensures
        text is Some <==> names_fit(tables_view(tables@), names_view(names@)),
        text matches Some(written) ==> written@ == report_text(
            level@,
            tables_view(tables@),
            names_view(names@),
        ),
{
    let ghost all = tables_view(tables@);
    let ghost shown = names_view(names@);
    if names.len() != tables.len() {
        return None;
    }
    let mut text = chars_of(BANNER_OPENING);
    append_chars(&mut text, &chars_of(level));
    append_chars(&mut text, &chars_of(BANNER_CLOSING));
    text.push('\n');
    assert(text@ =~= banner_text(level@));
    assert(text@ + tables_text(all.take(0), shown.take(0)) =~= text@);
    let mut i: usize = 0;
    while i < tables.len()
        invariant
            i <= tables.len(),
            names.len() == tables.len(),
            all == tables_view(tables@),
            shown == names_view(names@),
            forall|j: int| 0 <= j < i ==> (#[trigger] shown[j]).len() == all[j].1.len(),
            text@ == banner_text(level@) + tables_text(all.take(i as int), shown.take(i as int)),
        decreases tables.len() - i,
    {
        let written = match render_table(tables[i].0.as_str(), &tables[i].1, &names[i]) {
            Some(written) => written,
            None => {
                assert(shown[i as int].len() != all[i as int].1.len());
                return None;
            },
        };
        proof {
            assert(all.take(i + 1).drop_last() =~= all.take(i as int));
            assert(shown.take(i + 1).drop_last() =~= shown.take(i as int));
            assert(all.take(i + 1).last() == all[i as int]);
            assert(shown.take(i + 1).last() == shown[i as int]);
        }
        append_chars(&mut text, &chars_of(written.as_str()));
        assert(text@ =~= banner_text(level@) + (tables_text(
            all.take(i as int),
            shown.take(i as int),
        ) + written@));
        i += 1;
    }
    assert(all.take(tables.len() as int) =~= all);
    assert(shown.take(tables.len() as int) =~= shown);
    Some(string_of(&text))
}

} // verus!
