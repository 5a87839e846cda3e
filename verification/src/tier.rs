//! One dungeon tier: where its loot tables are listed, and how the files of
//! the listing are gathered into a report.
//!
//! Gathering alternates fetches with decisions. The fetches are the caller's;
//! the decisions are an `Aggregation`, which says which file is wanted next
//! and takes what became of it.

use crate::envelope::{
    json_parsed, listing_of, listing_view, parse_listing, ListingEntry, ListingEntryView,
};
use crate::model::{
    default_table, optional_text, tables_view, EntryView, Loot, LootError, LootErrorView,
    TablesView,
};
use crate::text::{chars_of, digit_value, is_digit};
use vstd::prelude::*;

verus! {

/// What to do when a file of the listing fails.
#[derive(Clone, Copy, Debug, PartialEq, Eq, Structural)]
pub enum Policy {
    /// The first failure ends the gathering: no file after it is wanted.
    Strict,
    /// A failure is noted and the gathering goes on with the next file.
    BestEffort,
}

/// What became of one file: its table, or why there is none.
pub type FileOutcomeView = Result<Seq<EntryView>, LootErrorView>;

/// What became of one file, by its view.
pub open spec fn outcome_view(outcome: Result<Loot, LootError>) -> FileOutcomeView {
    match outcome {
        Ok(table) => Ok(table@),
        Err(error) => Err(error@),
    }
}

/// A report as the contracts see it: for each file that was dealt with, in
/// listing order, its name and what became of it.
pub type ReportView = Seq<(Seq<char>, FileOutcomeView)>;

/// A report, each line by its view.
pub open spec fn report_view(report: Seq<(String, Result<Loot, LootError>)>) -> ReportView {
    Seq::new(report.len(), |i: int| (report[i].0@, outcome_view(report[i].1)))
}

/// Whether some file of the report failed.
pub open spec fn has_failure(report: ReportView) -> bool {
    exists|i: int| 0 <= i < report.len() && (#[trigger] report[i]).1 is Err
}

/// A gathering as the contracts see it.
pub struct AggregationView {
    /// The files of the listing, in listing order.
    pub files: Seq<ListingEntryView>,
    /// What a failure does.
    pub policy: Policy,
    /// The files dealt with so far.
    pub report: ReportView,
}

impl AggregationView {
    /// A gathering has dealt with a front part of its listing, file by file:
    /// the report is no longer than the listing and has the files' names in
    /// the listing's order.
    pub open spec fn well_formed(self) -> bool {
        &&& self.report.len() <= self.files.len()
        &&& forall|i: int|
            0 <= i < self.report.len() ==> (#[trigger] self.report[i]).0 == self.files[i].0
    }

    /// Under the strict policy a failure ends the gathering.
    pub open spec fn halted(self) -> bool {
        self.policy == Policy::Strict && has_failure(self.report)
    }

    /// The file wanted next: the first that has not been dealt with, unless
    /// the gathering was ended or every file has been dealt with.
    pub open spec fn pending(self) -> Option<ListingEntryView> {
        if !self.halted() && self.report.len() < self.files.len() {
            Some(self.files[self.report.len() as int])
        } else {
            None
        }
    }

    /// The gathering once `outcome` is known for the file that was wanted.
    /// Where no file was wanted, nothing changes.
    pub open spec fn recorded(self, outcome: FileOutcomeView) -> AggregationView {
        match self.pending() {
            Some(file) => AggregationView { report: self.report.push((file.0, outcome)), ..self },
            None => self,
        }
    }
}

/// The gathering of one tier's tables: a state that is asked which file it
/// wants next and told what became of that file.
#[derive(Debug)]
pub struct Aggregation {
    files: Vec<ListingEntry>,
    policy: Policy,
    report: Vec<(String, Result<Loot, LootError>)>,
    failed: bool,
}

impl View for Aggregation {
    type V = AggregationView;

    closed spec fn view(&self) -> AggregationView {
        AggregationView {
            files: listing_view(self.files@),
            policy: self.policy,
            report: report_view(self.report@),
        }
    }
}

impl Aggregation {
    #[verifier::type_invariant]
    spec fn inv(self) -> bool {
        &&& self@.well_formed()
        &&& self.failed == has_failure(self@.report)
    }

    /// A gathering of the given files on which no file has been dealt with.
    pub fn begin(files: Vec<ListingEntry>, policy: Policy) -> (fresh: Aggregation)
        ensures
            fresh@ == (AggregationView {
                files: listing_view(files@),
                policy,
                report: Seq::empty(),
            }),
            fresh@.well_formed(),
    {
        let fresh = Aggregation { files, policy, report: Vec::new(), failed: false };
        assert(fresh@.report =~= Seq::empty());
        fresh
    }

    /// The file to fetch next, if one is wanted.
    pub fn pending(&self) -> (file: Option<&ListingEntry>)
        ensures
            self@.well_formed(),
            match file {
                Some(wanted) => self@.pending() == Some(wanted@),
                None => self@.pending() is None,
            },
    {
        proof {
            use_type_invariant(self);
        }
        let halted = match self.policy {
            Policy::Strict => self.failed,
            Policy::BestEffort => false,
        };
        if !halted && self.report.len() < self.files.len() {
            Some(&self.files[self.report.len()])
        } else {
            None
        }
    }

    /// The gathering once the file that was wanted has been dealt with.
    /// Where no file was wanted, the outcome is dropped.
    pub fn record(self, outcome: Result<Loot, LootError>) -> (next: Aggregation)
        ensures
            next@ == self@.recorded(outcome_view(outcome)),
            next@.well_formed(),
    {
        proof {
            use_type_invariant(&self);
        }
        let halted = match self.policy {
            Policy::Strict => self.failed,
            Policy::BestEffort => false,
        };
        if !halted && self.report.len() < self.files.len() {
            let name = self.files[self.report.len()].name.clone();
            let failed = self.failed || outcome.is_err();
            let ghost before = report_view(self.report@);
            let ghost line = (name@, outcome_view(outcome));
            let Aggregation { files, policy, report, failed: _ } = self;
            let mut report = report;
            report.push((name, outcome));
            proof {
                assert(report_view(report@) =~= before.push(line));
                let after = report_view(report@);
                if has_failure(before) {
                    let i = choose|i: int| 0 <= i < before.len() && (#[trigger] before[i]).1 is Err;
                    assert(after[i].1 is Err);
                }
                if line.1 is Err {
                    assert(after[before.len() as int].1 is Err);
                }
                if has_failure(after) {
                    let i = choose|i: int| 0 <= i < after.len() && (#[trigger] after[i]).1 is Err;
                    if i < before.len() {
                        assert(before[i].1 is Err);
                    }
                }
            }
            Aggregation { files, policy, report, failed }
        } else {
            self
        }
    }

    /// Ends the gathering and hands out the report: the files dealt with, in
    /// listing order, each with its name and what became of it.
    pub fn finish(self) -> (report: Vec<(String, Result<Loot, LootError>)>)
        ensures
            report_view(report@) == self@.report,
            self@.well_formed(),
    {
        proof {
            use_type_invariant(&self);
        }
        self.report
    }
}

/// The failures of a report as the contracts see them: name, then error.
pub type FailuresView = Seq<(Seq<char>, LootErrorView)>;

/// Some named failures, each by its view.
pub open spec fn failures_view(failures: Seq<(String, LootError)>) -> FailuresView {
    Seq::new(failures.len(), |i: int| (failures[i].0@, failures[i].1@))
}

/// The files of a report that gave a table, in the report's order.
pub open spec fn tables_of(report: ReportView) -> TablesView
    decreases report.len(),
{
    if report.len() == 0 {
        Seq::empty()
    } else {
        match report.last().1 {
            Ok(table) => tables_of(report.drop_last()).push((report.last().0, table)),
            Err(_) => tables_of(report.drop_last()),
        }
    }
}

/// The files of a report that failed, in the report's order.
pub open spec fn failures_of(report: ReportView) -> FailuresView
    decreases report.len(),
{
    if report.len() == 0 {
        Seq::empty()
    } else {
        match report.last().1 {
            Ok(_) => failures_of(report.drop_last()),
            Err(error) => failures_of(report.drop_last()).push((report.last().0, error)),
        }
    }
}

/// Every file of a report is a table or a failure, and it has failures
/// exactly if some file failed.
pub proof fn report_splits(report: ReportView)
    ensures
        tables_of(report).len() + failures_of(report).len() == report.len(),
        failures_of(report).len() > 0 <==> has_failure(report),
    decreases report.len(),
{
    if report.len() > 0 {
        let front = report.drop_last();
        report_splits(front);
        if has_failure(front) {
            let i = choose|i: int| 0 <= i < front.len() && (#[trigger] front[i]).1 is Err;
            assert(report[i].1 is Err);
        }
        if report.last().1 is Err {
            assert(report[report.len() - 1].1 is Err);
        }
        if has_failure(report) {
            let i = choose|i: int| 0 <= i < report.len() && (#[trigger] report[i]).1 is Err;
            if i < front.len() {
                assert(front[i].1 is Err);
            }
        }
    }
}

/// A report whose files all gave a table has the tables of all its files,
/// under their names and in their order.
pub proof fn report_without_failure(report: ReportView)
    requires
        !has_failure(report),
    ensures
        tables_of(report).len() == report.len(),
        forall|i: int|
            0 <= i < report.len() ==> (#[trigger] report[i]).1 == Ok::<
                Seq<EntryView>,
                LootErrorView,
            >(tables_of(report)[i].1) && tables_of(report)[i].0 == report[i].0,
    decreases report.len(),
{
    if report.len() > 0 {
        let front = report.drop_last();
        assert(report[report.len() - 1].1 is Ok);
        assert forall|i: int| 0 <= i < front.len() implies (#[trigger] front[i]).1 is Ok by {
            assert(report[i].1 is Ok);
        }
        report_without_failure(front);
        assert forall|i: int| 0 <= i < report.len() implies (#[trigger] report[i]).1 == Ok::<
            Seq<EntryView>,
            LootErrorView,
        >(tables_of(report)[i].1) && tables_of(report)[i].0 == report[i].0 by {
            if i < front.len() {
                assert(front[i] == report[i]);
            }
        }
    }
}

/// A gathering that wants no more files and saw no failure has a table for
/// every file of the listing, under the file's name and in listing order.
pub proof fn complete_gathering_keeps_listing_order(gathering: AggregationView)
    requires
        gathering.well_formed(),
        gathering.pending() is None,
        !has_failure(gathering.report),
    ensures
        tables_of(gathering.report).len() == gathering.files.len(),
        forall|i: int|
            0 <= i < gathering.files.len() ==> (#[trigger] tables_of(gathering.report)[i]).0
                == gathering.files[i].0,
{
    report_without_failure(gathering.report);
    assert forall|i: int| 0 <= i < gathering.files.len() implies (#[trigger] tables_of(
        gathering.report,
    )[i]).0 == gathering.files[i].0 by {
        assert(gathering.report[i].0 == gathering.files[i].0);
    }
}

/// Parts a report into the tables and the failures, each in the report's
/// order.
pub fn split_report(report: Vec<(String, Result<Loot, LootError>)>) -> (parts: (
    Vec<(String, Loot)>,
    Vec<(String, LootError)>,
))
    ensures
        tables_view(parts.0@) == tables_of(report_view(report@)),
        failures_view(parts.1@) == failures_of(report_view(report@)),
{
    let mut tables: Vec<(String, Loot)> = Vec::new();
    let mut failures: Vec<(String, LootError)> = Vec::new();
    let ghost all = report_view(report@);
    assert(tables_view(tables@) =~= tables_of(all.take(0)));
    assert(failures_view(failures@) =~= failures_of(all.take(0)));
    for line in it: report.into_iter()
        invariant
            it.seq() == report@,
            all == report_view(report@),
            tables_view(tables@) == tables_of(all.take(it.index() as int)),
            failures_view(failures@) == failures_of(all.take(it.index() as int)),
    {
        let ghost at = it.index() as int;
        let ghost tables_before = tables_view(tables@);
        let ghost failures_before = failures_view(failures@);
        proof {
            assert(all.take(at + 1).drop_last() =~= all.take(at));
            assert(all.take(at + 1).last() == all[at]);
            assert(all[at] == (line.0@, outcome_view(line.1)));
        }
        let (name, outcome) = line;
        match outcome {
            Ok(table) => {
                tables.push((name, table));
                assert(tables_view(tables@) =~= tables_before.push((name@, table@)));
            },
            Err(error) => {
                failures.push((name, error));
                assert(failures_view(failures@) =~= failures_before.push((name@, error@)));
            },
        }
    }
    assert(all.take(report@.len() as int) =~= all);
    (tables, failures)
}

/// What a report is worth where a single failure spoils it: its tables if
/// no file failed, else the error of the first file that did.
pub open spec fn strict_tables(report: ReportView) -> Result<TablesView, LootErrorView> {
    if failures_of(report).len() == 0 {
        Ok(tables_of(report))
    } else {
        Err(failures_of(report)[0].1)
    }
}

/// The tables of a report, all or none: the first failure, if there is one,
/// comes in their place.
pub fn into_tables(report: Vec<(String, Result<Loot, LootError>)>) -> (tables: Result<
    Vec<(String, Loot)>,
    LootError,
>)
    ensures
        match tables {
            Ok(all) => strict_tables(report_view(report@)) == Ok::<TablesView, LootErrorView>(
                tables_view(all@),
            ),
            Err(error) => strict_tables(report_view(report@)) == Err::<TablesView, LootErrorView>(
                error@,
            ),
        },
{
    let (tables, mut failures) = split_report(report);
    if failures.len() == 0 {
        Ok(tables)
    } else {
        let first = failures.remove(0);
        Err(first.1)
    }
}

/// Whether `reqwest::Url::parse` accepts a text as an absolute locator.
pub uninterp spec fn url_parses(text: Seq<char>) -> bool;

/// Tells whether a text is an absolute locator.
///
/// Trusted: this is `reqwest::Url::parse`, asked only whether it succeeded.
/// The contract gives the answer its name: it depends on the text alone.
#[verifier::external_body]
fn is_locator(text: &str) -> (accepted: bool)
    ensures
        accepted == url_parses(text@),
{
    reqwest::Url::parse(text).is_ok()
}

/// The listing that the fetch of a directory brought: a fetch that failed is
/// a network error, a body that is no listing a protocol error.
pub open spec fn listing_outcome(body: Option<Seq<char>>) -> Result<
    Seq<ListingEntryView>,
    LootErrorView,
> {
    match body {
        None => Err(LootErrorView::Network),
        Some(body) => listing_of(json_parsed(body)),
    }
}

/// A dungeon tier: its level's name, and the locator of the directory that
/// lists its loot tables. Until tables are requested it holds the table that
/// gives nothing.
#[derive(Debug)]
pub struct DungeonsLoot<'a> {
    dungeon_level: &'a str,
    loots: (Loot, &'a str),
}

impl<'a> Clone for DungeonsLoot<'a> {
    /// The same tier once more.
    fn clone(&self) -> (copy: DungeonsLoot<'a>)
        ensures
            copy.level_view() == self.level_view(),
            copy.locator_view() == self.locator_view(),
            copy.table_view() == self.table_view(),
    {
        DungeonsLoot { dungeon_level: self.dungeon_level, loots: (self.loots.0.clone(), self.loots.1) }
    }
}

impl<'a> DungeonsLoot<'a> {
    /// The name of the tier's level.
    pub closed spec fn level_view(self) -> Seq<char> {
        self.dungeon_level@
    }

    /// The locator of the tier's directory.
    pub closed spec fn locator_view(self) -> Seq<char> {
        self.loots.1@
    }

    /// The table held for the tier.
    pub closed spec fn table_view(self) -> Seq<EntryView> {
        self.loots.0@
    }

    /// The tier of the level `dungeon_level` whose tables are listed at
    /// `url`, which must be an absolute locator.
    pub fn new(url: &'a str, dungeon_level: &'a str) -> (tier: DungeonsLoot<'a>)
        requires
            url_parses(url@),
        ensures
            tier.level_view() == dungeon_level@,
            tier.locator_view() == url@,
            tier.table_view() == default_table(),
    {
        DungeonsLoot { dungeon_level, loots: (Loot::default(), url) }
    }

    /// The tier of the level `dungeon_level` whose tables are listed at
    /// `url`, or nothing where `url` is no absolute locator.
    pub fn try_new(url: &'a str, dungeon_level: &'a str) -> (tier: Option<DungeonsLoot<'a>>)
        ensures
            tier is Some <==> url_parses(url@),
            tier matches Some(made) ==> made.level_view() == dungeon_level@ && made.locator_view()
                == url@ && made.table_view() == default_table(),
    {
        if is_locator(url) {
            Some(DungeonsLoot::new(url, dungeon_level))
        } else {
            None
        }
    }

    /// Begins the gathering of the tier's tables with what the fetch of the
    /// tier's directory brought; `None` stands for a fetch that failed. The
    /// gathering wants the files of the listing one by one, in listing
    /// order.
    pub fn request_parse_loots(&self, listing: Option<&str>, policy: Policy) -> (begun: Result<
        Aggregation,
        LootError,
    >)
        ensures
            match begun {
                Ok(gathering) => listing_outcome(optional_text(listing)) == Ok::<
                    Seq<ListingEntryView>,
                    LootErrorView,
                >(gathering@.files) && gathering@.policy == policy && gathering@.report.len()
                    == 0,
                Err(error) => listing_outcome(optional_text(listing)) == Err::<
                    Seq<ListingEntryView>,
                    LootErrorView,
                >(error@),
            },
    {
        match listing {
            None => Err(LootError::Network),
            Some(body) => match parse_listing(body) {
                Ok(files) => Ok(Aggregation::begin(files, policy)),
                Err(_) => Err(LootError::Protocol),
            },
        }
    }

    /// The name of the tier's level.
    pub fn dungeon_level(&self) -> (level: &'a str)
        ensures
            level@ == self.level_view(),
    {
        self.dungeon_level
    }

    /// The locator of the directory that lists the tier's tables.
    pub fn locator(&self) -> (locator: &'a str)
        ensures
            locator@ == self.locator_view(),
    {
        self.loots.1
    }
}

/// What the user chose from the menu.
#[derive(Clone, Copy, Debug, PartialEq, Eq, Structural)]
pub enum MenuChoice {
    /// The tier at this place in the list of tiers, counted from zero.
    Tier(usize),
    /// Every tier, in the list's order.
    All,
    /// Leave.
    Quit,
    /// Nothing the menu offers.
    Unknown,
}

/// The choice that an input makes from a menu of `tiers` tiers. The digits
/// from `1` on choose a tier, as far as there are tiers and digits below
/// `9`; `9` chooses all tiers and `0` leaves. Any other input, and any input
/// of more than one character, chooses nothing.
pub open spec fn choice_of(input: Seq<char>, tiers: nat) -> MenuChoice {
    if input.len() != 1 {
        MenuChoice::Unknown
    } else if input[0] == '0' {
        MenuChoice::Quit
    } else if input[0] == '9' {
        MenuChoice::All
    } else if is_digit(input[0]) && 1 <= digit_value(input[0]) <= tiers {
        MenuChoice::Tier((digit_value(input[0]) - 1) as usize)
    } else {
        MenuChoice::Unknown
    }
}

/// Reads the user's choice off an input line that has been trimmed.
pub fn menu_choice(input: &str, tiers: usize) -> (choice: MenuChoice)
    ensures
        choice == choice_of(input@, tiers as nat),
        choice matches MenuChoice::Tier(place) ==> place < tiers,
{
    let chars = chars_of(input);
    if chars.len() != 1 {
        return MenuChoice::Unknown;
    }
    let c = chars[0];
    let place: usize = if c == '1' {
        1
    } else if c == '2' {
        2
    } else if c == '3' {
        3
    } else if c == '4' {
        4
    } else if c == '5' {
        5
    } else if c == '6' {
        6
    } else if c == '7' {
        7
    } else if c == '8' {
        8
    } else {
        0
    };
    if c == '0' {
        MenuChoice::Quit
    } else if c == '9' {
        MenuChoice::All
    } else if 1 <= place && place <= tiers {
        MenuChoice::Tier(place - 1)
    } else {
        MenuChoice::Unknown
    }
}

} // verus!
