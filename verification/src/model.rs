//! The loot tables themselves: references, weights, tables and errors.

use vstd::prelude::*;

verus! {

/// What one entry of a loot table hands out.
#[derive(Clone, Debug, PartialEq)]
pub enum LootSpec<T> {
    /// Asset specifier
    Item(T),
    /// Asset specifier, lower range, upper range
    ItemQuantity(T, u32, u32),
    /// Loot table
    LootTable(T),
    /// No loot given
    Nothing,
}

impl<T: View> View for LootSpec<T> {
    type V = LootSpec<T::V>;

    open spec fn view(&self) -> LootSpec<T::V> {
        match *self {
            LootSpec::Item(path) => LootSpec::Item(path@),
            LootSpec::ItemQuantity(path, min, max) => LootSpec::ItemQuantity(path@, min, max),
            LootSpec::LootTable(path) => LootSpec::LootTable(path@),
            LootSpec::Nothing => LootSpec::Nothing,
        }
    }
}

impl<T> LootSpec<T> {
    /// A quantity range is inclusive and must not be inverted; the other
    /// variants carry nothing that could be wrong.
    pub open spec fn well_formed(self) -> bool {
        match self {
            LootSpec::ItemQuantity(_, min, max) => min <= max,
            _ => true,
        }
    }

    /// Tells whether the reference may stand in a table.
    pub fn is_well_formed(&self) -> (ok: bool)
        ensures
            ok == self.well_formed(),
    {
        match self {
            LootSpec::ItemQuantity(_, min, max) => *min <= *max,
            _ => true,
        }
    }

    /// A quantity-ranged reference, refused when the range is inverted.
    pub fn item_quantity(path: T, min: u32, max: u32) -> (made: Option<LootSpec<T>>)
        ensures
            made is Some <==> min <= max,
            min <= max ==> made == Some(LootSpec::ItemQuantity(path, min, max)),
    {
        if min <= max {
            Some(LootSpec::ItemQuantity(path, min, max))
        } else {
            None
        }
    }
}

/// A relative weight in millionths of a unit. It is no probability: only its
/// share of a table's total says how likely an entry is.
#[derive(Clone, Copy, Debug, PartialEq, Eq, Structural)]
pub struct Weight {
    pub micros: u64,
}

/// How many millionths make one unit of weight.
pub const MICROS_PER_UNIT: u64 = 1_000_000;

impl Weight {
    /// The weight of `units` whole units.
    pub fn from_units(units: u32) -> (w: Weight)
        ensures
            w.micros == units * MICROS_PER_UNIT,
    {
        let wide: u64 = units as u64;
        Weight { micros: wide * MICROS_PER_UNIT }
    }
}

/// Why a failed name resolution failed.
#[derive(Clone, Copy, Debug, PartialEq, Eq, Structural)]
pub enum Cause {
    /// The description file could not be fetched.
    Network,
    /// The fetched body was no file envelope.
    Protocol,
    /// The payload was no base64, or its bytes no UTF-8.
    Encoding,
    /// A text was no loot table.
    Decode,
    /// The description holds no quoted name.
    NameNotFound,
}

/// Everything that can go wrong between a locator and a report.
#[derive(Clone, Debug, PartialEq)]
pub enum LootError {
    /// Transport failure or a status other than success.
    Network,
    /// The response is not the structured data that was expected.
    Protocol,
    /// The payload is no base64, or its bytes are no UTF-8.
    Encoding,
    /// The text is no loot table; the offending text comes with it.
    Decode(String),
    /// A description holds no quoted name.
    NameNotFound,
    /// A name could not be resolved, for the cause given.
    Resolution(Cause),
}

impl LootError {
    /// The cause to report when this error stops a name resolution. An error
    /// that already is a failed resolution keeps its cause.
    pub fn cause(&self) -> (cause: Cause)
        ensures
            cause == self@.cause(),
    {
        match self {
            LootError::Network => Cause::Network,
            LootError::Protocol => Cause::Protocol,
            LootError::Encoding => Cause::Encoding,
            LootError::Decode(_) => Cause::Decode,
            LootError::NameNotFound => Cause::NameNotFound,
            LootError::Resolution(cause) => *cause,
        }
    }
}

/// `LootError` with its text as a sequence of characters.
pub enum LootErrorView {
    Network,
    Protocol,
    Encoding,
    Decode(Seq<char>),
    NameNotFound,
    Resolution(Cause),
}

impl LootErrorView {
    /// The cause to report when this error stops a name resolution.
    pub open spec fn cause(self) -> Cause {
        match self {
            LootErrorView::Network => Cause::Network,
            LootErrorView::Protocol => Cause::Protocol,
            LootErrorView::Encoding => Cause::Encoding,
            LootErrorView::Decode(_) => Cause::Decode,
            LootErrorView::NameNotFound => Cause::NameNotFound,
            LootErrorView::Resolution(cause) => cause,
        }
    }
}

impl View for LootError {
    type V = LootErrorView;

    open spec fn view(&self) -> LootErrorView {
        match *self {
            LootError::Network => LootErrorView::Network,
            LootError::Protocol => LootErrorView::Protocol,
            LootError::Encoding => LootErrorView::Encoding,
            LootError::Decode(text) => LootErrorView::Decode(text@),
            LootError::NameNotFound => LootErrorView::NameNotFound,
            LootError::Resolution(cause) => LootErrorView::Resolution(cause),
        }
    }
}

/// A text that may be missing, by its view.
pub open spec fn optional_text(text: Option<&str>) -> Option<Seq<char>> {
    match text {
        Some(present) => Some(present@),
        None => None,
    }
}

/// A text or the error that came in its place, each by its view.
pub open spec fn text_outcome(outcome: Result<String, LootError>) -> Result<
    Seq<char>,
    LootErrorView,
> {
    match outcome {
        Ok(text) => Ok(text@),
        Err(error) => Err(error@),
    }
}

/// One weighted entry as the contracts see it: the weight in millionths and
/// the reference with its path as characters.
pub type EntryView = (nat, LootSpec<Seq<char>>);

/// The entries of a vector, each by its view.
pub open spec fn entries_view(entries: Seq<(Weight, LootSpec<String>)>) -> Seq<EntryView> {
    Seq::new(entries.len(), |i: int| (entries[i].0.micros as nat, entries[i].1@))
}

/// A table holds at least one entry, and no entry an inverted range.
pub open spec fn valid_table(entries: Seq<EntryView>) -> bool {
    &&& entries.len() > 0
    &&& forall|i: int| 0 <= i < entries.len() ==> (#[trigger] entries[i]).1.well_formed()
}

/// The table that stands for "no loot": one entry of weight zero that gives
/// nothing.
pub open spec fn default_table() -> Seq<EntryView> {
    seq![(0nat, LootSpec::Nothing)]
}

/// An ordered list of weighted entries. The order is that of the description
/// file and is kept for display; it plays no part in the drop chances.
#[derive(Debug, PartialEq)]
pub struct Loot {
    loot: Vec<(Weight, LootSpec<String>)>,
}

impl View for Loot {
    type V = Seq<EntryView>;

    closed spec fn view(&self) -> Seq<EntryView> {
        entries_view(self.loot@)
    }
}

impl Loot {
    #[verifier::type_invariant]
    spec fn inv(self) -> bool {
        valid_table(entries_view(self.loot@))
    }

    /// Builds a table from its entries. An empty list and a list with an
    /// inverted quantity range are refused.
    pub fn new(entries: Vec<(Weight, LootSpec<String>)>) -> (made: Option<Loot>)
        ensures
            made is Some <==> valid_table(entries_view(entries@)),
            made matches Some(table) ==> table@ == entries_view(entries@),
    {
        if entries.len() == 0 {
            return None;
        }
        let mut i: usize = 0;
        while i < entries.len()
            invariant
                i <= entries.len(),
                forall|j: int| 0 <= j < i ==> (#[trigger] entries_view(entries@)[j]).1.well_formed(),
            decreases entries.len() - i,
        {
            if !entries[i].1.is_well_formed() {
                assert(!entries_view(entries@)[i as int].1.well_formed());
                return None;
            }
            i += 1;
        }
        Some(Loot { loot: entries })
    }

    /// The entries in table order.
    pub fn entries(&self) -> (all: &Vec<(Weight, LootSpec<String>)>)
        ensures
            entries_view(all@) == self@,
            valid_table(self@),
    {
        proof {
            use_type_invariant(self);
        }
        &self.loot
    }

    /// How many entries the table holds; never zero.
    pub fn len(&self) -> (n: usize)
        ensures
            n == self@.len(),
            n > 0,
    {
        proof {
            use_type_invariant(self);
        }
        self.loot.len()
    }
}

/// Named tables as the contracts see them: name, then entries.
pub type TablesView = Seq<(Seq<char>, Seq<EntryView>)>;

/// Some named tables, each by its view.
pub open spec fn tables_view(tables: Seq<(String, Loot)>) -> TablesView {
    Seq::new(tables.len(), |i: int| (tables[i].0@, tables[i].1@))
}

impl Clone for Loot {
    /// A table with the same entries in the same order.
    fn clone(&self) -> (copy: Loot)
        ensures
            copy@ == self@,
    {
        proof {
            use_type_invariant(self);
        }
        let mut loot: Vec<(Weight, LootSpec<String>)> = Vec::new();
        let mut i: usize = 0;
        while i < self.loot.len()
            invariant
                i <= self.loot.len(),
                loot.len() == i,
                forall|j: int|
                    0 <= j < i ==> (#[trigger] loot@[j]).0 == self.loot@[j].0 && loot@[j].1@
                        == self.loot@[j].1@,
            decreases self.loot.len() - i,
        {
            let weight = self.loot[i].0;
            let reference = copy_reference(&self.loot[i].1);
            loot.push((weight, reference));
            i += 1;
        }
        assert(entries_view(loot@) =~= entries_view(self.loot@));
        Loot { loot }
    }
}

/// A reference equal to the one given, path and range alike.
pub fn copy_reference(reference: &LootSpec<String>) -> (copy: LootSpec<String>)
    ensures
        copy@ == reference@,
{
    match reference {
        LootSpec::Item(path) => LootSpec::Item(path.clone()),
        LootSpec::ItemQuantity(path, min, max) => LootSpec::ItemQuantity(path.clone(), *min, *max),
        LootSpec::LootTable(path) => LootSpec::LootTable(path.clone()),
        LootSpec::Nothing => LootSpec::Nothing,
    }
}

impl Default for Loot {
    /// The table that gives nothing.
    fn default() -> (table: Loot)
        ensures
            table@ == default_table(),
    {
        let mut loot: Vec<(Weight, LootSpec<String>)> = Vec::new();
        loot.push((Weight { micros: 0 }, LootSpec::Nothing));
        assert(entries_view(loot@) =~= default_table());
        Loot { loot }
    }
}

} // verus!
