//! Financial statements and the table that stores them under their natural
//! key: security code, year and quarter.

use vstd::prelude::*;
use crate::amount::Amount;
use crate::keyed::{
    as_map, distinct_keys, lemma_absent_key, lemma_empty_table, lemma_push_fresh,
    lemma_replace_row, lemma_row_in_map, lemma_table_size, place_of,
};
use crate::sentinel::Millis;
use crate::source::{Eps, Profile, ProfileView, Profit};
use crate::text::{decimal_text, render_i64};

verus! {

/// One financial statement.  An empty `quarter` marks an annual statement.
pub struct FinancialStatement {
    pub updated_time: Millis,
    pub created_time: Millis,
    pub quarter: String,
    pub security_code: String,
    pub gross_profit: Amount,
    pub operating_profit_margin: Amount,
    pub pre_tax_income: Amount,
    pub net_income: Amount,
    pub net_asset_value_per_share: Amount,
    pub sales_per_share: Amount,
    pub earnings_per_share: Amount,
    pub profit_before_tax: Amount,
    pub return_on_equity: Amount,
    pub return_on_assets: Amount,
    pub serial: i64,
    pub year: i64,
}

/// The natural key of a statement.
pub struct StatementKey {
    pub security_code: Seq<char>,
    pub year: i64,
    pub quarter: Seq<char>,
}

/// A statement as plain values.
pub struct StatementView {
    pub updated_time: Millis,
    pub created_time: Millis,
    pub quarter: Seq<char>,
    pub security_code: Seq<char>,
    pub gross_profit: Amount,
    pub operating_profit_margin: Amount,
    pub pre_tax_income: Amount,
    pub net_income: Amount,
    pub net_asset_value_per_share: Amount,
    pub sales_per_share: Amount,
    pub earnings_per_share: Amount,
    pub profit_before_tax: Amount,
    pub return_on_equity: Amount,
    pub return_on_assets: Amount,
    pub serial: i64,
    pub year: i64,
}

/// Why the table refused a write.
#[derive(Clone, Copy, Debug, PartialEq, Eq, Structural)]
pub enum WriteError {
    /// A figure does not fit the decimal columns of the table.
    FigureOutOfRange,
}

impl StatementView {
    /// The natural key.
    pub open spec fn key(self) -> StatementKey {
        StatementKey { security_code: self.security_code, year: self.year, quarter: self.quarter }
    }

    /// Every figure fits a decimal column.
    pub open spec fn storable(self) -> bool {
        &&& self.gross_profit.valid()
        &&& self.operating_profit_margin.valid()
        &&& self.pre_tax_income.valid()
        &&& self.net_income.valid()
        &&& self.net_asset_value_per_share.valid()
        &&& self.sales_per_share.valid()
        &&& self.earnings_per_share.valid()
        &&& self.profit_before_tax.valid()
        &&& self.return_on_equity.valid()
        &&& self.return_on_assets.valid()
    }

    /// A statement for the security with nothing filled in.
    pub open spec fn blank(security_code: Seq<char>) -> StatementView {
        StatementView {
            updated_time: 0,
            created_time: 0,
            quarter: Seq::empty(),
            security_code,
            gross_profit: Amount { mantissa: 0, scale: 0 },
            operating_profit_margin: Amount { mantissa: 0, scale: 0 },
            pre_tax_income: Amount { mantissa: 0, scale: 0 },
            net_income: Amount { mantissa: 0, scale: 0 },
            net_asset_value_per_share: Amount { mantissa: 0, scale: 0 },
            sales_per_share: Amount { mantissa: 0, scale: 0 },
            earnings_per_share: Amount { mantissa: 0, scale: 0 },
            profit_before_tax: Amount { mantissa: 0, scale: 0 },
            return_on_equity: Amount { mantissa: 0, scale: 0 },
            return_on_assets: Amount { mantissa: 0, scale: 0 },
            serial: 0,
            year: 0,
        }
    }

    /// The statement that a provider's record becomes when it is taken in
    /// at the moment `now`.
    pub open spec fn of_record(record: ProfileView, now: Millis) -> StatementView {
        StatementView {
            updated_time: now,
            created_time: now,
            quarter: record.quarter,
            security_code: record.security_code,
            gross_profit: record.gross_profit,
            operating_profit_margin: record.operating_profit_margin,
            pre_tax_income: record.pre_tax_income,
            net_income: record.net_income,
            net_asset_value_per_share: record.net_asset_value_per_share,
            sales_per_share: record.sales_per_share,
            earnings_per_share: record.earnings_per_share,
            profit_before_tax: record.profit_before_tax,
            return_on_equity: record.return_on_equity,
            return_on_assets: record.return_on_assets,
            serial: 0,
            year: record.year as i64,
        }
    }

    /// The stored row after a write of `incoming` met it: every figure and
    /// the time of the update come from `incoming`; the time of creation and
    /// the serial stay.
    pub open spec fn overwritten_by(self, incoming: StatementView) -> StatementView {
        StatementView { created_time: self.created_time, serial: self.serial, ..incoming }
    }

    /// The row that a write of the earnings per share alone creates.
    pub open spec fn earnings_only(self) -> StatementView {
        StatementView {
            updated_time: self.updated_time,
            created_time: self.created_time,
            quarter: self.quarter,
            year: self.year,
            earnings_per_share: self.earnings_per_share,
            ..StatementView::blank(self.security_code)
        }
    }

    /// The text of the natural key: code, year and quarter, joined by `-`.
    pub open spec fn key_text(self) -> Seq<char> {
        self.security_code + seq!['-'] + decimal_text(self.year as int) + seq!['-'] + self.quarter
    }
}

impl View for FinancialStatement {
    type V = StatementView;

    open spec fn view(&self) -> StatementView {
        StatementView {
            updated_time: self.updated_time,
            created_time: self.created_time,
            quarter: self.quarter@,
            security_code: self.security_code@,
            gross_profit: self.gross_profit,
            operating_profit_margin: self.operating_profit_margin,
            pre_tax_income: self.pre_tax_income,
            net_income: self.net_income,
            net_asset_value_per_share: self.net_asset_value_per_share,
            sales_per_share: self.sales_per_share,
            earnings_per_share: self.earnings_per_share,
            profit_before_tax: self.profit_before_tax,
            return_on_equity: self.return_on_equity,
            return_on_assets: self.return_on_assets,
            serial: self.serial,
            year: self.year,
        }
    }
}

/// The prefix of a statement's key in a shared key space.
pub open spec fn key_prefix() -> Seq<char> {
    "FinancialStatement:"@
}

impl FinancialStatement {
    /// A statement for the security with nothing filled in.
    pub fn new(security_code: String) -> (statement: FinancialStatement)
        ensures
            statement@ == StatementView::blank(security_code@),
    {
        let quarter = String::new();
        FinancialStatement {
            updated_time: 0,
            created_time: 0,
            quarter,
            security_code,
            gross_profit: Amount::zero(),
            operating_profit_margin: Amount::zero(),
            pre_tax_income: Amount::zero(),
            net_income: Amount::zero(),
            net_asset_value_per_share: Amount::zero(),
            sales_per_share: Amount::zero(),
            earnings_per_share: Amount::zero(),
            profit_before_tax: Amount::zero(),
            return_on_equity: Amount::zero(),
            return_on_assets: Amount::zero(),
            serial: 0,
            year: 0,
        }
    }

    /// The text of the natural key: code, year and quarter, joined by `-`.
    pub fn key(&self) -> (text: String)
        ensures
            text@ == self@.key_text(),
    {
        let mut text = self.security_code.clone();
        let year = render_i64(self.year);
        text.append("-");
        text.append(year.as_str());
        text.append("-");
        text.append(self.quarter.as_str());
        proof {
            reveal_strlit("-");
            assert("-"@ =~= seq!['-']);
        }
        text
    }

    /// The key behind the prefix that tells statements from other records.
    pub fn key_with_prefix(&self) -> (text: String)
        ensures
            text@ == key_prefix() + self@.key_text(),
    {
        let mut text = String::from_str("FinancialStatement:");
        let key = self.key();
        text.append(key.as_str());
        text
    }

    /// A copy of the statement.
    pub fn duplicate(&self) -> (copy: FinancialStatement)
        ensures
            copy@ == self@,
    {
        FinancialStatement {
            updated_time: self.updated_time,
            created_time: self.created_time,
            quarter: self.quarter.clone(),
            security_code: self.security_code.clone(),
            gross_profit: self.gross_profit,
            operating_profit_margin: self.operating_profit_margin,
            pre_tax_income: self.pre_tax_income,
            net_income: self.net_income,
            net_asset_value_per_share: self.net_asset_value_per_share,
            sales_per_share: self.sales_per_share,
            earnings_per_share: self.earnings_per_share,
            profit_before_tax: self.profit_before_tax,
            return_on_equity: self.return_on_equity,
            return_on_assets: self.return_on_assets,
            serial: self.serial,
            year: self.year,
        }
    }

    /// Whether every figure fits a decimal column.
    pub fn is_storable(&self) -> (ok: bool)
        ensures
            ok == self@.storable(),
    {
        self.gross_profit.is_valid() && self.operating_profit_margin.is_valid()
            && self.pre_tax_income.is_valid() && self.net_income.is_valid()
            && self.net_asset_value_per_share.is_valid() && self.sales_per_share.is_valid()
            && self.earnings_per_share.is_valid() && self.profit_before_tax.is_valid()
            && self.return_on_equity.is_valid() && self.return_on_assets.is_valid()
    }

    /// Whether two statements have the same natural key.
    pub fn same_key(&self, other: &FinancialStatement) -> (same: bool)
        ensures
            same == (self@.key() == other@.key()),
    {
        self.year == other.year && self.security_code == other.security_code && self.quarter
            == other.quarter
    }

    /// Takes in a company profile at the moment `now`.
    pub fn from_profile(fs: Profile, now: Millis) -> (statement: FinancialStatement)
        ensures
            statement@ == StatementView::of_record(fs@, now),
    {
        let year = fs.year as i64;
        let mut e = FinancialStatement::new(fs.security_code);
        e.updated_time = now;
        e.created_time = now;
        e.quarter = fs.quarter;
        e.gross_profit = fs.gross_profit;
        e.operating_profit_margin = fs.operating_profit_margin;
        e.pre_tax_income = fs.pre_tax_income;
        e.net_income = fs.net_income;
        e.net_asset_value_per_share = fs.net_asset_value_per_share;
        e.sales_per_share = fs.sales_per_share;
        e.earnings_per_share = fs.earnings_per_share;
        e.profit_before_tax = fs.profit_before_tax;
        e.return_on_equity = fs.return_on_equity;
        e.return_on_assets = fs.return_on_assets;
        e.year = year;
        e
    }

    /// Takes in a profit record at the moment `now`.
    pub fn from_profit(fs: Profit, now: Millis) -> (statement: FinancialStatement)
        ensures
            statement@ == StatementView::of_record(fs@, now),
    {
        let year = fs.year as i64;
        let mut e = FinancialStatement::new(fs.security_code);
        e.updated_time = now;
        e.created_time = now;
        e.quarter = fs.quarter;
        e.gross_profit = fs.gross_profit;
        e.operating_profit_margin = fs.operating_profit_margin;
        e.pre_tax_income = fs.pre_tax_income;
        e.net_income = fs.net_income;
        e.net_asset_value_per_share = fs.net_asset_value_per_share;
        e.sales_per_share = fs.sales_per_share;
        e.earnings_per_share = fs.earnings_per_share;
        e.profit_before_tax = fs.profit_before_tax;
        e.return_on_equity = fs.return_on_equity;
        e.return_on_assets = fs.return_on_assets;
        e.year = year;
        e
    }

    /// Takes in the earnings per share of one quarter at the moment `now`.
    /// Every other figure is zero.
    pub fn from_eps(fs: Eps, now: Millis) -> (statement: FinancialStatement)
        ensures
            statement@ == (StatementView {
                updated_time: now,
                created_time: now,
                quarter: crate::calendar::quarter_label(fs.quarter),
                earnings_per_share: fs.earnings_per_share,
                year: fs.year as i64,
                ..StatementView::blank(fs.stock_symbol@)
            }),
    {
        let year = fs.year as i64;
        let quarter = fs.quarter.label();
        let mut e = FinancialStatement::new(fs.stock_symbol);
        e.updated_time = now;
        e.created_time = now;
        e.quarter = quarter;
        e.earnings_per_share = fs.earnings_per_share;
        e.year = year;
        e
    }
}

/// The statement that writes a financial statement in full.  Its fifteen
/// arguments are, in order: security code, year, quarter, the ten figures
/// in the order of the columns, the time of creation and the time of the
/// update.  A row with the same natural key is overwritten in every figure
/// and in the time of the update.
pub const UPSERT: &'static str = r#"
INSERT INTO financial_statement (
    security_code, "year", quarter, gross_profit, operating_profit_margin,
    "pre-tax_income", net_income, net_asset_value_per_share, sales_per_share,
    earnings_per_share, profit_before_tax, return_on_equity, return_on_assets,
    created_time, updated_time)
VALUES ($1, $2, $3, $4, $5, $6, $7, $8, $9, $10, $11, $12, $13, $14, $15)
ON CONFLICT (security_code,"year",quarter) DO UPDATE SET
    gross_profit = EXCLUDED.gross_profit,
    operating_profit_margin = EXCLUDED.operating_profit_margin,
    "pre-tax_income" = EXCLUDED."pre-tax_income",
    net_income = EXCLUDED.net_income,
    net_asset_value_per_share = EXCLUDED.net_asset_value_per_share,
    sales_per_share = EXCLUDED.sales_per_share,
    earnings_per_share = EXCLUDED.earnings_per_share,
    profit_before_tax = EXCLUDED.profit_before_tax,
    return_on_equity = EXCLUDED.return_on_equity,
    return_on_assets = EXCLUDED.return_on_assets,
    updated_time = EXCLUDED.updated_time;
"#;

/// The statement that writes the earnings per share alone.  Its six
/// arguments are, in order: security code, year, quarter, earnings per
/// share, the time of creation and the time of the update.  A row with the
/// same natural key is left as it is.
pub const UPSERT_EARNINGS_PER_SHARE: &'static str = r#"
INSERT INTO financial_statement (
    security_code, "year", quarter, earnings_per_share, created_time, updated_time)
VALUES ($1, $2, $3, $4, $5, $6)
ON CONFLICT (security_code,"year",quarter) DO NOTHING;
"#;

/// The statement that reads the annual statements of a year, which is its
/// one argument.
pub const FETCH_ANNUAL: &'static str = r#"
SELECT
    serial,
    security_code,
    year,
    quarter,
    gross_profit,
    operating_profit_margin,
    "pre-tax_income",
    net_income,
    net_asset_value_per_share,
    sales_per_share,
    earnings_per_share,
    profit_before_tax,
    return_on_equity,
    return_on_assets,
    created_time,
    updated_time
FROM financial_statement
WHERE "year" = $1 AND quarter= ''
"#;

/// The in-memory table of statements: at most one row per natural key.
pub struct StatementTable {
    rows: Vec<FinancialStatement>,
}

/// What a table holds after a full write of `incoming`: the row under its
/// key is created, or overwritten in every figure.
pub open spec fn upserted(
    rows: Map<StatementKey, StatementView>,
    incoming: StatementView,
) -> Map<StatementKey, StatementView> {
    if rows.contains_key(incoming.key()) {
        rows.insert(incoming.key(), rows[incoming.key()].overwritten_by(incoming))
    } else {
        rows.insert(incoming.key(), incoming)
    }
}

/// What a table holds after a write of the earnings per share alone: a row
/// is created where the key is free, and nothing changes where it is taken.
pub open spec fn inserted_earnings(
    rows: Map<StatementKey, StatementView>,
    incoming: StatementView,
) -> Map<StatementKey, StatementView> {
    if rows.contains_key(incoming.key()) {
        rows
    } else {
        rows.insert(incoming.key(), incoming.earnings_only())
    }
}

/// Whether a key belongs to the annual statements of a year.
pub open spec fn is_annual(key: StatementKey, year: i32) -> bool {
    key.year == year && key.quarter.len() == 0
}

impl FinancialStatement {
    /// Reads the natural key of a row.
    pub open spec fn key_of() -> spec_fn(FinancialStatement) -> StatementKey {
        |row: FinancialStatement| row@.key()
    }

    /// Reads the plain values of a row.
    pub open spec fn view_of() -> spec_fn(FinancialStatement) -> StatementView {
        |row: FinancialStatement| row@
    }
}

impl View for StatementTable {
    type V = Map<StatementKey, StatementView>;

    closed spec fn view(&self) -> Map<StatementKey, StatementView> {
        as_map(self.rows@, FinancialStatement::key_of(), FinancialStatement::view_of())
    }
}

impl StatementTable {
    #[verifier::type_invariant]
    spec fn one_row_per_key(&self) -> bool {
        distinct_keys(self.rows@, FinancialStatement::key_of())
    }

    /// An empty table.
    pub fn new() -> (table: StatementTable)
        ensures
            table@ == Map::<StatementKey, StatementView>::empty(),
    {
        proof {
            lemma_empty_table(FinancialStatement::key_of(), FinancialStatement::view_of());
        }
        StatementTable { rows: Vec::new() }
    }

    /// The place of the row with the key of `record`.
    fn find(&self, record: &FinancialStatement) -> (place: Option<usize>)
        ensures
            match place {
                Some(i) => i < self.rows@.len() && self.rows@[i as int]@.key() == record@.key()
                    && self@.contains_key(record@.key()) && self@[record@.key()]
                    == self.rows@[i as int]@,
                None => !self@.contains_key(record@.key()),
            },
    {
        let mut i: usize = 0;
        while i < self.rows.len()
            invariant
                i <= self.rows@.len(),
                forall|j: int| 0 <= j < i ==> self.rows@[j]@.key() != record@.key(),
            decreases self.rows@.len() - i,
        {
            if self.rows[i].same_key(record) {
                proof {
                    use_type_invariant(self);
                    lemma_row_in_map(
                        self.rows@,
                        FinancialStatement::key_of(),
                        FinancialStatement::view_of(),
                        i as int,
                    );
                }
                return Some(i);
            }
            i = i + 1;
        }
        proof {
            lemma_absent_key(
                self.rows@,
                FinancialStatement::key_of(),
                FinancialStatement::view_of(),
                record@.key(),
            );
        }
        None
    }

    /// How many rows the table holds.
    pub fn len(&self) -> (n: usize)
        ensures
            n == self@.dom().len(),
            self@.dom().finite(),
    {
        proof {
            use_type_invariant(self);
            lemma_table_size(
                self.rows@,
                FinancialStatement::key_of(),
                FinancialStatement::view_of(),
            );
        }
        self.rows.len()
    }

    /// The row stored under the key of `probe`, if there is one.
    pub fn get(&self, probe: &FinancialStatement) -> (row: Option<FinancialStatement>)
        ensures
            row is Some <==> self@.contains_key(probe@.key()),
            row matches Some(r) ==> r@ == self@[probe@.key()],
    {
        match self.find(probe) {
            Some(i) => Some(self.rows[i].duplicate()),
            None => None,
        }
    }

    /// Whether a row is stored for the security, year and quarter.
    pub fn contains(&self, security_code: &str, year: i64, quarter: &str) -> (found: bool)
        ensures
            found == self@.contains_key(
                StatementKey { security_code: security_code@, year, quarter: quarter@ },
            ),
    {
        let mut probe = FinancialStatement::new(String::from_str(security_code));
        probe.year = year;
        probe.quarter = String::from_str(quarter);
        self.find(&probe).is_some()
    }
}

impl FinancialStatement {
    /// Writes the statement to the table in full.  Where a row with the
    /// same natural key exists, every figure and the time of the update are
    /// overwritten; otherwise the row is created.  A statement with a
    /// figure that fits no decimal column is refused and nothing changes.
    /// Returns the number of rows written.
    pub fn upsert(self, table: &mut StatementTable) -> (written: Result<u64, WriteError>)
        ensures
            written is Ok <==> self@.storable(),
            written is Ok ==> written == Ok::<u64, WriteError>(1) && final(table)@ == upserted(
                old(table)@,
                self@,
            ),
            written is Err ==> written == Err::<u64, WriteError>(WriteError::FigureOutOfRange)
                && final(table)@ == old(table)@,
    {
        if !self.is_storable() {
            return Err(WriteError::FigureOutOfRange);
        }
        let place = table.find(&self);
        proof {
            use_type_invariant(&*table);
        }
        let mut rows: Vec<FinancialStatement> = Vec::new();
        core::mem::swap(&mut table.rows, &mut rows);
        match place {
            Some(i) => {
                let mut row = self;
                row.created_time = rows[i].created_time;
                row.serial = rows[i].serial;
                proof {
                    lemma_replace_row(
                        rows@,
                        FinancialStatement::key_of(),
                        FinancialStatement::view_of(),
                        i as int,
                        row,
                    );
                }
                rows.set(i, row);
            },
            None => {
                proof {
                    lemma_push_fresh(
                        rows@,
                        FinancialStatement::key_of(),
                        FinancialStatement::view_of(),
                        self,
                    );
                }
                rows.push(self);
            },
        }
        core::mem::swap(&mut table.rows, &mut rows);
        Ok(1)
    }

    /// Writes the earnings per share alone, and only where no row with the
    /// same natural key exists: a fresher row is never overwritten.  Returns
    /// the number of rows written, 0 where the key was taken.
    pub fn upsert_earnings_per_share(&self, table: &mut StatementTable) -> (written: Result<
        u64,
        WriteError,
    >)
        ensures
            written is Ok <==> self.earnings_per_share.valid(),
            written is Ok ==> final(table)@ == inserted_earnings(old(table)@, self@) && written
                == Ok::<u64, WriteError>(
                if old(table)@.contains_key(self@.key()) {
                    0u64
                } else {
                    1u64
                },
            ),
            written is Err ==> written == Err::<u64, WriteError>(WriteError::FigureOutOfRange)
                && final(table)@ == old(table)@,
    {
        if !self.earnings_per_share.is_valid() {
            return Err(WriteError::FigureOutOfRange);
        }
        match table.find(self) {
            Some(_) => Ok(0),
            None => {
                let mut row = FinancialStatement::new(self.security_code.clone());
                row.updated_time = self.updated_time;
                row.created_time = self.created_time;
                row.quarter = self.quarter.clone();
                row.year = self.year;
                row.earnings_per_share = self.earnings_per_share;
                proof {
                    use_type_invariant(&*table);
                }
                let mut rows: Vec<FinancialStatement> = Vec::new();
                core::mem::swap(&mut table.rows, &mut rows);
                proof {
                    assert(row@ == self@.earnings_only());
                    assert(row@.key() == self@.key());
                    lemma_push_fresh(
                        rows@,
                        FinancialStatement::key_of(),
                        FinancialStatement::view_of(),
                        row,
                    );
                }
                rows.push(row);
                core::mem::swap(&mut table.rows, &mut rows);
                Ok(1)
            },
        }
    }
}

/// The annual statements of a year: every row of the table whose year is
/// `year` and whose quarter is empty, each once.
pub fn fetch_annual(table: &StatementTable, year: i32) -> (found: Vec<FinancialStatement>)
    ensures
        forall|i: int|
            0 <= i < found@.len() ==> is_annual((#[trigger] found@[i])@.key(), year)
                && table@.contains_key(found@[i]@.key()) && table@[found@[i]@.key()]
                == found@[i]@,
        forall|key: StatementKey|
            table@.contains_key(key) && is_annual(key, year) ==> exists|i: int|
                0 <= i < found@.len() && (#[trigger] found@[i])@.key() == key,
        forall|i: int, j: int|
            0 <= i < found@.len() && 0 <= j < found@.len() && i != j ==> (#[trigger] found@[i])@.key()
                != (#[trigger] found@[j])@.key(),
{
    let mut found: Vec<FinancialStatement> = Vec::new();
    let ghost mut places: Seq<int> = Seq::empty();
    let mut i: usize = 0;
    proof {
        use_type_invariant(table);
    }
    while i < table.rows.len()
        invariant
            i <= table.rows@.len(),
            distinct_keys(table.rows@, FinancialStatement::key_of()),
            places.len() == found@.len(),
            forall|k: int|
                0 <= k < places.len() ==> 0 <= #[trigger] places[k] < i && found@[k]@
                    == table.rows@[places[k]]@ && is_annual(found@[k]@.key(), year),
            forall|k: int, l: int| 0 <= k < l < places.len() ==> places[k] < places[l],
            forall|j: int|
                0 <= j < i && is_annual((#[trigger] table.rows@[j])@.key(), year) ==> exists|k: int|
                    0 <= k < places.len() && #[trigger] places[k] == j,
        decreases table.rows@.len() - i,
    {
        let row = &table.rows[i];
        if row.year == year as i64 && row.quarter.as_str().is_empty() {
            let copy = row.duplicate();
            found.push(copy);
            proof {
                let before = places;
                places = places.push(i as int);
                assert forall|j: int|
                    0 <= j < i + 1 && is_annual(
                        (#[trigger] table.rows@[j])@.key(),
                        year,
                    ) implies exists|k: int| 0 <= k < places.len() && #[trigger] places[k] == j by {
                    if j < i {
                        let k = choose|k: int| 0 <= k < before.len() && #[trigger] before[k] == j;
                        assert(places[k] == j);
                    } else {
                        assert(places[before.len() as int] == j);
                    }
                }
            }
        }
        i = i + 1;
    }
    proof {
        let key_of = FinancialStatement::key_of();
        let view_of = FinancialStatement::view_of();
        assert forall|k: int| 0 <= k < found@.len() implies is_annual(
            (#[trigger] found@[k])@.key(),
            year,
        ) && table@.contains_key(found@[k]@.key()) && table@[found@[k]@.key()] == found@[k]@ by {
            lemma_row_in_map(table.rows@, key_of, view_of, places[k]);
        }
        assert forall|key: StatementKey|
            table@.contains_key(key) && is_annual(key, year) implies exists|k: int|
            0 <= k < found@.len() && (#[trigger] found@[k])@.key() == key by {
            let p = place_of(table.rows@, key_of, key);
            assert(0 <= p < table.rows@.len() && key_of(table.rows@[p]) == key);
            assert(is_annual(table.rows@[p]@.key(), year));
            let k = choose|k: int| 0 <= k < places.len() && #[trigger] places[k] == p;
            assert(found@[k]@.key() == key);
        }
        assert forall|a: int, b: int|
            0 <= a < found@.len() && 0 <= b < found@.len() && a != b implies (
        #[trigger] found@[a])@.key() != (#[trigger] found@[b])@.key() by {
            if a < b {
                assert(places[a] < places[b]);
            } else {
                assert(places[b] < places[a]);
            }
            assert(key_of(table.rows@[places[a]]) != key_of(table.rows@[places[b]]));
        }
    }
    found
}

/// An index of statements by security code, kept in a `hashbrown::HashMap`.
#[verifier::external_body]
pub struct StatementIndex {
    map: hashbrown::HashMap<String, FinancialStatement>,
}

/// What an index of statements holds: for each security code, the statement
/// filed under it.
pub uninterp spec fn index_contents(index: StatementIndex) -> Map<Seq<char>, StatementView>;

impl View for StatementIndex {
    type V = Map<Seq<char>, StatementView>;

    open spec fn view(&self) -> Map<Seq<char>, StatementView> {
        index_contents(*self)
    }
}

/// The index that filing the statements one after the other under their
/// security codes gives: of two statements with one code, the later stays.
pub open spec fn indexed_by_code(statements: Seq<FinancialStatement>) -> Map<
    Seq<char>,
    StatementView,
>
    decreases statements.len(),
{
    if statements.len() == 0 {
        Map::empty()
    } else {
        indexed_by_code(statements.drop_last()).insert(
            statements.last().security_code@,
            statements.last()@,
        )
    }
}

/// An index that holds nothing.
pub open spec fn empty_index() -> Map<Seq<char>, StatementView> {
    Map::empty()
}

/// `hashbrown::HashMap::new`: a map that holds nothing.
#[verifier::external_body]
fn index_new() -> (fresh: StatementIndex)
    ensures
        index_contents(fresh) == empty_index(),
{
    StatementIndex { map: hashbrown::HashMap::new() }
}

/// `hashbrown::HashMap::insert`: the value is filed under the key, in place
/// of what was there.  What was there comes back.
#[verifier::external_body]
fn index_insert(index: &mut StatementIndex, key: String, value: FinancialStatement) -> (displaced:
    Option<FinancialStatement>)
    ensures
        index_contents(*final(index)) == index_contents(*old(index)).insert(key@, value@),
        displaced is Some <==> index_contents(*old(index)).contains_key(key@),
        displaced matches Some(d) ==> d@ == index_contents(*old(index))[key@],
{
    index.map.insert(key, value)
}

/// `hashbrown::HashMap::get`: a copy of the value filed under the key, if
/// there is one.
#[verifier::external_body]
fn index_get(index: &StatementIndex, key: &str) -> (filed: Option<FinancialStatement>)
    ensures
        filed is Some <==> index_contents(*index).contains_key(key@),
        filed matches Some(f) ==> f@ == index_contents(*index)[key@],
{
    index.map.get(key).map(|statement| statement.duplicate())
}

/// `hashbrown::HashMap::len`: the number of keys.
#[verifier::external_body]
fn index_len(index: &StatementIndex) -> (n: usize)
    ensures
        n == index_contents(*index).dom().len(),
{
    index.map.len()
}

impl StatementIndex {
    /// A copy of the statement filed under the security code.
    pub fn get(&self, security_code: &str) -> (filed: Option<FinancialStatement>)
        ensures
            filed is Some <==> self@.contains_key(security_code@),
            filed matches Some(f) ==> f@ == self@[security_code@],
    {
        index_get(self, security_code)
    }

    /// The number of security codes in the index.
    pub fn len(&self) -> (n: usize)
        ensures
            n == self@.dom().len(),
    {
        index_len(self)
    }
}

/// Files each statement under its security code.  Of two statements with
/// one code, the later stays.
pub fn vec_to_hashmap(entities: Vec<FinancialStatement>) -> (map: StatementIndex)
    ensures
        map@ == indexed_by_code(entities@),
{
    let mut map = index_new();
    let mut i: usize = 0;
    while i < entities.len()
        invariant
            i <= entities@.len(),
            map@ == indexed_by_code(entities@.take(i as int)),
        decreases entities@.len() - i,
    {
        let e = entities[i].duplicate();
        proof {
            let upto = entities@.take(i as int + 1);
            assert(upto.drop_last() =~= entities@.take(i as int));
            assert(upto.last() == entities@[i as int]);
        }
        let _ = index_insert(&mut map, e.security_code.clone(), e);
        i = i + 1;
    }
    proof {
        assert(entities@.take(entities@.len() as int) =~= entities@);
    }
    map
}

} // verus!
