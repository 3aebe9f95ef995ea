//! An in-memory store with the two tables a backfill works on: the listed
//! securities and their financial statements.

use vstd::prelude::*;
use crate::amount::Amount;
use crate::calendar::{quarter_label, ReportingWindow};
use crate::financial_statement::{FinancialStatement, StatementKey, StatementTable, StatementView, WriteError, upserted};
use crate::stock::{stock_views, Stock, StockView};

verus! {

/// The store.
pub struct Database {
    pub stocks: Vec<Stock>,
    pub statements: StatementTable,
    /// Whether figures derived from the statements are out of date.
    pub derived_stale: bool,
}

/// The store as plain values.
pub struct DatabaseView {
    pub stocks: Seq<StockView>,
    pub statements: Map<StatementKey, StatementView>,
    pub derived_stale: bool,
}

impl View for Database {
    type V = DatabaseView;

    open spec fn view(&self) -> DatabaseView {
        DatabaseView {
            stocks: stock_views(self.stocks@),
            statements: self.statements@,
            derived_stale: self.derived_stale,
        }
    }
}

/// The key under which the statement of a security for a window is stored.
pub open spec fn window_key(stock_symbol: Seq<char>, window: ReportingWindow) -> StatementKey {
    StatementKey {
        security_code: stock_symbol,
        year: window.year as i64,
        quarter: quarter_label(window.quarter),
    }
}

/// The securities, in order, that have no statement for the window.
pub open spec fn missing_from(
    stocks: Seq<StockView>,
    statements: Map<StatementKey, StatementView>,
    window: ReportingWindow,
) -> Seq<StockView>
    decreases stocks.len(),
{
    if stocks.len() == 0 {
        Seq::empty()
    } else {
        let earlier = missing_from(stocks.drop_last(), statements, window);
        if statements.contains_key(window_key(stocks.last().stock_symbol, window)) {
            earlier
        } else {
            earlier.push(stocks.last())
        }
    }
}

/// The securities after the net asset value of every one with the symbol
/// was set.
pub open spec fn with_net_asset_value(
    stocks: Seq<StockView>,
    stock_symbol: Seq<char>,
    value: Amount,
) -> Seq<StockView> {
    Seq::new(
        stocks.len(),
        |i: int|
            if stocks[i].stock_symbol == stock_symbol {
                StockView { net_asset_value_per_share: value, ..stocks[i] }
            } else {
                stocks[i]
            },
    )
}

/// How many of the securities have the symbol.
pub open spec fn count_symbol(stocks: Seq<StockView>, stock_symbol: Seq<char>) -> nat
    decreases stocks.len(),
{
    if stocks.len() == 0 {
        0
    } else {
        count_symbol(stocks.drop_last(), stock_symbol) + if stocks.last().stock_symbol
            == stock_symbol {
            1nat
        } else {
            0nat
        }
    }
}

impl DatabaseView {
    /// The store after a statement was written in full.
    pub open spec fn after_upsert(self, statement: StatementView) -> DatabaseView {
        DatabaseView {
            statements: upserted(self.statements, statement),
            derived_stale: true,
            ..self
        }
    }

    /// The store after the net asset value of a security was set.
    pub open spec fn after_net_asset_value(
        self,
        stock_symbol: Seq<char>,
        value: Amount,
    ) -> DatabaseView {
        DatabaseView { stocks: with_net_asset_value(self.stocks, stock_symbol, value), ..self }
    }

    /// The store after the derived figures were brought up to date.
    pub open spec fn after_refresh(self) -> DatabaseView {
        DatabaseView { derived_stale: false, ..self }
    }
}

impl Database {
    /// An empty store.
    pub fn new() -> (database: Database)
        ensures
            database@ == (DatabaseView {
                stocks: Seq::empty(),
                statements: Map::empty(),
                derived_stale: false,
            }),
    {
        let database = Database {
            stocks: Vec::new(),
            statements: StatementTable::new(),
            derived_stale: false,
        };
        assert(database@.stocks =~= Seq::empty());
        database
    }

    /// Lists a security.
    pub fn add_stock(&mut self, stock: Stock)
        ensures
            final(self)@ == (DatabaseView { stocks: old(self)@.stocks.push(stock@), ..old(self)@ }),
    {
        self.stocks.push(stock);
        assert(self@.stocks =~= old(self)@.stocks.push(stock@));
    }

    /// The securities that have no statement for the window, in the order
    /// in which they are listed.
    pub fn find_missing(&self, window: ReportingWindow) -> (missing: Vec<Stock>)
        ensures
            stock_views(missing@) == missing_from(self@.stocks, self@.statements, window),
    {
        let label = window.quarter.label();
        let mut missing: Vec<Stock> = Vec::new();
        let mut i: usize = 0;
        assert(stock_views(missing@) =~= Seq::empty());
        assert(self@.stocks.take(0) =~= Seq::empty());
        while i < self.stocks.len()
            invariant
                i <= self.stocks@.len(),
                label@ == quarter_label(window.quarter),
                stock_views(missing@) == missing_from(
                    self@.stocks.take(i as int),
                    self@.statements,
                    window,
                ),
            decreases self.stocks@.len() - i,
        {
            let stock = &self.stocks[i];
            proof {
                let upto = self@.stocks.take(i as int + 1);
                assert(upto.drop_last() =~= self@.stocks.take(i as int));
                assert(upto.last() == stock@);
            }
            let filed = self.statements.contains(
                stock.stock_symbol.as_str(),
                window.year as i64,
                label.as_str(),
            );
            if !filed {
                let ghost before = missing@;
                missing.push(stock.duplicate());
                assert(stock_views(missing@) =~= stock_views(before).push(stock@));
            }
            i = i + 1;
        }
        assert(self@.stocks.take(self.stocks@.len() as int) =~= self@.stocks);
        missing
    }

    /// Writes a statement in full and marks the derived figures stale.  A
    /// refused statement changes nothing.
    pub fn upsert_statement(&mut self, statement: FinancialStatement) -> (written: Result<
        u64,
        WriteError,
    >)
        ensures
            written is Ok <==> statement@.storable(),
            written is Ok ==> written == Ok::<u64, WriteError>(1) && final(self)@ == old(
                self,
            )@.after_upsert(statement@),
            written is Err ==> written == Err::<u64, WriteError>(WriteError::FigureOutOfRange)
                && final(self)@ == old(self)@,
    {
        let written = statement.upsert(&mut self.statements);
        if written.is_ok() {
            self.derived_stale = true;
        }
        written
    }

    /// Sets the net asset value per share of every listed security with the
    /// symbol.  A value that fits no decimal column is refused and nothing
    /// changes.  Returns the number of rows written.
    pub fn update_net_asset_value(&mut self, stock_symbol: &str, value: Amount) -> (written: Result<
        u64,
        WriteError,
    >)
        ensures
            written is Ok <==> value.valid(),
            written is Ok ==> final(self)@ == old(self)@.after_net_asset_value(
                stock_symbol@,
                value,
            ) && written->Ok_0 == count_symbol(old(self)@.stocks, stock_symbol@),
            written is Err ==> written == Err::<u64, WriteError>(WriteError::FigureOutOfRange)
                && final(self)@ == old(self)@,
    {
        if !value.is_valid() {
            return Err(WriteError::FigureOutOfRange);
        }
        let symbol = String::from_str(stock_symbol);
        let mut rows: u64 = 0;
        let mut i: usize = 0;
        let ghost before = self@;
        assert(before.stocks.take(0) =~= Seq::empty());
        while i < self.stocks.len()
            invariant
                i <= self.stocks@.len(),
                self.stocks@.len() == before.stocks.len(),
                self@.statements == before.statements,
                self@.derived_stale == before.derived_stale,
                symbol@ == stock_symbol@,
                rows <= i,
                rows == count_symbol(before.stocks.take(i as int), stock_symbol@),
                forall|j: int|
                    0 <= j < i ==> (#[trigger] self.stocks@[j])@ == with_net_asset_value(
                        before.stocks,
                        stock_symbol@,
                        value,
                    )[j],
                forall|j: int|
                    i <= j < self.stocks@.len() ==> (#[trigger] self.stocks@[j])@
                        == before.stocks[j],
            decreases self.stocks@.len() - i,
        {
            proof {
                let upto = before.stocks.take(i as int + 1);
                assert(upto.drop_last() =~= before.stocks.take(i as int));
                assert(upto.last() == before.stocks[i as int]);
                assert(self.stocks@[i as int]@ == before.stocks[i as int]);
            }
            if self.stocks[i].stock_symbol == symbol {
                let mut stock = self.stocks[i].duplicate();
                stock.net_asset_value_per_share = value;
                self.stocks.set(i, stock);
                rows = rows + 1;
            }
            i = i + 1;
        }
        assert(self@.stocks =~= with_net_asset_value(before.stocks, stock_symbol@, value));
        assert(before.stocks.take(before.stocks.len() as int) =~= before.stocks);
        Ok(rows)
    }

    /// Brings the figures derived from the statements up to date.
    pub fn refresh_derived(&mut self)
        ensures
            final(self)@ == old(self)@.after_refresh(),
    {
        self.derived_stale = false;
    }
}

} // verus!
