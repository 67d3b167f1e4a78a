//! Time series of trading data.
//!
//! Numbers with a fractional part are held as the bit patterns of
//! double-precision numbers.

use vstd::prelude::*;
use crate::engine::text::{decimal, decimal_text};

verus! {

/// One value of a row of a result.
#[derive(Debug, Clone)]
pub enum Cell {
    /// A number: as an integer if it is one that fits in 64 bits, and as the
    /// bit pattern of a double if it can be read as one.
    Number { integer: Option<i64>, double: Option<u64> },
    Text(String),
    /// Anything else.
    Other,
}

/// One element of a result: a row of cells, or something that is no row.
#[derive(Debug, Clone)]
pub enum Row {
    Cells(Vec<Cell>),
    Other,
}

/// The integer in cell `i` of a row, if there is one.
pub open spec fn integer_at(cells: Seq<Cell>, i: int) -> Option<i64> {
    if 0 <= i < cells.len() {
        match cells[i] {
            Cell::Number { integer, double } => integer,
            _ => None,
        }
    } else {
        None
    }
}

/// The number in cell `i` of a row, if there is one.
pub open spec fn double_at(cells: Seq<Cell>, i: int) -> Option<u64> {
    if 0 <= i < cells.len() {
        match cells[i] {
            Cell::Number { integer, double } => double,
            _ => None,
        }
    } else {
        None
    }
}

/// The text in cell `i` of a row, if there is one.
pub open spec fn text_at(cells: Seq<Cell>, i: int) -> Option<Seq<char>> {
    if 0 <= i < cells.len() {
        match cells[i] {
            Cell::Text(text) => Some(text@),
            _ => None,
        }
    } else {
        None
    }
}

/// The integer in cell `i`.
fn integer_in(cells: &Vec<Cell>, i: usize) -> (value: Option<i64>)
    ensures
        value == integer_at(cells@, i as int),
{
    if i < cells.len() {
        match &cells[i] {
            Cell::Number { integer, double } => *integer,
            _ => None,
        }
    } else {
        None
    }
}

/// The number in cell `i`.
fn double_in(cells: &Vec<Cell>, i: usize) -> (value: Option<u64>)
    ensures
        value == double_at(cells@, i as int),
{
    if i < cells.len() {
        match &cells[i] {
            Cell::Number { integer, double } => *double,
            _ => None,
        }
    } else {
        None
    }
}

/// The text in cell `i`.
fn text_in(cells: &Vec<Cell>, i: usize) -> (value: Option<String>)
    ensures
        match value {
            Some(text) => text_at(cells@, i as int) == Some(text@),
            None => text_at(cells@, i as int) is None,
        },
{
    if i < cells.len() {
        match &cells[i] {
            Cell::Text(text) => Some(text.clone()),
            _ => None,
        }
    } else {
        None
    }
}

/// Gamma exposure at one strike and time.
#[derive(Debug, Clone)]
pub struct GexData {
    pub timestamp: i64,
    pub symbol: String,
    pub strike: u64,
    pub gex: u64,
    pub call_gex: u64,
    pub put_gex: u64,
    pub net_gex: u64,
}

/// Vanna at one strike and time.
#[derive(Debug, Clone)]
pub struct VannaData {
    pub timestamp: i64,
    pub symbol: String,
    pub strike: u64,
    pub vanna: u64,
    pub delta: u64,
    pub iv: u64,
}

impl GexData {
    /// Whether a row holds gamma exposure: a timestamp, a symbol and five
    /// numbers, in this order.
    pub open spec fn fits(row: Row) -> bool {
        match row {
            Row::Cells(cells) => {
                &&& integer_at(cells@, 0) is Some
                &&& text_at(cells@, 1) is Some
                &&& double_at(cells@, 2) is Some
                &&& double_at(cells@, 3) is Some
                &&& double_at(cells@, 4) is Some
                &&& double_at(cells@, 5) is Some
                &&& double_at(cells@, 6) is Some
            },
            Row::Other => false,
        }
    }

    /// Whether this is what `row` holds.
    pub open spec fn holds(self, row: Row) -> bool {
        match row {
            Row::Cells(cells) => {
                &&& Some(self.timestamp) == integer_at(cells@, 0)
                &&& Some(self.symbol@) == text_at(cells@, 1)
                &&& Some(self.strike) == double_at(cells@, 2)
                &&& Some(self.gex) == double_at(cells@, 3)
                &&& Some(self.call_gex) == double_at(cells@, 4)
                &&& Some(self.put_gex) == double_at(cells@, 5)
                &&& Some(self.net_gex) == double_at(cells@, 6)
            },
            Row::Other => false,
        }
    }

    /// Reads gamma exposure off a row.
    pub fn from_row(row: &Row) -> (data: Option<GexData>)
        ensures
            GexData::fits(*row) <==> data is Some,
            data matches Some(d) ==> d.holds(*row),
    {
        match row {
            Row::Cells(cells) => {
                let timestamp = integer_in(cells, 0)?;
                let symbol = text_in(cells, 1)?;
                let strike = double_in(cells, 2)?;
                let gex = double_in(cells, 3)?;
                let call_gex = double_in(cells, 4)?;
                let put_gex = double_in(cells, 5)?;
                let net_gex = double_in(cells, 6)?;
                Some(GexData { timestamp, symbol, strike, gex, call_gex, put_gex, net_gex })
            },
            Row::Other => None,
        }
    }
}

impl VannaData {
    /// Whether a row holds vanna: a timestamp, a symbol and four numbers, in
    /// this order.
    pub open spec fn fits(row: Row) -> bool {
        match row {
            Row::Cells(cells) => {
                &&& integer_at(cells@, 0) is Some
                &&& text_at(cells@, 1) is Some
                &&& double_at(cells@, 2) is Some
                &&& double_at(cells@, 3) is Some
                &&& double_at(cells@, 4) is Some
                &&& double_at(cells@, 5) is Some
            },
            Row::Other => false,
        }
    }

    /// Whether this is what `row` holds.
    pub open spec fn holds(self, row: Row) -> bool {
        match row {
            Row::Cells(cells) => {
                &&& Some(self.timestamp) == integer_at(cells@, 0)
                &&& Some(self.symbol@) == text_at(cells@, 1)
                &&& Some(self.strike) == double_at(cells@, 2)
                &&& Some(self.vanna) == double_at(cells@, 3)
                &&& Some(self.delta) == double_at(cells@, 4)
                &&& Some(self.iv) == double_at(cells@, 5)
            },
            Row::Other => false,
        }
    }

    /// Reads vanna off a row.
    pub fn from_row(row: &Row) -> (data: Option<VannaData>)
        ensures
            VannaData::fits(*row) <==> data is Some,
            data matches Some(d) ==> d.holds(*row),
    {
        match row {
            Row::Cells(cells) => {
                let timestamp = integer_in(cells, 0)?;
                let symbol = text_in(cells, 1)?;
                let strike = double_in(cells, 2)?;
                let vanna = double_in(cells, 3)?;
                let delta = double_in(cells, 4)?;
                let iv = double_in(cells, 5)?;
                Some(VannaData { timestamp, symbol, strike, vanna, delta, iv })
            },
            Row::Other => None,
        }
    }
}

/// The decimal numeral of a signed number.
pub open spec fn signed_decimal(n: int) -> Seq<char> {
    if n < 0 {
        seq!['-'] + decimal((-n) as nat)
    } else {
        decimal(n as nat)
    }
}

/// Writes a signed number in decimal.
pub fn signed_text(n: i64) -> (text: String)
    ensures
        text@ == signed_decimal(n as int),
{
    if n < 0 {
        let mut text = "-".to_owned();
        proof {
            reveal_strlit("-");
        }
        let magnitude: u128 = (-(n as i128)) as u128;
        text.append(decimal_text(magnitude).as_str());
        text
    } else {
        decimal_text(n as u128)
    }
}

/// The query for the gamma exposure of `symbol` over the last `days` days,
/// newest first.
pub open spec fn gex_query(symbol: Seq<char>, days: i32) -> Seq<char> {
    "SELECT timestamp, symbol, strike, gex, call_gex, put_gex, net_gex FROM gex_data WHERE symbol = '"@
        + symbol + "' AND timestamp > dateadd('d', -"@ + signed_decimal(days as int)
        + ", now()) ORDER BY timestamp DESC"@
}

/// The query for the vanna of `symbol` over the last `days` days, newest
/// first.
pub open spec fn vanna_query(symbol: Seq<char>, days: i32) -> Seq<char> {
    "SELECT timestamp, symbol, strike, vanna, delta, iv FROM vanna_data WHERE symbol = '"@ + symbol
        + "' AND timestamp > dateadd('d', -"@ + signed_decimal(days as int)
        + ", now()) ORDER BY timestamp DESC"@
}

/// The query for the latest price of `symbol`.
pub open spec fn price_query(symbol: Seq<char>) -> Seq<char> {
    "SELECT close FROM trades WHERE symbol = '"@ + symbol
        + "' ORDER BY timestamp DESC LIMIT 1"@
}

/// The rows of `rows` that hold gamma exposure, read, in order.
pub open spec fn gex_rows(rows: Seq<Row>) -> Seq<Row> {
    rows.filter(|row: Row| GexData::fits(row))
}

/// The rows of `rows` that hold vanna, in order.
pub open spec fn vanna_rows(rows: Seq<Row>) -> Seq<Row> {
    rows.filter(|row: Row| VannaData::fits(row))
}

/// A client of the time series database.
#[derive(Debug, Clone)]
pub struct QuestDbClient {
    base_url: String,
}

impl QuestDbClient {
    /// The address of the database.
    pub closed spec fn address(self) -> Seq<char> {
        self.base_url@
    }

    /// A client of the database at `host` and `port`.
    pub fn new(host: &str, port: u16) -> (client: QuestDbClient)
        ensures
            client.address() == "http://"@ + host@ + ":"@ + decimal(port as nat),
    {
        let mut base_url = "http://".to_owned();
        base_url.append(host);
        base_url.append(":");
        base_url.append(decimal_text(port as u128).as_str());
        QuestDbClient { base_url }
    }

    /// How long to wait for the database, in seconds.
    pub fn timeout_secs() -> (secs: u64)
        ensures
            secs == 30,
    {
        30
    }

    /// The URL to which queries are sent.
    pub fn query(&self) -> (url: String)
        ensures
            url@ == self.address() + "/exec"@,
    {
        let mut url = self.base_url.clone();
        url.append("/exec");
        url
    }

    /// The rows of an answer: its data set, or nothing if it has none.
    pub fn rows(dataset: Option<Vec<Row>>) -> (rows: Vec<Row>)
        ensures
            match dataset {
                Some(found) => rows == found,
                None => rows@.len() == 0,
            },
    {
        match dataset {
            Some(found) => found,
            None => Vec::new(),
        }
    }

    /// The query for the gamma exposure of `symbol` over the last `days`
    /// days.
    pub fn gex_sql(symbol: &str, days: i32) -> (sql: String)
        ensures
            sql@ == gex_query(symbol@, days),
    {
        let mut sql =
            "SELECT timestamp, symbol, strike, gex, call_gex, put_gex, net_gex FROM gex_data WHERE symbol = '".to_owned();
        sql.append(symbol);
        sql.append("' AND timestamp > dateadd('d', -");
        sql.append(signed_text(days as i64).as_str());
        sql.append(", now()) ORDER BY timestamp DESC");
        sql
    }

    /// The query for the vanna of `symbol` over the last `days` days.
    pub fn vanna_sql(symbol: &str, days: i32) -> (sql: String)
        ensures
            sql@ == vanna_query(symbol@, days),
    {
        let mut sql =
            "SELECT timestamp, symbol, strike, vanna, delta, iv FROM vanna_data WHERE symbol = '".to_owned();
        sql.append(symbol);
        sql.append("' AND timestamp > dateadd('d', -");
        sql.append(signed_text(days as i64).as_str());
        sql.append(", now()) ORDER BY timestamp DESC");
        sql
    }

    /// The query for the latest price of `symbol`.
    pub fn price_sql(symbol: &str) -> (sql: String)
        ensures
            sql@ == price_query(symbol@),
    {
        let mut sql = "SELECT close FROM trades WHERE symbol = '".to_owned();
        sql.append(symbol);
        sql.append("' ORDER BY timestamp DESC LIMIT 1");
        sql
    }

    /// The gamma exposure that an answer holds: one datum for every row that
    /// fits, in order.
    pub fn get_gex(rows: &Vec<Row>) -> (data: Vec<GexData>)
        ensures
            data@.len() == gex_rows(rows@).len(),
            forall|k: int| 0 <= k < data@.len() ==> (#[trigger] data@[k]).holds(gex_rows(rows@)[k]),
    {
        let ghost fits = |row: Row| GexData::fits(row);
        let mut data: Vec<GexData> = Vec::new();
        let mut i: usize = 0;
        proof {
            reveal(Seq::filter);
        }
        while i < rows.len()
            invariant
                i <= rows.len(),
                fits == (|row: Row| GexData::fits(row)),
                data@.len() == rows@.take(i as int).filter(fits).len(),
                forall|k: int|
                    0 <= k < data@.len() ==> (#[trigger] data@[k]).holds(
                        rows@.take(i as int).filter(fits)[k],
                    ),
            decreases rows.len() - i,
        {
            proof {
                assert(rows@.take(i + 1) =~= rows@.take(i as int).push(rows@[i as int]));
                rows@.take(i as int).lemma_filter_push(rows@[i as int], fits);
            }
            match GexData::from_row(&rows[i]) {
                Some(datum) => { data.push(datum); },
                None => {},
            }
            i += 1;
        }
        assert(rows@.take(rows.len() as int) =~= rows@);
        data
    }

    /// The vanna that an answer holds: one datum for every row that fits, in
    /// order.
    pub fn get_vanna(rows: &Vec<Row>) -> (data: Vec<VannaData>)
        ensures
            data@.len() == vanna_rows(rows@).len(),
            forall|k: int|
                0 <= k < data@.len() ==> (#[trigger] data@[k]).holds(vanna_rows(rows@)[k]),
    {
        let ghost fits = |row: Row| VannaData::fits(row);
        let mut data: Vec<VannaData> = Vec::new();
        let mut i: usize = 0;
        proof {
            reveal(Seq::filter);
        }
        while i < rows.len()
            invariant
                i <= rows.len(),
                fits == (|row: Row| VannaData::fits(row)),
                data@.len() == rows@.take(i as int).filter(fits).len(),
                forall|k: int|
                    0 <= k < data@.len() ==> (#[trigger] data@[k]).holds(
                        rows@.take(i as int).filter(fits)[k],
                    ),
            decreases rows.len() - i,
        {
            proof {
                assert(rows@.take(i + 1) =~= rows@.take(i as int).push(rows@[i as int]));
                rows@.take(i as int).lemma_filter_push(rows@[i as int], fits);
            }
            match VannaData::from_row(&rows[i]) {
                Some(datum) => { data.push(datum); },
                None => {},
            }
            i += 1;
        }
        assert(rows@.take(rows.len() as int) =~= rows@);
        data
    }

    /// The latest price that an answer holds: the number in the first cell
    /// of the first row, if there is one.
    pub fn get_latest_price(rows: &Vec<Row>) -> (price: Option<u64>)
        ensures
            price == if rows@.len() > 0 {
                match rows@[0] {
                    Row::Cells(cells) => double_at(cells@, 0),
                    Row::Other => None,
                }
            } else {
                None
            },
    {
        if rows.len() > 0 {
            match &rows[0] {
                Row::Cells(cells) => double_in(cells, 0),
                Row::Other => None,
            }
        } else {
            None
        }
    }
}

} // verus!
