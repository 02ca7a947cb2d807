//! The table-provider protocol: typed columns, rows of values, and the
//! cursor that hands a snapshot out in bounded batches.

use vstd::prelude::*;

use crate::text::chars_of;

verus! {

/// The most rows that one call of `produce` delivers.
pub const BATCH_SIZE: usize = 2048;

/// The semantic type of a column.
#[derive(Clone, Copy, Debug, PartialEq, Eq, Structural)]
pub enum ColumnType {
    Varchar,
    Boolean,
    Integer,
    UInteger,
    BigInt,
    UBigInt,
    Float,
    Double,
}

/// One column of a schema: its name and its type.
#[derive(Debug)]
pub struct Column {
    pub name: String,
    pub ty: ColumnType,
}

impl View for Column {
    type V = (Seq<char>, ColumnType);

    open spec fn view(&self) -> (Seq<char>, ColumnType) {
        (self.name@, self.ty)
    }
}

/// The names and types of a sequence of columns.
pub open spec fn columns_view(cols: Seq<Column>) -> Seq<(Seq<char>, ColumnType)> {
    cols.map_values(|c: Column| c@)
}

/// The types of a schema, in column order.
pub open spec fn column_types(schema: Seq<(Seq<char>, ColumnType)>) -> Seq<ColumnType> {
    schema.map_values(|c: (Seq<char>, ColumnType)| c.1)
}

/// A column named `name` of type `ty`.
pub fn column(name: &str, ty: ColumnType) -> (r: Column)
    ensures
        r@ == (name@, ty),
{
    Column { name: String::from_str(name), ty }
}

/// A real number for a floating-point column.
#[derive(Clone, Copy, Debug, PartialEq, Eq, Structural)]
pub enum Real {
    /// A reading taken as is from a source, as the bit pattern of a float
    /// of the column's width.
    Reading(u64),
    /// The quotient `numer / denom`.
    Ratio(u64, u64),
    /// The percentage `100 * part / whole`.
    Percent(u64, u64),
}

/// `r` can be evaluated: no quotient divides by zero.
pub open spec fn real_defined(r: Real) -> bool {
    match r {
        Real::Reading(_) => true,
        Real::Ratio(_, d) => d > 0,
        Real::Percent(_, w) => w > 0,
    }
}

/// The share of `total` that `used` makes, in percent; zero when `total`
/// is zero.
pub open spec fn usage_share(used: u64, total: u64) -> Real {
    if total == 0 {
        Real::Percent(0, 1)
    } else {
        Real::Percent(used, total)
    }
}

/// The share of `total` that `used` makes, in percent, guarded against a
/// zero total.
pub fn usage_percent(used: u64, total: u64) -> (r: Real)
    ensures
        r == usage_share(used, total),
        real_defined(r),
{
    if total == 0 {
        Real::Percent(0, 1)
    } else {
        Real::Percent(used, total)
    }
}

/// Whatever `used` is, a zero total gives a share that is exactly zero.
pub proof fn lemma_zero_total_share(used: u64)
    ensures
        usage_share(used, 0) == Real::Percent(0, 1),
{
}

/// One value of a row.
#[derive(Debug, PartialEq)]
pub enum Value {
    Text(String),
    Bool(bool),
    Int(i32),
    UInt(u32),
    BigInt(i64),
    UBigInt(u64),
    Float(Real),
    Double(Real),
}

/// What a value is, with its text taken as characters.
pub enum Cell {
    Text(Seq<char>),
    Bool(bool),
    Int(i32),
    UInt(u32),
    BigInt(i64),
    UBigInt(u64),
    Float(Real),
    Double(Real),
}

impl View for Value {
    type V = Cell;

    open spec fn view(&self) -> Cell {
        match self {
            Value::Text(s) => Cell::Text(s@),
            Value::Bool(b) => Cell::Bool(*b),
            Value::Int(x) => Cell::Int(*x),
            Value::UInt(x) => Cell::UInt(*x),
            Value::BigInt(x) => Cell::BigInt(*x),
            Value::UBigInt(x) => Cell::UBigInt(*x),
            Value::Float(x) => Cell::Float(*x),
            Value::Double(x) => Cell::Double(*x),
        }
    }
}

/// The cells of a sequence of values.
pub open spec fn cells(row: Seq<Value>) -> Seq<Cell> {
    row.map_values(|v: Value| v@)
}

/// `v` can be written into a column of type `t`.
pub open spec fn fits(v: Cell, t: ColumnType) -> bool {
    match v {
        Cell::Text(_) => t == ColumnType::Varchar,
        Cell::Bool(_) => t == ColumnType::Boolean,
        Cell::Int(_) => t == ColumnType::Integer,
        Cell::UInt(_) => t == ColumnType::UInteger,
        Cell::BigInt(_) => t == ColumnType::BigInt,
        Cell::UBigInt(_) => t == ColumnType::UBigInt,
        Cell::Float(r) => t == ColumnType::Float && real_defined(r),
        Cell::Double(r) => t == ColumnType::Double && real_defined(r),
    }
}

/// `row` has one value per column, each of its column's type.
pub open spec fn row_fits(types: Seq<ColumnType>, row: Seq<Cell>) -> bool {
    &&& row.len() == types.len()
    &&& forall|j: int| 0 <= j < row.len() ==> fits(#[trigger] row[j], types[j])
}

/// `v` can be encoded: a text holds no NUL character.
pub open spec fn encodable(v: Cell) -> bool {
    match v {
        Cell::Text(s) => !s.contains('\0'),
        _ => true,
    }
}

/// Every value of `row` can be encoded.
pub open spec fn row_encodable(row: Seq<Cell>) -> bool {
    forall|j: int| 0 <= j < row.len() ==> encodable(#[trigger] row[j])
}

/// Every row of `rows[from..to]` can be encoded.
pub open spec fn window_encodable(rows: Seq<Seq<Cell>>, from: int, to: int) -> bool {
    forall|i: int| from <= i < to ==> row_encodable(#[trigger] rows[i])
}

impl Value {
    /// Whether this value can be encoded.
    pub fn is_encodable(&self) -> (r: bool)
        ensures
            r == encodable(self@),
    {
        match self {
            Value::Text(s) => {
                let cs = chars_of(s.as_str());
                let mut i: usize = 0;
                while i < cs.len()
                    invariant
                        *self == Value::Text(*s),
                        cs@ == s@,
                        i <= cs@.len(),
                        forall|k: int| 0 <= k < i ==> cs@[k] != '\0',
                    decreases cs@.len() - i,
                {
                    if cs[i] == '\0' {
                        assert(s@[i as int] == '\0');
                        assert(s@.contains('\0'));
                        return false;
                    }
                    i = i + 1;
                }
                true
            },
            _ => true,
        }
    }
}

/// A kind of record that makes one row of a table.
pub trait Record: Sized {
    /// The columns of the table, in order.
    spec fn spec_schema() -> Seq<(Seq<char>, ColumnType)>;

    /// The row that this record makes.
    spec fn spec_row(&self) -> Seq<Cell>;

    /// The columns of the table, in order.
    fn schema() -> (r: Vec<Column>)
        ensures
            columns_view(r@) == Self::spec_schema(),
    ;

    /// The row that this record makes, one value per column.
    fn row(&self) -> (r: Vec<Value>)
        ensures
            cells(r@) == self.spec_row(),
            row_fits(column_types(Self::spec_schema()), cells(r@)),
    ;
}

/// How many rows a call delivers from cursor `c` over `n` rows.
pub open spec fn batch_len(n: nat, c: nat) -> nat {
    if c >= n {
        0
    } else if n - c < BATCH_SIZE {
        (n - c) as nat
    } else {
        BATCH_SIZE as nat
    }
}

/// The cursor after `k` successful calls from cursor `c` over `n` rows.
pub open spec fn cursor_after(n: nat, c: nat, k: nat) -> nat
    decreases k,
{
    if k == 0 {
        c
    } else {
        cursor_after(n, c + batch_len(n, c), (k - 1) as nat)
    }
}

/// How many rows `k` successful calls from cursor `c` deliver in all.
pub open spec fn delivered(n: nat, c: nat, k: nat) -> nat
    decreases k,
{
    if k == 0 {
        0
    } else {
        batch_len(n, c) + delivered(n, c + batch_len(n, c), (k - 1) as nat)
    }
}

/// Row `i` lies in the batch of call `k` (counted from zero) from a fresh
/// cursor over `n` rows.
pub open spec fn delivered_by(n: nat, k: nat, i: nat) -> bool {
    cursor_after(n, 0, k) <= i < cursor_after(n, 0, k + 1)
}

/// How many calls deliver rows before a snapshot of `n` rows is exhausted.
pub open spec fn calls_needed(n: nat) -> nat {
    ((n + BATCH_SIZE - 1) / BATCH_SIZE as int) as nat
}

/// What a table provider holds: its schema, its snapshot of rows, and its
/// cursor into the snapshot.
pub struct TableProvider {
    schema: Vec<Column>,
    rows: Vec<Vec<Value>>,
    cursor: usize,
}

/// The rows delivered by one call of `produce`: `len` rows from `start` on.
#[derive(Clone, Copy, Debug, PartialEq, Eq, Structural)]
pub struct Batch {
    pub start: usize,
    pub len: usize,
}

/// A value that cannot be encoded, at row `row` of the snapshot and column
/// `column`.
#[derive(Clone, Copy, Debug, PartialEq, Eq, Structural)]
pub struct EncodingError {
    pub row: usize,
    pub column: usize,
}

impl View for TableProvider {
    type V = (Seq<(Seq<char>, ColumnType)>, Seq<Seq<Cell>>, nat);

    closed spec fn view(&self) -> Self::V {
        (columns_view(self.schema@), self.rows@.map_values(|r: Vec<Value>| cells(r@)), self.cursor as nat)
    }
}

impl TableProvider {
    /// The columns, by name and type.
    pub open spec fn spec_schema(&self) -> Seq<(Seq<char>, ColumnType)> {
        self@.0
    }

    /// The snapshot, one row per record.
    pub open spec fn spec_rows(&self) -> Seq<Seq<Cell>> {
        self@.1
    }

    /// How many rows have been delivered.
    pub open spec fn spec_cursor(&self) -> nat {
        self@.2
    }

    /// The cursor lies within the snapshot, and every row fits the schema.
    pub open spec fn wf(&self) -> bool {
        &&& self.spec_cursor() <= self.spec_rows().len()
        &&& forall|i: int|
            0 <= i < self.spec_rows().len() ==> row_fits(
                column_types(self.spec_schema()),
                #[trigger] self.spec_rows()[i],
            )
    }

    /// A provider over the rows that `records` make, in their order, with
    /// nothing delivered yet.
    pub fn from_records<R: Record>(records: &Vec<R>) -> (r: TableProvider)
        ensures
            r.wf(),
            r.spec_schema() == R::spec_schema(),
            r.spec_rows() == records@.map_values(|x: R| x.spec_row()),
            r.spec_cursor() == 0,
    {
        let schema = R::schema();
        let mut rows: Vec<Vec<Value>> = Vec::new();
        for i in 0..records.len()
            invariant
                rows@.len() == i,
                forall|k: int| 0 <= k < i ==> cells((#[trigger] rows@[k])@) == records@[k].spec_row(),
                forall|k: int|
                    0 <= k < i ==> row_fits(column_types(R::spec_schema()), cells((#[trigger] rows@[k])@)),
        {
            let row = records[i].row();
            rows.push(row);
        }
        let r = TableProvider { schema, rows, cursor: 0 };
        assert(r.spec_rows() =~= records@.map_values(|x: R| x.spec_row()));
        r
    }

    /// The columns, in order.
    pub fn columns(&self) -> (r: &Vec<Column>)
        ensures
            columns_view(r@) == self.spec_schema(),
    {
        &self.schema
    }

    /// How many rows the snapshot holds.
    pub fn row_count(&self) -> (r: usize)
        ensures
            r == self.spec_rows().len(),
    {
        self.rows.len()
    }

    /// How many rows have been delivered.
    pub fn cursor(&self) -> (r: usize)
        ensures
            r == self.spec_cursor(),
    {
        self.cursor
    }

    /// Whether every row has been delivered.
    pub fn is_exhausted(&self) -> (r: bool)
        requires
            self.wf(),
        ensures
            r == (self.spec_cursor() == self.spec_rows().len()),
    {
        self.cursor >= self.rows.len()
    }

    /// Row `i` of the snapshot.
    pub fn row(&self, i: usize) -> (r: &Vec<Value>)
        requires
            i < self.spec_rows().len(),
        ensures
            cells(r@) == self.spec_rows()[i as int],
    {
        &self.rows[i]
    }

    /// The first value in `rows[from..to]` that cannot be encoded, if any.
    fn first_unencodable(&self, from: usize, to: usize) -> (r: Option<EncodingError>)
        requires
            from <= to <= self.spec_rows().len(),
        ensures
            r is None <==> window_encodable(self.spec_rows(), from as int, to as int),
            r matches Some(e) ==> {
                &&& from <= e.row < to
                &&& e.column < self.spec_rows()[e.row as int].len()
                &&& !encodable(self.spec_rows()[e.row as int][e.column as int])
                &&& window_encodable(self.spec_rows(), from as int, e.row as int)
                &&& forall|j: int|
                    0 <= j < e.column ==> encodable(#[trigger] self.spec_rows()[e.row as int][j])
            },
    {
        let mut i: usize = from;
        while i < to
            invariant
                from <= i <= to <= self.spec_rows().len(),
                window_encodable(self.spec_rows(), from as int, i as int),
            decreases to - i,
        {
            let row = &self.rows[i];
            assert(cells(row@) == self.spec_rows()[i as int]);
            let mut j: usize = 0;
            while j < row.len()
                invariant
                    from <= i < to <= self.spec_rows().len(),
                    window_encodable(self.spec_rows(), from as int, i as int),
                    cells(row@) == self.spec_rows()[i as int],
                    j <= row@.len(),
                    forall|k: int| 0 <= k < j ==> encodable(#[trigger] row@[k]@),
                decreases row@.len() - j,
            {
                if !row[j].is_encodable() {
                    assert forall|k: int| 0 <= k < j implies encodable(
                        #[trigger] self.spec_rows()[i as int][k],
                    ) by {
                        assert(encodable(row@[k]@));
                    }
                    assert(self.spec_rows()[i as int][j as int] == row@[j as int]@);
                    assert(!row_encodable(self.spec_rows()[i as int]));
                    return Some(EncodingError { row: i, column: j });
                }
                j = j + 1;
            }
            assert(row_encodable(self.spec_rows()[i as int]));
            i = i + 1;
        }
        None
    }

    /// Delivers the next batch: up to `BATCH_SIZE` rows from the cursor on,
    /// and moves the cursor past them. Once every row has been delivered,
    /// every call delivers an empty batch. Where a row of the batch holds a
    /// value that cannot be encoded, nothing is delivered, the cursor stays,
    /// and the first such value is named.
    pub fn produce(&mut self) -> (r: Result<Batch, EncodingError>)
        requires
            old(self).wf(),
        ensures
            final(self).wf(),
            final(self).spec_schema() == old(self).spec_schema(),
            final(self).spec_rows() == old(self).spec_rows(),
            ({
                let n = old(self).spec_rows().len();
                let c = old(self).spec_cursor();
                let k = batch_len(n, c);
                &&& r is Ok <==> window_encodable(old(self).spec_rows(), c as int, (c + k) as int)
                &&& r matches Ok(b) ==> b.start == c && b.len == k && final(self).spec_cursor()
                    == c + k
                &&& r matches Err(e) ==> {
                    &&& final(self).spec_cursor() == c
                    &&& c <= e.row < c + k
                    &&& e.column < old(self).spec_rows()[e.row as int].len()
                    &&& !encodable(old(self).spec_rows()[e.row as int][e.column as int])
                    &&& window_encodable(old(self).spec_rows(), c as int, e.row as int)
                    &&& forall|j: int|
                        0 <= j < e.column ==> encodable(
                            #[trigger] old(self).spec_rows()[e.row as int][j],
                        )
                }
            }),
    {
        let n = self.rows.len();
        let c = self.cursor;
        if c >= n {
            return Ok(Batch { start: c, len: 0 });
        }
        let k = if n - c < BATCH_SIZE {
            n - c
        } else {
            BATCH_SIZE
        };
        match self.first_unencodable(c, c + k) {
            Some(e) => Err(e),
            None => {
                self.cursor = c + k;
                Ok(Batch { start: c, len: k })
            },
        }
    }
}

/// The cursor after `k + 1` calls is the cursor after `k` calls moved past
/// the batch of the last call.
proof fn lemma_cursor_step(n: nat, c: nat, k: nat)
    ensures
        cursor_after(n, c, k + 1) == cursor_after(n, c, k) + batch_len(n, cursor_after(n, c, k)),
        delivered(n, c, k) + c == cursor_after(n, c, k),
    decreases k,
{
    if k > 0 {
        lemma_cursor_step(n, c + batch_len(n, c), (k - 1) as nat);
    } else {
        assert(cursor_after(n, c + batch_len(n, c), 0) == c + batch_len(n, c));
        assert(delivered(n, c + batch_len(n, c), 0) == 0);
    }
}

/// Once a call delivers no rows, every later call starts from the same
/// cursor and delivers no rows either, and it cannot fail: an empty batch
/// holds no value to encode.
pub proof fn lemma_exhausted_stays_exhausted(rows: Seq<Seq<Cell>>, c: nat, k: nat)
    requires
        c <= rows.len(),
        batch_len(rows.len(), c) == 0,
    ensures
        cursor_after(rows.len(), c, k) == c,
        batch_len(rows.len(), cursor_after(rows.len(), c, k)) == 0,
        window_encodable(rows, c as int, c as int),
    decreases k,
{
    if k > 0 {
        lemma_exhausted_stays_exhausted(rows, c, (k - 1) as nat);
    }
}

/// From a fresh cursor, `k` calls over `n` rows have delivered the first
/// `min(k * BATCH_SIZE, n)` rows.
proof fn lemma_cursor_closed_form(n: nat, k: nat)
    ensures
        cursor_after(n, 0, k) as int == if k * BATCH_SIZE <= n {
            k * BATCH_SIZE
        } else {
            n as int
        },
    decreases k,
{
    if k > 0 {
        lemma_cursor_closed_form(n, (k - 1) as nat);
        lemma_cursor_step(n, 0, (k - 1) as nat);
    }
}

/// Over a snapshot of `n` rows, from a fresh cursor, the calls deliver every
/// row exactly once: the first `calls_needed(n)` calls deliver rows, in all
/// exactly `n`; every later call delivers none; and row `i` lies in the
/// batch of call `i / BATCH_SIZE` and of no other call.
pub proof fn lemma_batches_partition(n: nat)
    ensures
        delivered(n, 0, calls_needed(n)) == n,
        cursor_after(n, 0, calls_needed(n)) == n,
        forall|k: nat|
            k < calls_needed(n) ==> batch_len(n, #[trigger] cursor_after(n, 0, k)) > 0,
        forall|k: nat|
            k >= calls_needed(n) ==> batch_len(n, #[trigger] cursor_after(n, 0, k)) == 0,
        forall|i: nat, k: nat| i < n ==> (#[trigger] delivered_by(n, k, i) <==> k == i / BATCH_SIZE as nat),
{
    let m = calls_needed(n);
    lemma_cursor_step(n, 0, m);
    lemma_cursor_closed_form(n, m);
    assert(m * BATCH_SIZE >= n) by (nonlinear_arith)
        requires
            m == (n + BATCH_SIZE - 1) / BATCH_SIZE as int,
    ;
    assert forall|k: nat| k < calls_needed(n) implies batch_len(
        n,
        #[trigger] cursor_after(n, 0, k),
    ) > 0 by {
        lemma_cursor_closed_form(n, k);
        assert(k * BATCH_SIZE < n) by (nonlinear_arith)
            requires
                k < m,
                m == (n + BATCH_SIZE - 1) / BATCH_SIZE as int,
        ;
    }
    assert forall|k: nat| k >= calls_needed(n) implies batch_len(
        n,
        #[trigger] cursor_after(n, 0, k),
    ) == 0 by {
        lemma_cursor_closed_form(n, k);
        assert(k * BATCH_SIZE >= n) by (nonlinear_arith)
            requires
                k >= m,
                m * BATCH_SIZE >= n,
        ;
    }
    assert forall|i: nat, k: nat| i < n implies (#[trigger] delivered_by(n, k, i) <==> k == i
        / BATCH_SIZE as nat) by {
        lemma_cursor_closed_form(n, k);
        lemma_cursor_closed_form(n, k + 1);
        let q = i / BATCH_SIZE as nat;
        assert(q * BATCH_SIZE <= i < (q + 1) * BATCH_SIZE) by (nonlinear_arith)
            requires
                q == i / BATCH_SIZE as nat,
        ;
        if k < q {
            assert((k + 1) * BATCH_SIZE <= q * BATCH_SIZE) by (nonlinear_arith)
                requires
                    k < q,
            ;
        }
        if k > q {
            assert(k * BATCH_SIZE >= (q + 1) * BATCH_SIZE) by (nonlinear_arith)
                requires
                    k > q,
            ;
        }
    }
}

} // verus!
