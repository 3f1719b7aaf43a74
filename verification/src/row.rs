use vstd::prelude::*;

verus! {

/// A typed value for one column of one row.
///
/// `Timestamp` carries seconds since the Unix epoch; turning it into a
/// calendar value is presentation work that happens outside the library.
/// `Json` carries the raw JSON text of a whole source element, the opaque
/// blob handed back for the synthetic `attrs` column.
#[derive(Debug, PartialEq, Eq)]
pub enum Cell {
    Int64(i64),
    Text(String),
    Timestamp(i64),
    Json(String),
}

/// The mathematical value of a [`Cell`].
pub enum CellView {
    Int64(i64),
    Text(Seq<char>),
    Timestamp(i64),
    Json(Seq<char>),
}

impl View for Cell {
    type V = CellView;

    open spec fn view(&self) -> CellView {
        match self {
            Cell::Int64(i) => CellView::Int64(*i),
            Cell::Text(s) => CellView::Text(s@),
            Cell::Timestamp(i) => CellView::Timestamp(*i),
            Cell::Json(s) => CellView::Json(s@),
        }
    }
}

/// The view of an optional cell.
pub open spec fn opt_cell_view(c: Option<Cell>) -> Option<CellView> {
    match c {
        Some(cell) => Some(cell@),
        None => None,
    }
}

/// One column of a row in its mathematical form: the column name paired
/// with the cell extracted for it, if any.
pub type RowView = Seq<(Seq<char>, Option<CellView>)>;

/// An ordered sequence of (column name, optional cell) pairs.
pub struct Row {
    pub cells: Vec<(String, Option<Cell>)>,
}

impl View for Row {
    type V = RowView;

    open spec fn view(&self) -> RowView {
        Seq::new(self.cells@.len(), |i: int| (self.cells@[i].0@, opt_cell_view(self.cells@[i].1)))
    }
}

impl Row {
    /// An empty row.
    pub fn new() -> (r: Row)
        ensures
            r@ == Seq::<(Seq<char>, Option<CellView>)>::empty(),
    {
        let r = Row { cells: Vec::new() };
        proof {
            assert(r@ =~= Seq::<(Seq<char>, Option<CellView>)>::empty());
        }
        r
    }

    /// Appends one (column, cell) pair.
    pub fn push(&mut self, name: String, cell: Option<Cell>)
        ensures
            final(self)@ == old(self)@.push((name@, opt_cell_view(cell))),
    {
        let ghost before = self@;
        let ghost entry = (name@, opt_cell_view(cell));
        self.cells.push((name, cell));
        proof {
            assert(self@ =~= before.push(entry));
        }
    }

    /// How many columns the row holds.
    pub fn len(&self) -> (n: usize)
        ensures
            n == self@.len(),
    {
        self.cells.len()
    }

    /// Borrows the pair at one position.
    pub fn get(&self, i: usize) -> (r: &(String, Option<Cell>))
        requires
            i < self@.len(),
        ensures
            r.0@ == self@[i as int].0,
            opt_cell_view(r.1) == self@[i as int].1,
    {
        &self.cells[i]
    }
}

/// The row budget of a scan: skip `offset` rows, then take `count` rows.
/// `count == 0` asks for an empty result.
#[derive(Clone, Copy, Debug, PartialEq, Eq, Structural)]
pub struct Limit {
    pub offset: u64,
    pub count: u64,
}

/// The value a predicate compares against.
#[derive(Debug)]
pub enum QualValue {
    Cell(Cell),
    Array(Vec<Cell>),
}

/// The mathematical value of a [`QualValue`].
pub enum ValueView {
    Cell(CellView),
    Array(Seq<CellView>),
}

impl View for QualValue {
    type V = ValueView;

    open spec fn view(&self) -> ValueView {
        match self {
            QualValue::Cell(c) => ValueView::Cell(c@),
            QualValue::Array(v) => ValueView::Array(Seq::new(v@.len(), |i: int| v@[i]@)),
        }
    }
}

/// One filter condition supplied by the host query engine: a field name, an
/// operator symbol, the compared value, and whether the condition sits under
/// a disjunction.
#[derive(Debug)]
pub struct Qual {
    pub field: String,
    pub operator: String,
    pub value: QualValue,
    pub use_or: bool,
}

/// The mathematical value of a [`Qual`].
pub struct QualView {
    pub field: Seq<char>,
    pub operator: Seq<char>,
    pub value: ValueView,
    pub use_or: bool,
}

impl View for Qual {
    type V = QualView;

    open spec fn view(&self) -> QualView {
        QualView { field: self.field@, operator: self.operator@, value: self.value@, use_or: self.use_or }
    }
}

/// The views of a sequence of quals.
pub open spec fn quals_view(s: Seq<Qual>) -> Seq<QualView> {
    Seq::new(s.len(), |i: int| s[i]@)
}

/// The views of a sequence of rows.
pub open spec fn rows_view(s: Seq<Row>) -> Seq<RowView> {
    Seq::new(s.len(), |i: int| s[i]@)
}

} // verus!
