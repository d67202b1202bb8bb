use vstd::prelude::*;
use vstd::string::*;
use crate::predicate::{Assignment, Assignments};
use crate::schema::{QueryError, Table};
use crate::text::{comma_join, lemma_comma_join_step};

verus! {

/// One inserted row: column / literal pairs, in any order. It renders with
/// its columns in the table's field order.
pub struct Row {
    pub values: Vec<Assignment>,
}

/// The first entry for column `n`, if the entries hold one.
pub open spec fn lookup(vals: Seq<Assignment>, n: Seq<char>) -> Option<Assignment>
    decreases vals.len(),
{
    if vals.len() == 0 {
        None
    } else if vals[0].field.name@ == n {
        Some(vals[0])
    } else {
        lookup(vals.drop_first(), n)
    }
}

/// The entries placed in the order of `names`: for each name in turn, the
/// entry for that column when there is one.
pub open spec fn placed(names: Seq<Seq<char>>, vals: Seq<Assignment>) -> Seq<Assignment>
    decreases names.len(),
{
    if names.len() == 0 {
        Seq::empty()
    } else {
        let init = placed(names.drop_last(), vals);
        match lookup(vals, names.last()) {
            Some(a) => init.push(a),
            None => init,
        }
    }
}

impl Row {
    /// Column names, in the row's own order.
    pub open spec fn columns(&self) -> Seq<Seq<char>> {
        self.values@.map_values(|a: Assignment| a.field.name@)
    }

    /// The row's entries in the table's field order.
    pub open spec fn ordered(&self, t: Table) -> Seq<Assignment> {
        placed(t.field_names(), self.values@)
    }

    /// `<c1>,<c2>,...`: the row's column names in the table's field order.
    pub open spec fn columns_sql(&self, t: Table) -> Seq<char> {
        comma_join(self.ordered(t).map_values(|a: Assignment| a.field.name@))
    }

    /// `(<v1>,<v2>,...)`: the row's literals in the table's field order.
    pub open spec fn tuple_sql(&self, t: Table) -> Seq<char> {
        seq!['('] + comma_join(self.ordered(t).map_values(|a: Assignment| a.value.sql())) + seq![
            ')',
        ]
    }

    /// Every column is a field of the table.
    pub open spec fn within(&self, t: Table) -> bool {
        forall|i: int| 0 <= i < self.values@.len() ==> t.owns(#[trigger] self.values@[i].field)
    }

    pub fn new(values: Vec<Assignment>) -> (r: Row)
        ensures
            r.values == values,
    {
        Row { values }
    }

    fn check_within(&self, t: &Table) -> (r: bool)
        ensures
            r == self.within(*t),
    {
        let mut i: usize = 0;
        while i < self.values.len()
            invariant
                i <= self.values@.len(),
                forall|j: int| 0 <= j < i ==> t.owns(#[trigger] self.values@[j].field),
            decreases self.values@.len() - i,
        {
            if !t.owns_field(&self.values[i].field) {
                return false;
            }
            i += 1;
        }
        true
    }

    fn check_distinct(&self) -> (r: bool)
        ensures
            r == self.columns().no_duplicates(),
    {
        let ghost cols = self.columns();
        let mut i: usize = 0;
        while i < self.values.len()
            invariant
                cols == self.columns(),
                i <= self.values@.len(),
                forall|a: int, b: int| 0 <= a < b < i ==> cols[a] != cols[b],
            decreases self.values@.len() - i,
        {
            let mut j: usize = 0;
            while j < i
                invariant
                    cols == self.columns(),
                    j <= i < self.values@.len(),
                    forall|a: int, b: int| 0 <= a < b < i ==> cols[a] != cols[b],
                    forall|a: int| 0 <= a < j ==> cols[a] != cols[i as int],
                decreases i - j,
            {
                if self.values[j].field.name == self.values[i].field.name {
                    assert(cols[j as int] == cols[i as int]);
                    return false;
                }
                j += 1;
            }
            i += 1;
        }
        assert forall|a: int, b: int|
            0 <= a < cols.len() && 0 <= b < cols.len() && a != b implies cols[a] != cols[b] by {
            if a > b {
                assert(cols[b] != cols[a]);
            }
        }
        true
    }

    /// Index of the first entry for column `name`.
    fn find(&self, name: &String) -> (r: Option<usize>)
        ensures
            r matches Some(i) ==> i < self.values@.len() && lookup(self.values@, name@) == Some(
                self.values@[i as int],
            ),
            r is None ==> lookup(self.values@, name@) is None,
    {
        let ghost vals = self.values@;
        let mut i: usize = 0;
        assert(vals.skip(0) =~= vals);
        while i < self.values.len()
            invariant
                vals == self.values@,
                i <= vals.len(),
                lookup(vals, name@) == lookup(vals.skip(i as int), name@),
            decreases vals.len() - i,
        {
            assert(vals.skip(i as int)[0] == vals[i as int]);
            if self.values[i].field.name == *name {
                return Some(i);
            }
            assert(vals.skip(i as int).drop_first() =~= vals.skip(i + 1));
            i += 1;
        }
        None
    }

    /// Indices of the row's entries, in the table's field order.
    fn order_indices(&self, t: &Table) -> (r: Vec<usize>)
        ensures
            r@.len() == self.ordered(*t).len(),
            forall|k: int|
                0 <= k < r@.len() ==> r@[k] < self.values@.len() && self.values@[#[trigger] r@[k] as int]
                    == self.ordered(*t)[k],
    {
        let ghost names = t.field_names();
        let mut r: Vec<usize> = Vec::new();
        let mut i: usize = 0;
        assert(names.take(0) =~= Seq::<Seq<char>>::empty());
        while i < t.fields.len()
            invariant
                names == t.field_names(),
                i <= t.fields@.len(),
                r@.len() == placed(names.take(i as int), self.values@).len(),
                forall|k: int|
                    0 <= k < r@.len() ==> r@[k] < self.values@.len() && self.values@[#[trigger] r@[k] as int]
                        == placed(names.take(i as int), self.values@)[k],
            decreases t.fields@.len() - i,
        {
            assert(names.take(i + 1).drop_last() =~= names.take(i as int));
            assert(names.take(i + 1).last() == t.fields@[i as int]@);
            if let Some(j) = self.find(&t.fields[i]) {
                r.push(j);
            }
            i += 1;
        }
        assert(names.take(t.fields@.len() as int) =~= names);
        r
    }

    /// Whether each column of this row is also a column of `other`.
    fn columns_in(&self, other: &Row) -> (r: bool)
        ensures
            r == (forall|i: int| 0 <= i < self.columns().len() ==> other.columns().contains(#[trigger] self.columns()[i])),
    {
        let mut i: usize = 0;
        while i < self.values.len()
            invariant
                i <= self.values@.len(),
                forall|k: int| 0 <= k < i ==> other.columns().contains(#[trigger] self.columns()[k]),
            decreases self.values@.len() - i,
        {
            if other.find(&self.values[i].field.name).is_none() {
                proof {
                    lemma_lookup_none(other.values@, self.values@[i as int].field.name@);
                    assert(self.columns()[i as int] == self.values@[i as int].field.name@);
                }
                return false;
            }
            proof {
                lemma_lookup_some(other.values@, self.values@[i as int].field.name@);
            }
            i += 1;
        }
        true
    }

    fn write_columns(&self, t: &Table, idx: &Vec<usize>, out: &mut String)
        requires
            idx@.len() == self.ordered(*t).len(),
            forall|k: int|
                0 <= k < idx@.len() ==> idx@[k] < self.values@.len() && self.values@[#[trigger] idx@[k] as int]
                    == self.ordered(*t)[k],
        ensures
            final(out)@ == old(out)@ + self.columns_sql(*t),
    {
        let ghost items = self.ordered(*t).map_values(|a: Assignment| a.field.name@);
        let mut i: usize = 0;
        while i < idx.len()
            invariant
                i <= idx@.len(),
                idx@.len() == self.ordered(*t).len(),
                forall|k: int|
                    0 <= k < idx@.len() ==> idx@[k] < self.values@.len() && self.values@[#[trigger] idx@[k] as int]
                        == self.ordered(*t)[k],
                items == self.ordered(*t).map_values(|a: Assignment| a.field.name@),
                out@ == old(out)@ + comma_join(items.take(i as int)),
            decreases idx@.len() - i,
        {
            proof {
                lemma_comma_join_step(items, i as int);
            }
            if i > 0 {
                out.push(',');
            }
            let j = idx[i];
            assert(self.values@[idx@[i as int] as int] == self.ordered(*t)[i as int]);
            self.values[j].field.write_name(out);
            assert(out@ =~= old(out)@ + comma_join(items.take(i + 1)));
            i += 1;
        }
        assert(items.take(idx@.len() as int) =~= items);
    }

    fn write_tuple(&self, t: &Table, idx: &Vec<usize>, out: &mut String)
        requires
            idx@.len() == self.ordered(*t).len(),
            forall|k: int|
                0 <= k < idx@.len() ==> idx@[k] < self.values@.len() && self.values@[#[trigger] idx@[k] as int]
                    == self.ordered(*t)[k],
        ensures
            final(out)@ == old(out)@ + self.tuple_sql(*t),
    {
        let ghost items = self.ordered(*t).map_values(|a: Assignment| a.value.sql());
        out.push('(');
        let mut i: usize = 0;
        while i < idx.len()
            invariant
                i <= idx@.len(),
                idx@.len() == self.ordered(*t).len(),
                forall|k: int|
                    0 <= k < idx@.len() ==> idx@[k] < self.values@.len() && self.values@[#[trigger] idx@[k] as int]
                        == self.ordered(*t)[k],
                items == self.ordered(*t).map_values(|a: Assignment| a.value.sql()),
                out@ == old(out)@ + seq!['('] + comma_join(items.take(i as int)),
            decreases idx@.len() - i,
        {
            proof {
                lemma_comma_join_step(items, i as int);
            }
            if i > 0 {
                out.push(',');
            }
            let j = idx[i];
            assert(self.values@[idx@[i as int] as int] == self.ordered(*t)[i as int]);
            self.values[j].value.write_sql(out);
            assert(out@ =~= old(out)@ + seq!['('] + comma_join(items.take(i + 1)));
            i += 1;
        }
        assert(items.take(idx@.len() as int) =~= items);
        out.push(')');
        assert(out@ =~= old(out)@ + self.tuple_sql(*t));
    }
}

pub proof fn lemma_lookup_none(vals: Seq<Assignment>, n: Seq<char>)
    requires
        lookup(vals, n) is None,
    ensures
        !vals.map_values(|a: Assignment| a.field.name@).contains(n),
    decreases vals.len(),
{
    if vals.len() > 0 {
        lemma_lookup_none(vals.drop_first(), n);
        let cols = vals.map_values(|a: Assignment| a.field.name@);
        let rest = vals.drop_first().map_values(|a: Assignment| a.field.name@);
        assert forall|i: int| 0 <= i < cols.len() implies #[trigger] cols[i] != n by {
            if i > 0 {
                assert(rest[i - 1] != n);
            }
        }
    }
}

pub proof fn lemma_lookup_some(vals: Seq<Assignment>, n: Seq<char>)
    requires
        lookup(vals, n) is Some,
    ensures
        vals.map_values(|a: Assignment| a.field.name@).contains(n),
    decreases vals.len(),
{
    if vals[0].field.name@ == n {
        assert(vals.map_values(|a: Assignment| a.field.name@)[0] == n);
    } else {
        lemma_lookup_some(vals.drop_first(), n);
        let rest = vals.drop_first().map_values(|a: Assignment| a.field.name@);
        let i = choose|i: int| 0 <= i < rest.len() && #[trigger] rest[i] == n;
        assert(vals.map_values(|a: Assignment| a.field.name@)[i + 1] == n);
    }
}

impl Assignments {
    /// The same column / literal pairs as an inserted row.
    pub fn into_row(self) -> (r: Row)
        ensures
            r.values == self.items,
    {
        Row { values: self.items }
    }
}

/// Why a row cannot be inserted into the table, if it cannot.
pub open spec fn row_error(t: Table, row: Row) -> Option<QueryError> {
    if row.values@.len() == 0 {
        Some(QueryError::EmptyList)
    } else if !row.within(t) {
        Some(QueryError::ForeignField)
    } else if !row.columns().no_duplicates() {
        Some(QueryError::DuplicateColumn)
    } else {
        None
    }
}

/// The error of the first row that cannot be inserted, if any.
pub open spec fn first_row_error(t: Table, rows: Seq<Row>) -> Option<QueryError>
    decreases rows.len(),
{
    if rows.len() == 0 {
        None
    } else {
        match first_row_error(t, rows.drop_last()) {
            Some(e) => Some(e),
            None => row_error(t, rows.last()),
        }
    }
}

/// All rows have the column set of the first.
pub open spec fn same_columns(rows: Seq<Row>) -> bool {
    forall|k: int|
        0 <= k < rows.len() ==> (#[trigger] rows[k]).columns().to_set() == rows[0].columns().to_set()
}

fn check_row(t: &Table, row: &Row) -> (r: Option<QueryError>)
    ensures
        r == row_error(*t, *row),
{
    if row.values.len() == 0 {
        Some(QueryError::EmptyList)
    } else if !row.check_within(t) {
        Some(QueryError::ForeignField)
    } else if !row.check_distinct() {
        Some(QueryError::DuplicateColumn)
    } else {
        None
    }
}

fn same_column_set(a: &Row, b: &Row) -> (r: bool)
    ensures
        r == (a.columns().to_set() == b.columns().to_set()),
{
    let ab = a.columns_in(b);
    let ba = b.columns_in(a);
    if ab && ba {
        assert(a.columns().to_set() =~= b.columns().to_set());
        true
    } else {
        proof {
            if a.columns().to_set() == b.columns().to_set() {
                if !ab {
                    let i = choose|i: int|
                        0 <= i < a.columns().len() && !b.columns().contains(
                            #[trigger] a.columns()[i],
                        );
                    assert(a.columns().to_set().contains(a.columns()[i]));
                } else {
                    let i = choose|i: int|
                        0 <= i < b.columns().len() && !a.columns().contains(
                            #[trigger] b.columns()[i],
                        );
                    assert(b.columns().to_set().contains(b.columns()[i]));
                }
            }
        }
        false
    }
}

/// An insert of one or more rows over one column set.
pub struct InsertStatement {
    pub table: Table,
    /// At least one row when built by `Table::insert` or
    /// `Table::insert_values` (see `well_formed`).
    pub rows: Vec<Row>,
}

impl InsertStatement {
    /// `INSERT INTO <table> (<cols>) VALUES (<row1>),(<row2>),...;`
    /// with columns and literals in the table's field order.
    pub open spec fn sql(&self) -> Seq<char> {
        "INSERT INTO "@ + self.table.name@ + " ("@ + self.columns_sql() + ") VALUES "@ + comma_join(
            self.tuples(),
        ) + seq![';']
    }

    /// The first row's columns; the rows of a well-formed statement share them.
    pub open spec fn columns_sql(&self) -> Seq<char> {
        if self.rows@.len() == 0 {
            Seq::empty()
        } else {
            self.rows@[0].columns_sql(self.table)
        }
    }

    /// One literal tuple per row, in the order of the rows.
    pub open spec fn tuples(&self) -> Seq<Seq<char>> {
        self.rows@.map_values(|r: Row| r.tuple_sql(self.table))
    }

    /// At least one row, every row insertable into the table, and all
    /// rows over the same column set.
    pub open spec fn well_formed(&self) -> bool {
        &&& self.rows@.len() > 0
        &&& first_row_error(self.table, self.rows@) is None
        &&& same_columns(self.rows@)
    }

    pub fn write_sql(&self, out: &mut String)
        ensures
            final(out)@ == old(out)@ + self.sql(),
    {
        out.append("INSERT INTO ");
        out.append(self.table.name.as_str());
        out.append(" (");
        if self.rows.len() > 0 {
            let idx = self.rows[0].order_indices(&self.table);
            self.rows[0].write_columns(&self.table, &idx, out);
        }
        out.append(") VALUES ");
        let ghost s1 = out@;
        let ghost items = self.tuples();
        let mut i: usize = 0;
        while i < self.rows.len()
            invariant
                i <= self.rows@.len(),
                items == self.tuples(),
                out@ == s1 + comma_join(items.take(i as int)),
            decreases self.rows@.len() - i,
        {
            proof {
                lemma_comma_join_step(items, i as int);
            }
            if i > 0 {
                out.push(',');
            }
            let idx = self.rows[i].order_indices(&self.table);
            self.rows[i].write_tuple(&self.table, &idx, out);
            assert(out@ =~= s1 + comma_join(items.take(i + 1)));
            i += 1;
        }
        assert(items.take(self.rows@.len() as int) =~= items);
        out.push(';');
        assert(out@ =~= old(out)@ + self.sql());
    }
}

impl Table {
    /// A single-row insert. Refused when the row is empty, names a field of
    /// another table, or names a column twice.
    pub fn insert(self, row: Row) -> (r: Result<InsertStatement, QueryError>)
        ensures
            row_error(self, row) matches Some(e) ==> r == Err::<InsertStatement, QueryError>(e),
            row_error(self, row) is None ==> (r matches Ok(s) && s.table == self && s.rows@ == seq![
                row,
            ] && s.well_formed()),
    {
        if let Some(e) = check_row(&self, &row) {
            return Err(e);
        }
        let mut rows: Vec<Row> = Vec::new();
        rows.push(row);
        assert(rows@ =~= seq![row]);
        assert(rows@.drop_last() =~= Seq::<Row>::empty());
        assert(first_row_error(self, rows@.drop_last()) is None);
        assert(rows@.last() == row);
        assert(first_row_error(self, rows@) is None);
        Ok(InsertStatement { table: self, rows })
    }

    /// A bulk insert, rows rendered in the order given. Refused when there
    /// are no rows, when a row cannot be inserted (the first such row's
    /// error), or when the rows' column sets differ.
    pub fn insert_values(self, rows: Vec<Row>) -> (r: Result<InsertStatement, QueryError>)
        ensures
            rows@.len() == 0 ==> r == Err::<InsertStatement, QueryError>(QueryError::EmptyRows),
            rows@.len() > 0 && first_row_error(self, rows@) is Some ==> r == Err::<
                InsertStatement,
                QueryError,
            >(first_row_error(self, rows@).unwrap()),
            rows@.len() > 0 && first_row_error(self, rows@) is None && !same_columns(rows@) ==> r
                == Err::<InsertStatement, QueryError>(QueryError::MismatchedRows),
            rows@.len() > 0 && first_row_error(self, rows@) is None && same_columns(rows@) ==> (r matches Ok(
                s,
            ) && s.table == self && s.rows == rows && s.well_formed()),
    {
        if rows.len() == 0 {
            return Err(QueryError::EmptyRows);
        }
        let mut k: usize = 0;
        while k < rows.len()
            invariant
                k <= rows@.len(),
                first_row_error(self, rows@.take(k as int)) is None,
            decreases rows@.len() - k,
        {
            let e = check_row(&self, &rows[k]);
            assert(rows@.take(k + 1).drop_last() =~= rows@.take(k as int));
            if let Some(e) = e {
                proof {
                    lemma_first_error_extends(self, rows@, k + 1);
                }
                return Err(e);
            }
            k += 1;
        }
        assert(rows@.take(rows@.len() as int) =~= rows@);
        assert(first_row_error(self, rows@) is None);
        let mut k: usize = 1;
        while k < rows.len()
            invariant
                1 <= k <= rows@.len(),
                first_row_error(self, rows@) is None,
                forall|j: int|
                    0 <= j < k ==> (#[trigger] rows@[j]).columns().to_set() == rows@[0].columns().to_set(),
            decreases rows@.len() - k,
        {
            if !same_column_set(&rows[k], &rows[0]) {
                return Err(QueryError::MismatchedRows);
            }
            k += 1;
        }
        Ok(InsertStatement { table: self, rows })
    }
}

/// Once some prefix has an error, every longer prefix reports that same error.
proof fn lemma_first_error_extends(t: Table, rows: Seq<Row>, k: int)
    requires
        0 < k <= rows.len(),
        first_row_error(t, rows.take(k)) is Some,
    ensures
        first_row_error(t, rows) == first_row_error(t, rows.take(k)),
    decreases rows.len() - k,
{
    if k < rows.len() {
        assert(rows.take(k + 1).drop_last() =~= rows.take(k));
        lemma_first_error_extends(t, rows, k + 1);
    } else {
        assert(rows.take(k) =~= rows);
    }
}

} // verus!
