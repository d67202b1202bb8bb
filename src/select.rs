use vstd::prelude::*;
use vstd::string::*;
use crate::literal::{decimal, write_decimal};
use crate::predicate::{Predicate, conjoin, conjoin_filter, where_sql, write_where};
use crate::schema::{Field, QueryError, Table};
use crate::text::{comma_join, lemma_comma_join_step};

verus! {

/// What a select statement returns.
pub enum Projection {
    /// `*`
    Wildcard,
    /// One qualified field.
    Column(Field),
    /// `COUNT(*)`, or `COUNT(<field>)`.
    Count(Option<Field>),
}

impl Projection {
    pub open spec fn sql(&self) -> Seq<char> {
        match self {
            Projection::Wildcard => "*"@,
            Projection::Column(f) => f.qualified(),
            Projection::Count(None) => "COUNT(*)"@,
            Projection::Count(Some(f)) => "COUNT("@ + f.qualified() + seq![')'],
        }
    }

    /// Every field named belongs to the table.
    pub open spec fn within(&self, t: Table) -> bool {
        match self {
            Projection::Wildcard => true,
            Projection::Column(f) => t.owns(*f),
            Projection::Count(None) => true,
            Projection::Count(Some(f)) => t.owns(*f),
        }
    }

    pub fn check_within(&self, t: &Table) -> (r: bool)
        ensures
            r == self.within(*t),
    {
        match self {
            Projection::Wildcard => true,
            Projection::Column(f) => t.owns_field(f),
            Projection::Count(None) => true,
            Projection::Count(Some(f)) => t.owns_field(f),
        }
    }

    pub fn write_sql(&self, out: &mut String)
        ensures
            final(out)@ == old(out)@ + self.sql(),
    {
        match self {
            Projection::Wildcard => out.append("*"),
            Projection::Column(f) => f.write_qualified(out),
            Projection::Count(None) => out.append("COUNT(*)"),
            Projection::Count(Some(f)) => {
                out.append("COUNT(");
                f.write_qualified(out);
                out.push(')');
                assert(out@ =~= old(out)@ + self.sql());
            },
        }
    }
}

/// Sort direction of one ORDER BY entry.
#[derive(Debug, Clone, Copy, PartialEq, Eq, Structural)]
pub enum Direction {
    Ascending,
    Descending,
    /// No suffix is rendered.
    Unspecified,
}

/// One ORDER BY entry.
pub struct OrderTerm {
    pub field: Field,
    pub direction: Direction,
}

impl OrderTerm {
    pub open spec fn sql(&self) -> Seq<char> {
        self.field.qualified() + match self.direction {
            Direction::Ascending => " ASC"@,
            Direction::Descending => " DESC"@,
            Direction::Unspecified => Seq::empty(),
        }
    }

    pub fn write_sql(&self, out: &mut String)
        ensures
            final(out)@ == old(out)@ + self.sql(),
    {
        self.field.write_qualified(out);
        match self.direction {
            Direction::Ascending => out.append(" ASC"),
            Direction::Descending => out.append(" DESC"),
            Direction::Unspecified => {},
        }
        assert(out@ =~= old(out)@ + self.sql());
    }
}

impl Field {
    /// Orders by this field, ascending.
    pub fn ascending(&self) -> (r: OrderTerm)
        ensures
            r == (OrderTerm { field: *self, direction: Direction::Ascending }),
    {
        OrderTerm { field: self.copied(), direction: Direction::Ascending }
    }

    /// Orders by this field, descending.
    pub fn descending(&self) -> (r: OrderTerm)
        ensures
            r == (OrderTerm { field: *self, direction: Direction::Descending }),
    {
        OrderTerm { field: self.copied(), direction: Direction::Descending }
    }

    /// Orders by this field, with no direction written.
    pub fn ordering(&self) -> (r: OrderTerm)
        ensures
            r == (OrderTerm { field: *self, direction: Direction::Unspecified }),
    {
        OrderTerm { field: self.copied(), direction: Direction::Unspecified }
    }
}

pub open spec fn fields_within(t: Table, fs: Seq<Field>) -> bool {
    forall|i: int| 0 <= i < fs.len() ==> t.owns(#[trigger] fs[i])
}

pub open spec fn terms_within(t: Table, ts: Seq<OrderTerm>) -> bool {
    forall|i: int| 0 <= i < ts.len() ==> t.owns(#[trigger] ts[i].field)
}

/// ` GROUP BY <f1>,<f2>,...` for a non-empty list, nothing otherwise.
pub open spec fn group_sql(fs: Seq<Field>) -> Seq<char> {
    if fs.len() == 0 {
        Seq::empty()
    } else {
        " GROUP BY "@ + comma_join(fs.map_values(|f: Field| f.qualified()))
    }
}

/// ` ORDER BY <t1>,<t2>,...` for a non-empty list, nothing otherwise.
pub open spec fn order_sql(ts: Seq<OrderTerm>) -> Seq<char> {
    if ts.len() == 0 {
        Seq::empty()
    } else {
        " ORDER BY "@ + comma_join(ts.map_values(|t: OrderTerm| t.sql()))
    }
}

/// ` LIMIT <n>` when a limit is set, nothing otherwise.
pub open spec fn limit_sql(limit: Option<usize>) -> Seq<char> {
    match limit {
        Some(n) => " LIMIT "@ + decimal(n as nat),
        None => Seq::empty(),
    }
}

fn check_fields(t: &Table, fs: &Vec<Field>) -> (r: bool)
    ensures
        r == fields_within(*t, fs@),
{
    let mut i: usize = 0;
    while i < fs.len()
        invariant
            i <= fs@.len(),
            forall|j: int| 0 <= j < i ==> t.owns(#[trigger] fs@[j]),
        decreases fs@.len() - i,
    {
        if !t.owns_field(&fs[i]) {
            return false;
        }
        i += 1;
    }
    true
}

fn check_terms(t: &Table, ts: &Vec<OrderTerm>) -> (r: bool)
    ensures
        r == terms_within(*t, ts@),
{
    let mut i: usize = 0;
    while i < ts.len()
        invariant
            i <= ts@.len(),
            forall|j: int| 0 <= j < i ==> t.owns(#[trigger] ts@[j].field),
        decreases ts@.len() - i,
    {
        if !t.owns_field(&ts[i].field) {
            return false;
        }
        i += 1;
    }
    true
}

fn write_fields(fs: &Vec<Field>, out: &mut String)
    ensures
        final(out)@ == old(out)@ + comma_join(fs@.map_values(|f: Field| f.qualified())),
{
    let ghost items = fs@.map_values(|f: Field| f.qualified());
    let mut i: usize = 0;
    while i < fs.len()
        invariant
            i <= fs@.len(),
            items == fs@.map_values(|f: Field| f.qualified()),
            out@ == old(out)@ + comma_join(items.take(i as int)),
        decreases fs@.len() - i,
    {
        proof {
            lemma_comma_join_step(items, i as int);
        }
        if i > 0 {
            out.push(',');
        }
        fs[i].write_qualified(out);
        assert(out@ =~= old(out)@ + comma_join(items.take(i + 1)));
        i += 1;
    }
    assert(items.take(fs@.len() as int) =~= items);
}

fn write_terms(ts: &Vec<OrderTerm>, out: &mut String)
    ensures
        final(out)@ == old(out)@ + comma_join(ts@.map_values(|t: OrderTerm| t.sql())),
{
    let ghost items = ts@.map_values(|t: OrderTerm| t.sql());
    let mut i: usize = 0;
    while i < ts.len()
        invariant
            i <= ts@.len(),
            items == ts@.map_values(|t: OrderTerm| t.sql()),
            out@ == old(out)@ + comma_join(items.take(i as int)),
        decreases ts@.len() - i,
    {
        proof {
            lemma_comma_join_step(items, i as int);
        }
        if i > 0 {
            out.push(',');
        }
        ts[i].write_sql(out);
        assert(out@ =~= old(out)@ + comma_join(items.take(i + 1)));
        i += 1;
    }
    assert(items.take(ts@.len() as int) =~= items);
}

/// A select statement: one slot per optional clause, rendered in a fixed
/// clause order whatever order the clauses were attached in.
pub struct SelectStatement {
    pub table: Table,
    pub projection: Projection,
    pub filter: Option<Predicate>,
    /// Empty when there is no GROUP BY clause.
    pub group: Vec<Field>,
    /// Empty when there is no ORDER BY clause.
    pub order: Vec<OrderTerm>,
    pub limit: Option<usize>,
}

impl SelectStatement {
    /// `SELECT <proj> FROM <table> [WHERE ..] [GROUP BY ..] [ORDER BY ..] [LIMIT n];`
    pub open spec fn sql(&self) -> Seq<char> {
        "SELECT "@ + self.projection.sql() + " FROM "@ + self.table.name@ + where_sql(self.filter)
            + group_sql(self.group@) + order_sql(self.order@) + limit_sql(self.limit) + seq![';']
    }

    /// A statement with only a projection: no clause attached yet.
    pub open spec fn is_bare(&self, t: Table, p: Projection) -> bool {
        &&& self.table == t
        &&& self.projection == p
        &&& self.filter is None
        &&& self.group@.len() == 0
        &&& self.order@.len() == 0
        &&& self.limit is None
    }

    /// Every field in the statement belongs to its table.
    pub open spec fn well_formed(&self) -> bool {
        &&& self.projection.within(self.table)
        &&& (self.filter matches Some(p) ==> p.within(self.table))
        &&& fields_within(self.table, self.group@)
        &&& terms_within(self.table, self.order@)
    }

    pub open spec fn with_filter(self, p: Predicate) -> SelectStatement {
        SelectStatement { filter: Some(conjoin(self.filter, p)), ..self }
    }

    pub open spec fn with_group(self, fs: Vec<Field>) -> SelectStatement {
        SelectStatement { group: fs, ..self }
    }

    pub open spec fn with_order(self, ts: Vec<OrderTerm>) -> SelectStatement {
        SelectStatement { order: ts, ..self }
    }

    pub open spec fn with_limit(self, n: usize) -> SelectStatement {
        SelectStatement { limit: Some(n), ..self }
    }

    fn bare(table: Table, projection: Projection) -> (r: SelectStatement)
        ensures
            r.is_bare(table, projection),
    {
        SelectStatement {
            table,
            projection,
            filter: None,
            group: Vec::new(),
            order: Vec::new(),
            limit: None,
        }
    }

    /// Attaches a filter, joined with `AND` to any filter already present.
    /// Refused when the predicate compares a field of another table.
    pub fn filter(self, p: Predicate) -> (r: Result<SelectStatement, QueryError>)
        ensures
            p.within(self.table) ==> r == Ok::<SelectStatement, QueryError>(self.with_filter(p)),
            !p.within(self.table) ==> r == Err::<SelectStatement, QueryError>(
                QueryError::ForeignField,
            ),
            self.well_formed() ==> (r matches Ok(s) ==> s.well_formed()),
    {
        if !p.check_within(&self.table) {
            return Err(QueryError::ForeignField);
        }
        let SelectStatement { table, projection, filter, group, order, limit } = self;
        let filter = Some(conjoin_filter(filter, p));
        Ok(SelectStatement { table, projection, filter, group, order, limit })
    }

    /// Sets the GROUP BY list, in the order given.
    pub fn group_by(self, fields: Vec<Field>) -> (r: Result<SelectStatement, QueryError>)
        ensures
            fields@.len() == 0 ==> r == Err::<SelectStatement, QueryError>(QueryError::EmptyList),
            fields@.len() > 0 && !fields_within(self.table, fields@) ==> r == Err::<
                SelectStatement,
                QueryError,
            >(QueryError::ForeignField),
            fields@.len() > 0 && fields_within(self.table, fields@) ==> r == Ok::<
                SelectStatement,
                QueryError,
            >(self.with_group(fields)),
            self.well_formed() ==> (r matches Ok(s) ==> s.well_formed()),
    {
        if fields.len() == 0 {
            return Err(QueryError::EmptyList);
        }
        if !check_fields(&self.table, &fields) {
            return Err(QueryError::ForeignField);
        }
        let SelectStatement { table, projection, filter, group, order, limit } = self;
        Ok(SelectStatement { table, projection, filter, group: fields, order, limit })
    }

    /// Sets the ORDER BY list, in the order given.
    pub fn order_by(self, terms: Vec<OrderTerm>) -> (r: Result<SelectStatement, QueryError>)
        ensures
            terms@.len() == 0 ==> r == Err::<SelectStatement, QueryError>(QueryError::EmptyList),
            terms@.len() > 0 && !terms_within(self.table, terms@) ==> r == Err::<
                SelectStatement,
                QueryError,
            >(QueryError::ForeignField),
            terms@.len() > 0 && terms_within(self.table, terms@) ==> r == Ok::<
                SelectStatement,
                QueryError,
            >(self.with_order(terms)),
            self.well_formed() ==> (r matches Ok(s) ==> s.well_formed()),
    {
        if terms.len() == 0 {
            return Err(QueryError::EmptyList);
        }
        if !check_terms(&self.table, &terms) {
            return Err(QueryError::ForeignField);
        }
        let SelectStatement { table, projection, filter, group, order, limit } = self;
        Ok(SelectStatement { table, projection, filter, group, order: terms, limit })
    }

    /// Sets the row limit.
    pub fn limit(self, n: usize) -> (r: SelectStatement)
        ensures
            r == self.with_limit(n),
            self.well_formed() ==> r.well_formed(),
    {
        let SelectStatement { table, projection, filter, group, order, limit } = self;
        SelectStatement { table, projection, filter, group, order, limit: Some(n) }
    }

    /// `SELECT <proj> FROM <table>`, the part present in every select.
    pub open spec fn head_sql(&self) -> Seq<char> {
        "SELECT "@ + self.projection.sql() + " FROM "@ + self.table.name@
    }

    /// The clauses after the table name, without the terminating `;`.
    pub open spec fn clauses_sql(&self) -> Seq<char> {
        where_sql(self.filter) + group_sql(self.group@) + order_sql(self.order@) + limit_sql(
            self.limit,
        )
    }

    proof fn lemma_sql_parts(&self)
        ensures
            self.sql() == self.head_sql() + self.clauses_sql() + seq![';'],
    {
        assert(self.sql() =~= self.head_sql() + self.clauses_sql() + seq![';']);
    }

    fn write_head(&self, out: &mut String)
        ensures
            final(out)@ == old(out)@ + self.head_sql(),
    {
        out.append("SELECT ");
        self.projection.write_sql(out);
        out.append(" FROM ");
        out.append(self.table.name.as_str());
        assert(out@ =~= old(out)@ + self.head_sql());
    }

    fn write_clauses(&self, out: &mut String)
        ensures
            final(out)@ == old(out)@ + self.clauses_sql(),
    {
        write_where(&self.filter, out);
        let ghost s1 = out@;
        if self.group.len() > 0 {
            out.append(" GROUP BY ");
            write_fields(&self.group, out);
        }
        assert(out@ =~= s1 + group_sql(self.group@));
        let ghost s2 = out@;
        if self.order.len() > 0 {
            out.append(" ORDER BY ");
            write_terms(&self.order, out);
        }
        assert(out@ =~= s2 + order_sql(self.order@));
        let ghost s3 = out@;
        if let Some(n) = self.limit {
            out.append(" LIMIT ");
            write_decimal(n as u64, out);
        }
        assert(out@ =~= s3 + limit_sql(self.limit));
        assert(out@ =~= old(out)@ + self.clauses_sql());
    }

    pub fn write_sql(&self, out: &mut String)
        ensures
            final(out)@ == old(out)@ + self.sql(),
    {
        self.write_head(out);
        self.write_clauses(out);
        out.push(';');
        proof {
            self.lemma_sql_parts();
        }
        assert(out@ =~= old(out)@ + self.sql());
    }
}

impl Table {
    /// `SELECT * FROM <table>`
    pub fn select(self) -> (r: SelectStatement)
        ensures
            r.is_bare(self, Projection::Wildcard),
            r.well_formed(),
    {
        SelectStatement::bare(self, Projection::Wildcard)
    }

    /// A select statement with the given projection; refused when the
    /// projection names a field of another table.
    pub fn query(self, projection: Projection) -> (r: Result<SelectStatement, QueryError>)
        ensures
            projection.within(self) ==> (r matches Ok(s) && s.is_bare(self, projection)
                && s.well_formed()),
            !projection.within(self) ==> r == Err::<SelectStatement, QueryError>(
                QueryError::ForeignField,
            ),
    {
        if !projection.check_within(&self) {
            return Err(QueryError::ForeignField);
        }
        Ok(SelectStatement::bare(self, projection))
    }

    /// `SELECT COUNT(*)` or `SELECT COUNT(<field>)`.
    pub fn count(self, field: Option<Field>) -> (r: Result<SelectStatement, QueryError>)
        ensures
            Projection::Count(field).within(self) ==> (r matches Ok(s) && s.is_bare(
                self,
                Projection::Count(field),
            ) && s.well_formed()),
            !Projection::Count(field).within(self) ==> r == Err::<SelectStatement, QueryError>(
                QueryError::ForeignField,
            ),
    {
        self.query(Projection::Count(field))
    }
}

} // verus!
