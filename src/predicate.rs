use vstd::prelude::*;
use vstd::string::*;
use crate::literal::Literal;
use crate::schema::{Field, Table};

verus! {

/// A comparison operator.
#[derive(Debug, Clone, Copy, PartialEq, Eq, Structural)]
pub enum CmpOp {
    Eq,
    Neq,
    Lt,
    Le,
    Gt,
    Ge,
}

impl CmpOp {
    pub open spec fn sql(&self) -> Seq<char> {
        match self {
            CmpOp::Eq => "="@,
            CmpOp::Neq => "!="@,
            CmpOp::Lt => "<"@,
            CmpOp::Le => "<="@,
            CmpOp::Gt => ">"@,
            CmpOp::Ge => ">="@,
        }
    }

    pub fn write_sql(&self, out: &mut String)
        ensures
            final(out)@ == old(out)@ + self.sql(),
    {
        match self {
            CmpOp::Eq => out.append("="),
            CmpOp::Neq => out.append("!="),
            CmpOp::Lt => out.append("<"),
            CmpOp::Le => out.append("<="),
            CmpOp::Gt => out.append(">"),
            CmpOp::Ge => out.append(">="),
        }
    }
}

/// A boolean expression: comparisons combined by `AND` / `OR` in the order
/// they were chained. Rendering inserts no parentheses.
pub enum Predicate {
    Compare { field: Field, op: CmpOp, value: Literal },
    And(Box<Predicate>, Box<Predicate>),
    Or(Box<Predicate>, Box<Predicate>),
}

/// `<table>.<field> <op> <literal>`
pub open spec fn comparison_sql(field: Field, op: CmpOp, value: Literal) -> Seq<char> {
    field.qualified() + seq![' '] + op.sql() + seq![' '] + value.sql()
}

impl Predicate {
    /// In-order rendering of the tree.
    pub open spec fn sql(&self) -> Seq<char>
        decreases self,
    {
        match self {
            Predicate::Compare { field, op, value } => comparison_sql(*field, *op, *value),
            Predicate::And(l, r) => l.sql() + " AND "@ + r.sql(),
            Predicate::Or(l, r) => l.sql() + " OR "@ + r.sql(),
        }
    }

    /// Every field compared in the tree belongs to the table.
    pub open spec fn within(&self, t: Table) -> bool
        decreases self,
    {
        match self {
            Predicate::Compare { field, .. } => t.owns(*field),
            Predicate::And(l, r) => l.within(t) && r.within(t),
            Predicate::Or(l, r) => l.within(t) && r.within(t),
        }
    }

    pub fn compare(field: Field, op: CmpOp, value: Literal) -> (r: Predicate)
        ensures
            r == (Predicate::Compare { field, op, value }),
    {
        Predicate::Compare { field, op, value }
    }

    /// Conjunction: `self AND other`.
    pub fn and(self, other: Predicate) -> (r: Predicate)
        ensures
            r == Predicate::And(Box::new(self), Box::new(other)),
            r.sql() == self.sql() + " AND "@ + other.sql(),
    {
        Predicate::And(Box::new(self), Box::new(other))
    }

    /// Disjunction: `self OR other`.
    pub fn or(self, other: Predicate) -> (r: Predicate)
        ensures
            r == Predicate::Or(Box::new(self), Box::new(other)),
            r.sql() == self.sql() + " OR "@ + other.sql(),
    {
        Predicate::Or(Box::new(self), Box::new(other))
    }

    /// Whether every field compared in the tree belongs to the table.
    pub fn check_within(&self, t: &Table) -> (r: bool)
        ensures
            r == self.within(*t),
        decreases self,
    {
        match self {
            Predicate::Compare { field, .. } => t.owns_field(field),
            Predicate::And(l, r) => l.check_within(t) && r.check_within(t),
            Predicate::Or(l, r) => l.check_within(t) && r.check_within(t),
        }
    }

    /// Appends the predicate's SQL text.
    pub fn write_sql(&self, out: &mut String)
        ensures
            final(out)@ == old(out)@ + self.sql(),
        decreases self,
    {
        match self {
            Predicate::Compare { field, op, value } => {
                field.write_qualified(out);
                out.push(' ');
                op.write_sql(out);
                out.push(' ');
                value.write_sql(out);
            },
            Predicate::And(l, r) => {
                l.write_sql(out);
                out.append(" AND ");
                r.write_sql(out);
            },
            Predicate::Or(l, r) => {
                l.write_sql(out);
                out.append(" OR ");
                r.write_sql(out);
            },
        }
        assert(out@ =~= old(out)@ + self.sql());
    }
}

impl Field {
    /// `self = value`
    pub fn eq(&self, value: Literal) -> (r: Predicate)
        ensures
            r == (Predicate::Compare { field: *self, op: CmpOp::Eq, value }),
    {
        Predicate::Compare { field: self.copied(), op: CmpOp::Eq, value }
    }

    /// `self != value`
    pub fn neq(&self, value: Literal) -> (r: Predicate)
        ensures
            r == (Predicate::Compare { field: *self, op: CmpOp::Neq, value }),
    {
        Predicate::Compare { field: self.copied(), op: CmpOp::Neq, value }
    }

    /// `self < value`
    pub fn lt(&self, value: Literal) -> (r: Predicate)
        ensures
            r == (Predicate::Compare { field: *self, op: CmpOp::Lt, value }),
    {
        Predicate::Compare { field: self.copied(), op: CmpOp::Lt, value }
    }

    /// `self <= value`
    pub fn le(&self, value: Literal) -> (r: Predicate)
        ensures
            r == (Predicate::Compare { field: *self, op: CmpOp::Le, value }),
    {
        Predicate::Compare { field: self.copied(), op: CmpOp::Le, value }
    }

    /// `self > value`
    pub fn gt(&self, value: Literal) -> (r: Predicate)
        ensures
            r == (Predicate::Compare { field: *self, op: CmpOp::Gt, value }),
    {
        Predicate::Compare { field: self.copied(), op: CmpOp::Gt, value }
    }

    /// `self >= value`
    pub fn ge(&self, value: Literal) -> (r: Predicate)
        ensures
            r == (Predicate::Compare { field: *self, op: CmpOp::Ge, value }),
    {
        Predicate::Compare { field: self.copied(), op: CmpOp::Ge, value }
    }

    /// A one-entry assignment list `self = value`.
    pub fn set(&self, value: Literal) -> (r: Assignments)
        ensures
            r.items@ == seq![Assignment { field: *self, value }],
    {
        let mut items: Vec<Assignment> = Vec::new();
        items.push(Assignment { field: self.copied(), value });
        Assignments { items }
    }
}

/// One `field = literal` entry of an assignment list.
pub struct Assignment {
    pub field: Field,
    pub value: Literal,
}

/// An ordered list of assignments, as in an UPDATE's SET clause.
/// Chaining with `and` appends; it is not a logical conjunction.
pub struct Assignments {
    pub items: Vec<Assignment>,
}

impl Assignment {
    /// `<table>.<field> = <literal>`
    pub open spec fn sql(&self) -> Seq<char> {
        comparison_sql(self.field, CmpOp::Eq, self.value)
    }
}

impl Assignments {
    pub open spec fn entries_sql(&self) -> Seq<Seq<char>> {
        self.items@.map_values(|a: Assignment| a.sql())
    }

    /// Every assigned field belongs to the table.
    pub open spec fn within(&self, t: Table) -> bool {
        forall|i: int| 0 <= i < self.items@.len() ==> t.owns(#[trigger] self.items@[i].field)
    }

    /// Appends the other list's entries after this list's.
    pub fn and(self, other: Assignments) -> (r: Assignments)
        ensures
            r.items@ == self.items@ + other.items@,
    {
        let mut items = self.items;
        let mut rest = other.items;
        items.append(&mut rest);
        Assignments { items }
    }

    pub fn check_within(&self, t: &Table) -> (r: bool)
        ensures
            r == self.within(*t),
    {
        let mut i: usize = 0;
        while i < self.items.len()
            invariant
                i <= self.items@.len(),
                forall|j: int| 0 <= j < i ==> t.owns(#[trigger] self.items@[j].field),
            decreases self.items@.len() - i,
        {
            if !t.owns_field(&self.items[i].field) {
                return false;
            }
            i += 1;
        }
        true
    }
}

} // verus!

verus! {

/// ` WHERE <predicate>` when a filter is present, nothing otherwise.
pub open spec fn where_sql(filter: Option<Predicate>) -> Seq<char> {
    match filter {
        Some(p) => " WHERE "@ + p.sql(),
        None => Seq::empty(),
    }
}

/// A new filter `p` joined to an existing one with `AND`.
pub open spec fn conjoin(existing: Option<Predicate>, p: Predicate) -> Predicate {
    match existing {
        Some(q) => Predicate::And(Box::new(q), Box::new(p)),
        None => p,
    }
}

pub fn write_where(filter: &Option<Predicate>, out: &mut String)
    ensures
        final(out)@ == old(out)@ + where_sql(*filter),
{
    match filter {
        Some(p) => {
            out.append(" WHERE ");
            p.write_sql(out);
            assert(out@ =~= old(out)@ + where_sql(*filter));
        },
        None => {
            assert(out@ =~= old(out)@ + where_sql(*filter));
        },
    }
}

/// Joins `p` to an existing filter with `AND`, or makes it the filter.
pub fn conjoin_filter(existing: Option<Predicate>, p: Predicate) -> (r: Predicate)
    ensures
        r == conjoin(existing, p),
{
    match existing {
        Some(q) => q.and(p),
        None => p,
    }
}

} // verus!
