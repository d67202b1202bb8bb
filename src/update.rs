use vstd::prelude::*;
use vstd::string::*;
use crate::predicate::{Assignment, Assignments, Predicate, conjoin, conjoin_filter, where_sql, write_where};
use crate::schema::{QueryError, Table};
use crate::text::{comma_join, lemma_comma_join_step};

verus! {

/// `UPDATE <table> SET <assignments> [WHERE <predicate>];`
pub struct UpdateStatement {
    pub table: Table,
    /// At least one assignment when built by `Table::update`
    /// (see `well_formed`).
    pub set: Assignments,
    pub filter: Option<Predicate>,
}

impl UpdateStatement {
    /// `UPDATE <table> SET <t.c1> = <v1>,<t.c2> = <v2>,... [WHERE ..];`
    pub open spec fn sql(&self) -> Seq<char> {
        "UPDATE "@ + self.table.name@ + " SET "@ + comma_join(self.set.entries_sql()) + where_sql(
            self.filter,
        ) + seq![';']
    }

    /// A non-empty assignment list, and every field in the statement
    /// belongs to its table.
    pub open spec fn well_formed(&self) -> bool {
        &&& self.set.items@.len() > 0
        &&& self.set.within(self.table)
        &&& (self.filter matches Some(p) ==> p.within(self.table))
    }

    pub open spec fn with_filter(self, p: Predicate) -> UpdateStatement {
        UpdateStatement { filter: Some(conjoin(self.filter, p)), ..self }
    }

    /// Attaches a filter, joined with `AND` to any filter already present.
    /// Refused when the predicate compares a field of another table.
    pub fn filter(self, p: Predicate) -> (r: Result<UpdateStatement, QueryError>)
        ensures
            p.within(self.table) ==> r == Ok::<UpdateStatement, QueryError>(self.with_filter(p)),
            !p.within(self.table) ==> r == Err::<UpdateStatement, QueryError>(
                QueryError::ForeignField,
            ),
            self.well_formed() ==> (r matches Ok(s) ==> s.well_formed()),
    {
        if !p.check_within(&self.table) {
            return Err(QueryError::ForeignField);
        }
        let UpdateStatement { table, set, filter } = self;
        Ok(UpdateStatement { table, set, filter: Some(conjoin_filter(filter, p)) })
    }

    pub fn write_sql(&self, out: &mut String)
        ensures
            final(out)@ == old(out)@ + self.sql(),
    {
        out.append("UPDATE ");
        out.append(self.table.name.as_str());
        out.append(" SET ");
        let ghost s1 = out@;
        let ghost items = self.set.entries_sql();
        let mut i: usize = 0;
        while i < self.set.items.len()
            invariant
                i <= self.set.items@.len(),
                items == self.set.entries_sql(),
                out@ == s1 + comma_join(items.take(i as int)),
            decreases self.set.items@.len() - i,
        {
            proof {
                lemma_comma_join_step(items, i as int);
            }
            if i > 0 {
                out.push(',');
            }
            let a: &Assignment = &self.set.items[i];
            a.field.write_qualified(out);
            out.append(" = ");
            a.value.write_sql(out);
            proof {
                reveal_strlit(" = ");
                reveal_strlit("=");
            }
            assert(items[i as int] == a.sql());
            assert(out@ =~= s1 + comma_join(items.take(i + 1)));
            i += 1;
        }
        assert(items.take(self.set.items@.len() as int) =~= items);
        write_where(&self.filter, out);
        out.push(';');
        assert(out@ =~= old(out)@ + self.sql());
    }
}

impl Table {
    /// An update of the listed fields. Refused when the list is empty or
    /// names a field of another table.
    pub fn update(self, set: Assignments) -> (r: Result<UpdateStatement, QueryError>)
        ensures
            set.items@.len() == 0 ==> r == Err::<UpdateStatement, QueryError>(QueryError::EmptyList),
            set.items@.len() > 0 && !set.within(self) ==> r == Err::<UpdateStatement, QueryError>(
                QueryError::ForeignField,
            ),
            set.items@.len() > 0 && set.within(self) ==> r == Ok::<UpdateStatement, QueryError>(
                UpdateStatement { table: self, set, filter: None },
            ),
            r matches Ok(s) ==> s.well_formed(),
    {
        if set.items.len() == 0 {
            return Err(QueryError::EmptyList);
        }
        if !set.check_within(&self) {
            return Err(QueryError::ForeignField);
        }
        Ok(UpdateStatement { table: self, set, filter: None })
    }
}

} // verus!
