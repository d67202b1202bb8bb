use vstd::prelude::*;
use vstd::string::*;
use crate::predicate::{Predicate, conjoin, conjoin_filter, where_sql, write_where};
use crate::schema::{QueryError, Table};

verus! {

/// `DELETE FROM <table> [WHERE <predicate>];`
pub struct DeleteStatement {
    pub table: Table,
    pub filter: Option<Predicate>,
}

impl DeleteStatement {
    pub open spec fn sql(&self) -> Seq<char> {
        "DELETE FROM "@ + self.table.name@ + where_sql(self.filter) + seq![';']
    }

    /// Every field in the statement belongs to its table.
    pub open spec fn well_formed(&self) -> bool {
        self.filter matches Some(p) ==> p.within(self.table)
    }

    pub open spec fn with_filter(self, p: Predicate) -> DeleteStatement {
        DeleteStatement { filter: Some(conjoin(self.filter, p)), ..self }
    }

    /// Attaches a filter, joined with `AND` to any filter already present.
    /// Refused when the predicate compares a field of another table.
    pub fn filter(self, p: Predicate) -> (r: Result<DeleteStatement, QueryError>)
        ensures
            p.within(self.table) ==> r == Ok::<DeleteStatement, QueryError>(self.with_filter(p)),
            !p.within(self.table) ==> r == Err::<DeleteStatement, QueryError>(
                QueryError::ForeignField,
            ),
            self.well_formed() ==> (r matches Ok(s) ==> s.well_formed()),
    {
        if !p.check_within(&self.table) {
            return Err(QueryError::ForeignField);
        }
        let DeleteStatement { table, filter } = self;
        Ok(DeleteStatement { table, filter: Some(conjoin_filter(filter, p)) })
    }

    pub fn write_sql(&self, out: &mut String)
        ensures
            final(out)@ == old(out)@ + self.sql(),
    {
        out.append("DELETE FROM ");
        out.append(self.table.name.as_str());
        write_where(&self.filter, out);
        out.push(';');
        assert(out@ =~= old(out)@ + self.sql());
    }
}

impl Table {
    /// Deletes every row, until a filter is attached.
    pub fn delete(self) -> (r: DeleteStatement)
        ensures
            r == (DeleteStatement { table: self, filter: None }),
            r.well_formed(),
    {
        DeleteStatement { table: self, filter: None }
    }
}

} // verus!
