use vstd::prelude::*;
use crate::delete::DeleteStatement;
use crate::insert::InsertStatement;
use crate::select::SelectStatement;
use crate::update::UpdateStatement;

verus! {

/// A complete statement that renders to SQL text ending in `;`.
/// Rendering is total and leaves the statement unchanged.
pub trait Query {
    /// The text the statement renders to.
    spec fn rendered(&self) -> Seq<char>;

    fn to_sql(&self) -> (r: String)
        ensures
            r@ == self.rendered(),
    ;
}

impl Query for SelectStatement {
    open spec fn rendered(&self) -> Seq<char> {
        self.sql()
    }

    fn to_sql(&self) -> (r: String) {
        let mut out = String::new();
        self.write_sql(&mut out);
        assert(out@ =~= self.sql());
        out
    }
}

impl Query for InsertStatement {
    open spec fn rendered(&self) -> Seq<char> {
        self.sql()
    }

    fn to_sql(&self) -> (r: String) {
        let mut out = String::new();
        self.write_sql(&mut out);
        assert(out@ =~= self.sql());
        out
    }
}

impl Query for UpdateStatement {
    open spec fn rendered(&self) -> Seq<char> {
        self.sql()
    }

    fn to_sql(&self) -> (r: String) {
        let mut out = String::new();
        self.write_sql(&mut out);
        assert(out@ =~= self.sql());
        out
    }
}

impl Query for DeleteStatement {
    open spec fn rendered(&self) -> Seq<char> {
        self.sql()
    }

    fn to_sql(&self) -> (r: String) {
        let mut out = String::new();
        self.write_sql(&mut out);
        assert(out@ =~= self.sql());
        out
    }
}

} // verus!
