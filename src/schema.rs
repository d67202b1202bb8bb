use vstd::prelude::*;
use vstd::string::*;

verus! {

/// Ways in which a statement can be refused while it is being built.
#[derive(Debug, PartialEq, Eq, Structural)]
pub enum QueryError {
    /// A field that does not belong to the statement's table.
    ForeignField,
    /// An empty list where at least one entry is needed
    /// (grouping, ordering, an assignment list, an inserted row).
    EmptyList,
    /// A bulk insert with no rows.
    EmptyRows,
    /// Rows of a bulk insert whose columns differ.
    MismatchedRows,
    /// A row that names the same column twice.
    DuplicateColumn,
}

/// A named relation with an ordered list of field names.
pub struct Table {
    pub name: String,
    pub fields: Vec<String>,
}

/// A named column of one table.
pub struct Field {
    pub table: String,
    pub name: String,
}

/// The character sequences of a list of strings.
pub open spec fn names_of(v: Seq<String>) -> Seq<Seq<char>> {
    v.map_values(|s: String| s@)
}

impl Field {
    /// `<table>.<field>`
    pub open spec fn qualified(&self) -> Seq<char> {
        self.table@ + seq!['.'] + self.name@
    }

    pub fn copied(&self) -> (r: Field)
        ensures
            r == *self,
    {
        Field { table: self.table.clone(), name: self.name.clone() }
    }

    pub fn write_qualified(&self, out: &mut String)
        ensures
            final(out)@ == old(out)@ + self.qualified(),
    {
        out.append(self.table.as_str());
        out.push('.');
        out.append(self.name.as_str());
        assert(out@ =~= old(out)@ + self.qualified());
    }

    pub fn write_name(&self, out: &mut String)
        ensures
            final(out)@ == old(out)@ + self.name@,
    {
        out.append(self.name.as_str());
    }
}

impl Table {
    pub open spec fn field_names(&self) -> Seq<Seq<char>> {
        names_of(self.fields@)
    }

    /// The field is one of this table's.
    pub open spec fn owns(&self, f: Field) -> bool {
        f.table@ == self.name@ && self.field_names().contains(f.name@)
    }

    pub fn new(name: String, fields: Vec<String>) -> (r: Table)
        ensures
            r.name == name,
            r.fields == fields,
    {
        Table { name, fields }
    }

    fn has_name(&self, name: &String) -> (r: bool)
        ensures
            r == self.field_names().contains(name@),
    {
        let mut i: usize = 0;
        while i < self.fields.len()
            invariant
                i <= self.fields@.len(),
                forall|j: int| 0 <= j < i ==> self.fields@[j]@ != name@,
            decreases self.fields@.len() - i,
        {
            if self.fields[i] == *name {
                assert(self.field_names()[i as int] == name@);
                return true;
            }
            i += 1;
        }
        assert forall|j: int| 0 <= j < self.field_names().len() implies self.field_names()[j]
            != name@ by {
            assert(self.field_names()[j] == self.fields@[j]@);
        }
        false
    }

    /// Looks up a field of this table by name.
    pub fn field(&self, name: &str) -> (r: Option<Field>)
        ensures
            r is Some <==> self.field_names().contains(name@),
            r matches Some(f) ==> f.table@ == self.name@ && f.name@ == name@,
    {
        let name = String::from_str(name);
        if self.has_name(&name) {
            Some(Field { table: self.name.clone(), name })
        } else {
            None
        }
    }

    /// Whether the field belongs to this table.
    pub fn owns_field(&self, f: &Field) -> (r: bool)
        ensures
            r == self.owns(*f),
    {
        f.table == self.name && self.has_name(&f.name)
    }
}

} // verus!
