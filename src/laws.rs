//! Properties that relate several operations of the library.
use vstd::prelude::*;
use crate::insert::{InsertStatement, Row, lemma_lookup_none, lemma_lookup_some, lookup, placed};
use crate::predicate::Assignment;
use crate::literal::Literal;
use crate::predicate::{CmpOp, Predicate};
use crate::schema::{Field, Table};
use crate::select::{OrderTerm, Projection, SelectStatement};
use crate::text::comma_join;

verus! {

broadcast use vstd::seq_lib::group_seq_properties;

/// Comma-joining keeps every item, in the order given: the first item, then
/// each later item preceded by a single comma.
pub proof fn law_comma_join_in_order(items: Seq<Seq<char>>)
    requires
        items.len() >= 1,
    ensures
        comma_join(items) == items[0] + items.skip(1).map_values(
            |x: Seq<char>| seq![','] + x,
        ).flatten(),
    decreases items.len(),
{
    let sep = |x: Seq<char>| seq![','] + x;
    if items.len() == 1 {
        assert(items.skip(1).map_values(sep) =~= Seq::<Seq<char>>::empty());
        assert(items[0] + Seq::<Seq<char>>::empty().flatten() =~= items[0]);
    } else {
        let init = items.drop_last();
        law_comma_join_in_order(init);
        assert(items.skip(1).map_values(sep) =~= init.skip(1).map_values(sep).push(
            sep(items.last()),
        ));
        init.skip(1).map_values(sep).lemma_flatten_push(sep(items.last()));
        assert(init[0] == items[0]);
        assert(comma_join(items) =~= items[0] + items.skip(1).map_values(sep).flatten());
    }
}

/// Selecting everything from a table and filtering on `field = value`, for
/// a field of that table, is accepted and renders
/// `SELECT * FROM <t> WHERE <t>.<field> = <value>;`.
pub proof fn law_select_filter_eq(s: SelectStatement, t: Table, f: Field, v: Literal)
    requires
        s.is_bare(t, Projection::Wildcard),
        t.owns(f),
    ensures
        (Predicate::Compare { field: f, op: CmpOp::Eq, value: v }).within(t),
        s.with_filter(Predicate::Compare { field: f, op: CmpOp::Eq, value: v }).sql() == "SELECT * FROM "@
            + t.name@ + " WHERE "@ + t.name@ + "."@ + f.name@ + " = "@ + v.sql() + ";"@,
{
    reveal_strlit(".");
    reveal_strlit(" = ");
    reveal_strlit("=");
    reveal_strlit(";");
    reveal_strlit("SELECT * FROM ");
    reveal_strlit("SELECT ");
    reveal_strlit("*");
    reveal_strlit(" FROM ");
    let p = Predicate::Compare { field: f, op: CmpOp::Eq, value: v };
    let r = s.with_filter(p);
    assert(r.filter == Some(p));
    assert(r.sql() =~= "SELECT * FROM "@ + t.name@ + " WHERE "@ + t.name@ + "."@ + f.name@ + " = "@
        + v.sql() + ";"@);
}

/// `first`, then each `(is_and, q)` of `rest` in turn joined on the right
/// with `and` (when `is_and`) or `or`.
pub open spec fn chain(first: Predicate, rest: Seq<(bool, Predicate)>) -> Predicate
    decreases rest.len(),
{
    if rest.len() == 0 {
        first
    } else {
        let head = chain(first, rest.drop_last());
        let (is_and, q) = rest.last();
        if is_and {
            Predicate::And(Box::new(head), Box::new(q))
        } else {
            Predicate::Or(Box::new(head), Box::new(q))
        }
    }
}

pub open spec fn connective(is_and: bool) -> Seq<char> {
    if is_and {
        " AND "@
    } else {
        " OR "@
    }
}

/// A chain of `and` / `or` renders as its operands in order, each after the
/// first preceded by its connective, with no parentheses added.
pub proof fn law_chain_render(first: Predicate, rest: Seq<(bool, Predicate)>)
    ensures
        chain(first, rest).sql() == first.sql() + rest.map_values(
            |c: (bool, Predicate)| connective(c.0) + c.1.sql(),
        ).flatten(),
    decreases rest.len(),
{
    let piece = |c: (bool, Predicate)| connective(c.0) + c.1.sql();
    if rest.len() == 0 {
        assert(rest.map_values(piece) =~= Seq::<Seq<char>>::empty());
        assert(first.sql() + Seq::<Seq<char>>::empty().flatten() =~= first.sql());
    } else {
        let init = rest.drop_last();
        law_chain_render(first, init);
        assert(rest.map_values(piece) =~= init.map_values(piece).push(piece(rest.last())));
        init.map_values(piece).lemma_flatten_push(piece(rest.last()));
        assert(chain(first, rest).sql() =~= first.sql() + rest.map_values(piece).flatten());
    }
}

/// Clauses attached to a select statement give the same statement, and so
/// the same text, whatever order they are attached in.
pub proof fn law_clause_order_free(
    s: SelectStatement,
    p: Predicate,
    fs: Vec<Field>,
    ts: Vec<OrderTerm>,
    n: usize,
)
    ensures
        s.with_order(ts).with_limit(n) == s.with_limit(n).with_order(ts),
        s.with_order(ts).with_limit(n).sql() == s.with_limit(n).with_order(ts).sql(),
        s.with_group(fs).with_order(ts) == s.with_order(ts).with_group(fs),
        s.with_group(fs).with_limit(n) == s.with_limit(n).with_group(fs),
        s.with_filter(p).with_group(fs) == s.with_group(fs).with_filter(p),
        s.with_filter(p).with_order(ts) == s.with_order(ts).with_filter(p),
        s.with_filter(p).with_limit(n) == s.with_limit(n).with_filter(p),
{
}

/// Grouping a plain select by k >= 1 fields renders the qualified fields
/// comma-joined in the order given.
pub proof fn law_group_by_render(s: SelectStatement, t: Table, fs: Vec<Field>)
    requires
        s.is_bare(t, Projection::Wildcard),
        fs@.len() >= 1,
    ensures
        s.with_group(fs).sql() == "SELECT * FROM "@ + t.name@ + " GROUP BY "@ + fs@[0].qualified()
            + fs@.skip(1).map_values(|f: Field| seq![','] + f.qualified()).flatten() + ";"@,
{
    reveal_strlit(";");
    reveal_strlit("SELECT * FROM ");
    reveal_strlit("SELECT ");
    reveal_strlit("*");
    reveal_strlit(" FROM ");
    let items = fs@.map_values(|f: Field| f.qualified());
    law_comma_join_in_order(items);
    assert(items.skip(1).map_values(|x: Seq<char>| seq![','] + x) =~= fs@.skip(1).map_values(
        |f: Field| seq![','] + f.qualified(),
    ));
    let r = s.with_group(fs);
    assert(r.sql() =~= "SELECT * FROM "@ + t.name@ + " GROUP BY "@ + fs@[0].qualified()
        + fs@.skip(1).map_values(|f: Field| seq![','] + f.qualified()).flatten() + ";"@);
}

/// The entry for a column, when there is one, is an entry for that column.
pub proof fn lemma_lookup_name(vals: Seq<Assignment>, n: Seq<char>)
    ensures
        lookup(vals, n) matches Some(a) ==> a.field.name@ == n,
    decreases vals.len(),
{
    if vals.len() > 0 && vals[0].field.name@ != n {
        lemma_lookup_name(vals.drop_first(), n);
    }
}

/// Rows over the same column set render the same column list.
pub proof fn law_same_columns_same_header(t: Table, r1: Row, r2: Row)
    requires
        r1.columns().to_set() == r2.columns().to_set(),
    ensures
        r1.columns_sql(t) == r2.columns_sql(t),
{
    lemma_placed_names(t.field_names(), r1.values@, r2.values@);
}

proof fn lemma_placed_names(names: Seq<Seq<char>>, v1: Seq<Assignment>, v2: Seq<Assignment>)
    requires
        v1.map_values(|a: Assignment| a.field.name@).to_set() == v2.map_values(
            |a: Assignment| a.field.name@,
        ).to_set(),
    ensures
        placed(names, v1).map_values(|a: Assignment| a.field.name@) == placed(
            names,
            v2,
        ).map_values(|a: Assignment| a.field.name@),
    decreases names.len(),
{
    let name = |a: Assignment| a.field.name@;
    if names.len() > 0 {
        let n = names.last();
        lemma_placed_names(names.drop_last(), v1, v2);
        lemma_lookup_name(v1, n);
        lemma_lookup_name(v2, n);
        let i1 = placed(names.drop_last(), v1);
        let i2 = placed(names.drop_last(), v2);
        if lookup(v1, n) is Some {
            lemma_lookup_some(v1, n);
            assert(v1.map_values(name).to_set().contains(n));
            if lookup(v2, n) is None {
                lemma_lookup_none(v2, n);
                assert(!v2.map_values(name).to_set().contains(n));
            }
            assert(i1.push(lookup(v1, n).unwrap()).map_values(name) =~= i1.map_values(name).push(n));
            assert(i2.push(lookup(v2, n).unwrap()).map_values(name) =~= i2.map_values(name).push(n));
        } else {
            lemma_lookup_none(v1, n);
            assert(!v1.map_values(name).to_set().contains(n));
            if lookup(v2, n) is Some {
                lemma_lookup_some(v2, n);
                assert(v2.map_values(name).to_set().contains(n));
            }
        }
    }
}

/// A bulk insert of m >= 1 rows renders the column list once, then m
/// literal tuples, comma-separated, in the order of the rows; each tuple
/// holds its row's literals in the table's field order.
pub proof fn law_bulk_insert_render(s: InsertStatement)
    requires
        s.rows@.len() >= 1,
    ensures
        s.tuples().len() == s.rows@.len(),
        forall|k: int| 0 <= k < s.rows@.len() ==> s.tuples()[k] == (#[trigger] s.rows@[k]).tuple_sql(s.table),
        s.sql() == "INSERT INTO "@ + s.table.name@ + " ("@ + s.rows@[0].columns_sql(s.table)
            + ") VALUES "@ + s.tuples()[0] + s.tuples().skip(1).map_values(
            |x: Seq<char>| seq![','] + x,
        ).flatten() + ";"@,
{
    reveal_strlit(";");
    law_comma_join_in_order(s.tuples());
    assert(s.sql() =~= "INSERT INTO "@ + s.table.name@ + " ("@ + s.rows@[0].columns_sql(s.table)
        + ") VALUES "@ + s.tuples()[0] + s.tuples().skip(1).map_values(
        |x: Seq<char>| seq![','] + x,
    ).flatten() + ";"@);
}

/// Swapping two rows of a well-formed bulk insert swaps their tuples in the
/// text and leaves everything else as it was: tuples are neither sorted
/// nor merged.
pub proof fn law_bulk_insert_swap(s1: InsertStatement, s2: InsertStatement, i: int, j: int)
    requires
        s1.well_formed(),
        s2.table == s1.table,
        0 <= i < s1.rows@.len(),
        0 <= j < s1.rows@.len(),
        s2.rows@ == s1.rows@.update(i, s1.rows@[j]).update(j, s1.rows@[i]),
    ensures
        s2.tuples() == s1.tuples().update(i, s1.tuples()[j]).update(j, s1.tuples()[i]),
        s2.sql() == "INSERT INTO "@ + s1.table.name@ + " ("@ + s1.columns_sql() + ") VALUES "@
            + comma_join(s1.tuples().update(i, s1.tuples()[j]).update(j, s1.tuples()[i])) + seq![';'],
{
    assert(s2.tuples() =~= s1.tuples().update(i, s1.tuples()[j]).update(j, s1.tuples()[i]));
    let r = s2.rows@[0];
    assert(r == s1.rows@[0] || r == s1.rows@[i] || r == s1.rows@[j]);
    assert(s1.rows@[i].columns().to_set() == s1.rows@[0].columns().to_set());
    assert(s1.rows@[j].columns().to_set() == s1.rows@[0].columns().to_set());
    law_same_columns_same_header(s1.table, r, s1.rows@[0]);
}

} // verus!
