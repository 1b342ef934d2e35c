//! Laws: properties of the generated statements, stated and proved once for
//! all inputs.

use vstd::prelude::*;

use crate::decimal::dec_str;
use crate::model::KV;
use crate::model::Type;
use crate::model::cond_items;
use crate::model::insert_cols;
use crate::model::insert_vals;
use crate::model::is_marker;
use crate::model::join_sep;
use crate::model::markers_in;
use crate::model::select_items;
use crate::model::set_items;
use crate::model::spec_convert_placeholder;
use crate::model::spec_delete_stmt;
use crate::model::spec_escape_col;
use crate::model::spec_insert_stmt;
use crate::model::spec_query_stmt;
use crate::model::spec_update_stmt;
use crate::model::spec_where_clause;

verus! {

/// Escaping the wildcard token never changes it, in any dialect.
pub proof fn lemma_escape_wildcard(typ: Type)
    ensures
        spec_escape_col(typ, "*"@) == "*"@,
{
}

/// A non-empty insert statement starts with `INSERT INTO <table> (`, and its
/// column list and value list hold one entry per input pair, matched
/// positionally: entry `i` of the column list is the escaped key of pair `i`,
/// and entry `i` of the value list is the translated value of pair `i`.
pub proof fn lemma_insert_stmt_shape(typ: Type, tbl: Seq<char>, cols: Seq<KV>)
    requires
        cols.len() > 0,
    ensures
        spec_insert_stmt(typ, tbl, cols) == "INSERT INTO "@ + tbl + " ("@ + join_sep(
            insert_cols(typ, cols),
            ", "@,
        ) + ") VALUES ("@ + join_sep(insert_vals(typ, 1, cols), ", "@) + ")"@,
        spec_insert_stmt(typ, tbl, cols).take(("INSERT INTO "@ + tbl + " ("@).len() as int)
            == "INSERT INTO "@ + tbl + " ("@,
        insert_cols(typ, cols).len() == cols.len(),
        insert_vals(typ, 1, cols).len() == cols.len(),
        forall|i: int|
            0 <= i < cols.len() ==> insert_cols(typ, cols)[i] == spec_escape_col(
                typ,
                cols[i].key@,
            ),
        forall|i: int|
            0 <= i < cols.len() ==> insert_vals(typ, 1, cols)[i] == spec_convert_placeholder(
                typ,
                1 + markers_in(cols.take(i)),
                cols[i].val@,
            ),
{
    let head = "INSERT INTO "@ + tbl + " ("@;
    assert(spec_insert_stmt(typ, tbl, cols).take(head.len() as int) =~= head);
}

/// The placeholder-translation rule, for every value and index: MySQL-family
/// and SQLite-family always leave the value unchanged (no numbering), and
/// PostgreSQL rewrites exactly the neutral marker into `$` followed by the
/// decimal digits of the index, leaving every other value unchanged.
pub proof fn lemma_placeholder_translation(typ: Type, idx: nat, val: Seq<char>)
    ensures
        typ == Type::MySQL || typ == Type::SQLite ==> spec_convert_placeholder(typ, idx, val)
            == val,
        typ == Type::PostgreSQL && is_marker(val) ==> spec_convert_placeholder(typ, idx, val)
            == seq!['$'] + dec_str(idx),
        typ == Type::PostgreSQL && !is_marker(val) ==> spec_convert_placeholder(typ, idx, val)
            == val,
{
}

/// Placeholder numbering is continuous across a whole update statement, SET
/// clause before WHERE clause: the value of SET pair `i` is translated with
/// index `1 + markers_in(cols.take(i))` (one more than the number of markers
/// before it), and the value of condition `j` is translated with index
/// `1 + markers_in(cols) + markers_in(conds.take(j))`, so the n-th marker of
/// the statement, in emitted order, receives index n.
pub proof fn lemma_update_numbering(typ: Type, tbl: Seq<char>, cols: Seq<KV>, conds: Seq<KV>)
    requires
        cols.len() > 0,
    ensures
        spec_update_stmt(typ, tbl, cols, conds) == "UPDATE "@ + tbl + " SET "@ + join_sep(
            set_items(typ, 1, cols),
            ", "@,
        ) + spec_where_clause(typ, 1 + markers_in(cols), conds),
        forall|i: int|
            0 <= i < cols.len() ==> set_items(typ, 1, cols)[i] == spec_escape_col(
                typ,
                cols[i].key@,
            ) + " = "@ + spec_convert_placeholder(
                typ,
                1 + markers_in(cols.take(i)),
                cols[i].val@,
            ),
        forall|j: int|
            0 <= j < conds.len() ==> cond_items(typ, 1 + markers_in(cols), conds)[j]
                == conds[j].key@ + " = "@ + spec_convert_placeholder(
                typ,
                1 + markers_in(cols) + markers_in(conds.take(j)),
                conds[j].val@,
            ),
{
}

/// Each build operation is deterministic: its output is a function of the
/// dialect, the table name and the arguments alone, so calling the same
/// operation twice with identical inputs yields identical text.
pub proof fn lemma_build_deterministic(
    r1: Seq<char>,
    r2: Seq<char>,
    typ: Type,
    tbl: Seq<char>,
    cols: Seq<KV>,
    sel: Seq<String>,
    conds: Seq<KV>,
)
    ensures
        r1 == spec_insert_stmt(typ, tbl, cols) && r2 == spec_insert_stmt(typ, tbl, cols) ==> r1
            == r2,
        r1 == spec_query_stmt(typ, tbl, sel, conds) && r2 == spec_query_stmt(typ, tbl, sel, conds)
            ==> r1 == r2,
        r1 == spec_update_stmt(typ, tbl, cols, conds) && r2 == spec_update_stmt(
            typ,
            tbl,
            cols,
            conds,
        ) ==> r1 == r2,
        r1 == spec_delete_stmt(typ, tbl, conds) && r2 == spec_delete_stmt(typ, tbl, conds) ==> r1
            == r2,
{
}

/// An empty column list on insert or update yields exactly the empty string,
/// in every dialect and whatever the conditions.
pub proof fn lemma_empty_columns(typ: Type, tbl: Seq<char>, conds: Seq<KV>)
    ensures
        spec_insert_stmt(typ, tbl, Seq::<KV>::empty()) == Seq::<char>::empty(),
        spec_update_stmt(typ, tbl, Seq::<KV>::empty(), conds) == Seq::<char>::empty(),
{
}

/// An empty condition list omits the WHERE clause entirely: no trailing space
/// and no keyword, in every statement kind.
pub proof fn lemma_empty_conditions(typ: Type, tbl: Seq<char>, cols: Seq<KV>, sel: Seq<String>)
    requires
        cols.len() > 0,
        sel.len() > 0,
    ensures
        spec_where_clause(typ, 1, Seq::<KV>::empty()) == Seq::<char>::empty(),
        spec_delete_stmt(typ, tbl, Seq::<KV>::empty()) == "DELETE FROM "@ + tbl,
        spec_query_stmt(typ, tbl, sel, Seq::<KV>::empty()) == "SELECT "@ + join_sep(
            select_items(typ, sel),
            ", "@,
        ) + " FROM "@ + tbl,
        spec_update_stmt(typ, tbl, cols, Seq::<KV>::empty()) == "UPDATE "@ + tbl + " SET "@
            + join_sep(set_items(typ, 1, cols), ", "@),
{
    assert(spec_delete_stmt(typ, tbl, Seq::<KV>::empty()) =~= "DELETE FROM "@ + tbl);
    assert(spec_query_stmt(typ, tbl, sel, Seq::<KV>::empty()) =~= "SELECT "@ + join_sep(
        select_items(typ, sel),
        ", "@,
    ) + " FROM "@ + tbl);
    assert(spec_update_stmt(typ, tbl, cols, Seq::<KV>::empty()) =~= "UPDATE "@ + tbl + " SET "@
        + join_sep(set_items(typ, 1, cols), ", "@));
}

/// An empty selected-column list selects all columns: the query starts with
/// `SELECT * FROM `.
pub proof fn lemma_query_wildcard(typ: Type, tbl: Seq<char>, conds: Seq<KV>)
    ensures
        spec_query_stmt(typ, tbl, Seq::<String>::empty(), conds) == "SELECT * FROM "@ + tbl
            + spec_where_clause(typ, 1, conds),
        spec_query_stmt(typ, tbl, Seq::<String>::empty(), conds).take("SELECT * FROM "@.len()
            as int) == "SELECT * FROM "@,
{
    reveal_strlit("SELECT ");
    reveal_strlit("*");
    reveal_strlit(" FROM ");
    reveal_strlit("SELECT * FROM ");
    assert("SELECT "@ + "*"@ + " FROM "@ =~= "SELECT * FROM "@);
    assert(spec_query_stmt(typ, tbl, Seq::<String>::empty(), conds) =~= "SELECT * FROM "@ + tbl
        + spec_where_clause(typ, 1, conds));
    assert(spec_query_stmt(typ, tbl, Seq::<String>::empty(), conds).take("SELECT * FROM "@.len()
        as int) =~= "SELECT * FROM "@);
}

} // verus!
