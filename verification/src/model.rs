//! The data types and the exact text model of the generated statements.
//!
//! Every statement a [`crate::builder::StmtBuilder`] emits is specified here as
//! a sequence of characters: [`spec_insert_stmt`], [`spec_query_stmt`],
//! [`spec_update_stmt`] and [`spec_delete_stmt`] give the whole statement,
//! built from the identifier-escaping rule ([`spec_escape_col`]), the
//! placeholder-translation rule ([`spec_convert_placeholder`]) and the
//! clause-joining rule ([`join_sep`]).

use vstd::prelude::*;

use crate::decimal::dec_str;

verus! {

/// The type of database a statement is generated for.
#[derive(Clone, Copy, PartialEq, Eq, Structural, Debug)]
pub enum Type {
    MySQL,
    PostgreSQL,
    SQLite,
}

/// A column-name/value pair used in building SQL statements.
///
/// Both fields are trusted raw text: the builder inserts them into the output
/// without any escaping of their contents, so the caller must make sure they
/// are safe. A `val` equal to the neutral placeholder marker `?` stands for a
/// parameter to be bound later.
#[derive(PartialEq, Eq, Clone, Copy, Hash, Debug)]
pub struct KV<'a> {
    pub key: &'a str,
    pub val: &'a str,
}

/// Placeholder for binding a parameter.
pub const PLACEHOLDER: &'static str = "?";

/// Whether `val` is exactly the neutral placeholder marker `?`.
pub open spec fn is_marker(val: Seq<char>) -> bool {
    val == "?"@
}

/// The identifier-quoting rule: a column name is wrapped in the dialect's
/// quoting convention, unless it is exactly the wildcard token `*`, which is
/// passed through unchanged.
pub open spec fn spec_escape_col(typ: Type, col: Seq<char>) -> Seq<char> {
    if col == "*"@ {
        col
    } else {
        match typ {
            Type::MySQL => "`"@ + col + "`"@,
            Type::PostgreSQL | Type::SQLite => "\""@ + col + "\""@,
        }
    }
}

/// The placeholder-translation rule for one value. `idx` is the 1-based
/// positional index the value receives if it is the neutral marker:
/// MySQL-family and SQLite-family keep the value as it is; PostgreSQL turns
/// the marker into `$` followed by the decimal digits of `idx`.
pub open spec fn spec_convert_placeholder(typ: Type, idx: nat, val: Seq<char>) -> Seq<char> {
    match typ {
        Type::MySQL | Type::SQLite => val,
        Type::PostgreSQL => if is_marker(val) {
            seq!['$'] + dec_str(idx)
        } else {
            val
        },
    }
}

/// How many values in `kvs` are the neutral placeholder marker.
pub open spec fn markers_in(kvs: Seq<KV>) -> nat
    decreases kvs.len(),
{
    if kvs.len() == 0 {
        0
    } else {
        markers_in(kvs.drop_last()) + (if is_marker(kvs.last().val@) {
            1nat
        } else {
            0nat
        })
    }
}

/// How many positional placeholder indices the dialect consumes for these
/// values: only PostgreSQL numbers its markers, the other dialects leave the
/// running counter untouched.
pub open spec fn consumed(typ: Type, kvs: Seq<KV>) -> nat {
    match typ {
        Type::PostgreSQL => markers_in(kvs),
        Type::MySQL | Type::SQLite => 0,
    }
}

/// The items joined with the separator between consecutive items.
pub open spec fn join_sep(items: Seq<Seq<char>>, sep: Seq<char>) -> Seq<char>
    decreases items.len(),
{
    if items.len() == 0 {
        Seq::empty()
    } else if items.len() == 1 {
        items[0]
    } else {
        join_sep(items.drop_last(), sep) + sep + items.last()
    }
}

/// The `<escaped-col> = <translated-val>` assignments of a SET clause.
/// The value at position `i` is translated with index `base` plus the number
/// of markers before it, so numbering is continuous in input order.
pub open spec fn set_items(typ: Type, base: nat, kvs: Seq<KV>) -> Seq<Seq<char>> {
    Seq::new(
        kvs.len(),
        |i: int|
            spec_escape_col(typ, kvs[i].key@) + " = "@ + spec_convert_placeholder(
                typ,
                base + markers_in(kvs.take(i)),
                kvs[i].val@,
            ),
    )
}

/// The `<key> = <translated-val>` predicates of a WHERE clause. Condition
/// keys are emitted verbatim, not escaped.
pub open spec fn cond_items(typ: Type, base: nat, kvs: Seq<KV>) -> Seq<Seq<char>> {
    Seq::new(
        kvs.len(),
        |i: int|
            kvs[i].key@ + " = "@ + spec_convert_placeholder(
                typ,
                base + markers_in(kvs.take(i)),
                kvs[i].val@,
            ),
    )
}

/// The escaped column names of an insert statement's column list.
pub open spec fn insert_cols(typ: Type, kvs: Seq<KV>) -> Seq<Seq<char>> {
    Seq::new(kvs.len(), |i: int| spec_escape_col(typ, kvs[i].key@))
}

/// The translated values of an insert statement's VALUES list.
pub open spec fn insert_vals(typ: Type, base: nat, kvs: Seq<KV>) -> Seq<Seq<char>> {
    Seq::new(
        kvs.len(),
        |i: int|
            spec_convert_placeholder(typ, base + markers_in(kvs.take(i)), kvs[i].val@),
    )
}

/// The escaped selected columns of a query statement.
pub open spec fn select_items(typ: Type, cols: Seq<String>) -> Seq<Seq<char>> {
    Seq::new(cols.len(), |i: int| spec_escape_col(typ, cols[i]@))
}

/// The WHERE clause for the given conditions: empty when there are none,
/// otherwise ` WHERE ` followed by the predicates joined with ` AND `.
/// `base` is the positional index the first marker among `conds` receives.
pub open spec fn spec_where_clause(typ: Type, base: nat, conds: Seq<KV>) -> Seq<char> {
    if conds.len() == 0 {
        Seq::empty()
    } else {
        " WHERE "@ + join_sep(cond_items(typ, base, conds), " AND "@)
    }
}

/// The insert statement for the given columns: empty when `cols` is empty.
pub open spec fn spec_insert_stmt(typ: Type, tbl: Seq<char>, cols: Seq<KV>) -> Seq<char> {
    if cols.len() == 0 {
        Seq::empty()
    } else {
        "INSERT INTO "@ + tbl + " ("@ + join_sep(insert_cols(typ, cols), ", "@) + ") VALUES ("@
            + join_sep(insert_vals(typ, 1, cols), ", "@) + ")"@
    }
}

/// The query statement: the wildcard when `cols` is empty, otherwise the
/// escaped columns joined with `, `; the WHERE clause numbers placeholders
/// from 1.
pub open spec fn spec_query_stmt(
    typ: Type,
    tbl: Seq<char>,
    cols: Seq<String>,
    conds: Seq<KV>,
) -> Seq<char> {
    let sel = if cols.len() == 0 {
        "*"@
    } else {
        join_sep(select_items(typ, cols), ", "@)
    };
    "SELECT "@ + sel + " FROM "@ + tbl + spec_where_clause(typ, 1, conds)
}

/// The update statement: empty when `cols` is empty; the WHERE clause
/// continues the SET clause's placeholder numbering.
pub open spec fn spec_update_stmt(
    typ: Type,
    tbl: Seq<char>,
    cols: Seq<KV>,
    conds: Seq<KV>,
) -> Seq<char> {
    if cols.len() == 0 {
        Seq::empty()
    } else {
        "UPDATE "@ + tbl + " SET "@ + join_sep(set_items(typ, 1, cols), ", "@)
            + spec_where_clause(typ, 1 + markers_in(cols), conds)
    }
}

/// The delete statement; an empty condition list means no filter.
pub open spec fn spec_delete_stmt(typ: Type, tbl: Seq<char>, conds: Seq<KV>) -> Seq<char> {
    "DELETE FROM "@ + tbl + spec_where_clause(typ, 1, conds)
}

/// One more element extends the marker count by that element's marker flag.
pub proof fn lemma_markers_in_take_succ(kvs: Seq<KV>, i: int)
    requires
        0 <= i < kvs.len(),
    ensures
        markers_in(kvs.take(i + 1)) == markers_in(kvs.take(i)) + (if is_marker(kvs[i].val@) {
            1nat
        } else {
            0nat
        }),
{
    assert(kvs.take(i + 1).drop_last() =~= kvs.take(i));
    assert(kvs.take(i + 1).last() == kvs[i]);
}

/// No list holds more markers than elements.
pub proof fn lemma_markers_in_le_len(kvs: Seq<KV>)
    ensures
        markers_in(kvs) <= kvs.len(),
    decreases kvs.len(),
{
    if kvs.len() > 0 {
        lemma_markers_in_le_len(kvs.drop_last());
    }
}

/// Where placeholders are not positional, the translated values do not depend
/// on the running counter, so neither does the WHERE clause.
pub proof fn lemma_where_clause_base_irrelevant(typ: Type, b1: nat, b2: nat, conds: Seq<KV>)
    requires
        typ != Type::PostgreSQL,
    ensures
        spec_where_clause(typ, b1, conds) == spec_where_clause(typ, b2, conds),
{
    assert(cond_items(typ, b1, conds) =~= cond_items(typ, b2, conds));
}

/// One more item extends the join by the separator and that item.
pub proof fn lemma_join_sep_take_succ(items: Seq<Seq<char>>, sep: Seq<char>, i: int)
    requires
        0 <= i < items.len(),
    ensures
        join_sep(items.take(i + 1), sep) == if i == 0 {
            items[0]
        } else {
            join_sep(items.take(i), sep) + sep + items[i]
        },
{
    assert(items.take(i + 1).drop_last() =~= items.take(i));
    assert(items.take(i + 1).last() == items[i]);
}

} // verus!
