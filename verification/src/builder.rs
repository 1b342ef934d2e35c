//! The statement builder: the verified executable side of the library.

use vstd::prelude::*;

use crate::decimal::append_dec;
use crate::model::KV;
use crate::model::Type;
use crate::model::cond_items;
use crate::model::consumed;
use crate::model::insert_cols;
use crate::model::insert_vals;
use crate::model::is_marker;
use crate::model::join_sep;
use crate::model::lemma_join_sep_take_succ;
use crate::model::lemma_markers_in_le_len;
use crate::model::lemma_markers_in_take_succ;
use crate::model::lemma_where_clause_base_irrelevant;
use crate::model::markers_in;
use crate::model::select_items;
use crate::model::set_items;
use crate::model::spec_convert_placeholder;
use crate::model::spec_delete_stmt;
use crate::model::spec_escape_col;
use crate::model::spec_insert_stmt;
use crate::model::spec_query_stmt;
use crate::model::spec_update_stmt;
use crate::model::spec_where_clause;

verus! {

/// SQL statement builder.
///
/// This builder uses string replacement to build SQL statements, so please
/// make sure the values used here, for example the table name, column names
/// and values, are safe and won't lead to SQL injection.
///
/// If you want to build prepared statements, you can use placeholders to allow
/// for binding parameters to the statements. Binding parameters is safe and
/// won't lead to SQL injection.
///
/// The placeholders used in different databases are listed as follows:
///
///   - MySQL: `?`
///   - PostgreSQL: `$N`, where N is the 1-based positional argument index.
///   - SQLite: `?`
///
/// If the given database type is PostgreSQL, and the given value is `?`, this
/// builder automatically converts `?` to `$N` based placeholders.
pub struct StmtBuilder {
    tbl: String,
    typ: Type,
}

impl StmtBuilder {
    /// The table name the builder was created with.
    pub closed spec fn tbl_view(&self) -> Seq<char> {
        self.tbl@
    }

    /// The database type the builder was created with.
    pub closed spec fn dialect(&self) -> Type {
        self.typ
    }

    /// Creates a new [`StmtBuilder`], where `tbl` is the table name and `typ`
    /// is the database type.
    pub fn new(tbl: String, typ: Type) -> (sb: StmtBuilder)
        ensures
            sb.tbl_view() == tbl@,
            sb.dialect() == typ,
    {
        StmtBuilder { tbl, typ }
    }

    /// Gets the table name.
    pub fn get_tbl(&self) -> (tbl: &String)
        ensures
            tbl@ == self.tbl_view(),
    {
        &self.tbl
    }

    /// Gets the database type.
    pub fn get_typ(&self) -> (typ: &Type)
        ensures
            *typ == self.dialect(),
    {
        &self.typ
    }

    /// Wraps a column name in the dialect's identifier-quoting convention,
    /// unless it is the wildcard token `*`, which is returned unchanged.
    pub fn escape_col(&self, col: &str) -> (r: String)
        ensures
            r@ == spec_escape_col(self.dialect(), col@),
    {
        if col.to_owned() == "*".to_owned() {
            return col.to_owned();
        }
        match self.typ {
            Type::MySQL => {
                let mut out = "`".to_owned();
                out.append(col);
                out.append("`");
                out
            },
            Type::PostgreSQL | Type::SQLite => {
                let mut out = "\"".to_owned();
                out.append(col);
                out.append("\"");
                out
            },
        }
    }

    /// Translates one value. `seen` is the running placeholder counter, as the
    /// number of markers already numbered in the statement under construction:
    /// it starts at 0 for a fresh statement, and the next marker receives the
    /// 1-based index `*seen + 1`. MySQL-family and SQLite-family return the
    /// value unchanged and leave the counter untouched; PostgreSQL turns a
    /// marker into its positional `$N` form and advances the counter, and
    /// returns any other value unchanged.
    pub fn convert_placeholder(&self, seen: &mut usize, val: &str) -> (r: String)
        requires
            *old(seen) < usize::MAX,
        ensures
            r@ == spec_convert_placeholder(self.dialect(), (*old(seen) + 1) as nat, val@),
            *final(seen) == *old(seen) + (if self.dialect() == Type::PostgreSQL && is_marker(
                val@,
            ) {
                1int
            } else {
                0int
            }),
    {
        match self.typ {
            Type::MySQL | Type::SQLite => val.to_owned(),
            Type::PostgreSQL => {
                if val.to_owned() == "?".to_owned() {
                    *seen = *seen + 1;
                    let mut out = "$".to_owned();
                    append_dec(&mut out, *seen);
                    proof {
                        reveal_strlit("$");
                        assert(out@ =~= seq!['$'] + crate::decimal::dec_str(
                            (*old(seen) + 1) as nat,
                        ));
                    }
                    out
                } else {
                    val.to_owned()
                }
            },
        }
    }

    /// Assembles the WHERE clause for the given conditions: the empty string
    /// when `conds` is empty, otherwise ` WHERE ` followed by the
    /// `<key> = <translated-value>` predicates joined with ` AND `, in input
    /// order. Keys are emitted verbatim, not escaped. `seen` threads the
    /// marker count across the whole statement, so the first marker among
    /// `conds` receives index `*seen + 1`.
    pub fn build_conds(&self, seen: &mut usize, conds: &[KV]) -> (r: String)
        requires
            *old(seen) + conds@.len() <= usize::MAX,
        ensures
            r@ == spec_where_clause(self.dialect(), (*old(seen) + 1) as nat, conds@),
            *final(seen) == *old(seen) + consumed(self.dialect(), conds@),
    {
        proof {
            assert(conds@.take(0) =~= Seq::<KV>::empty());
        }
        if conds.len() == 0 {
            return String::new();
        }
        let ghost base = (*seen + 1) as nat;
        let ghost seen0: usize = *seen;
        let mut out = " WHERE ".to_owned();
        let mut i: usize = 0;
        while i < conds.len()
            invariant
                i <= conds@.len(),
                0 < conds@.len(),
                seen0 + conds@.len() <= usize::MAX,
                base == (seen0 + 1) as nat,
                *seen == seen0 + consumed(self.typ, conds@.take(i as int)),
                self.dialect() == self.typ,
                i == 0 ==> out@ == " WHERE "@,
                i > 0 ==> out@ == " WHERE "@ + join_sep(
                    cond_items(self.typ, base, conds@).take(i as int),
                    " AND "@,
                ),
            decreases conds@.len() - i,
        {
            if i > 0 {
                out.append(" AND ");
            }
            let kv = &conds[i];
            out.append(kv.key);
            out.append(" = ");
            proof {
                lemma_markers_in_le_len(conds@.take(i as int));
                assert(consumed(self.typ, conds@.take(i as int)) <= i);
            }
            let v = self.convert_placeholder(seen, kv.val);
            out.append(v.as_str());
            proof {
                lemma_markers_in_take_succ(conds@, i as int);
                lemma_join_sep_take_succ(cond_items(self.typ, base, conds@), " AND "@, i as int);
                assert(cond_items(self.typ, base, conds@)[i as int] == conds@[i as int].key@
                    + " = "@ + spec_convert_placeholder(
                    self.typ,
                    base + markers_in(conds@.take(i as int)),
                    conds@[i as int].val@,
                ));
                assert(out@ =~= " WHERE "@ + join_sep(
                    cond_items(self.typ, base, conds@).take(i + 1 as int),
                    " AND "@,
                ));
            }
            i += 1;
        }
        proof {
            assert(conds@.take(conds@.len() as int) =~= conds@);
            assert(cond_items(self.typ, base, conds@).take(conds@.len() as int) =~= cond_items(
                self.typ,
                base,
                conds@,
            ));
        }
        out
    }

    /// Builds a SQL statement that performs an insert operation.
    ///
    /// `cols` holds the column names and values; if it is empty, the empty
    /// string is returned. Column names are escaped per dialect, values are
    /// translated left to right (which determines placeholder numbering), and
    /// the output is
    /// `INSERT INTO <table> (<col-1>, <col-2>, ...) VALUES (<val-1>, <val-2>, ...)`.
    pub fn build_insert_stmt(&self, cols: &[KV]) -> (r: String)
        ensures
            r@ == spec_insert_stmt(self.dialect(), self.tbl_view(), cols@),
            cols@.len() == 0 ==> r@ == Seq::<char>::empty(),
    {
        if cols.len() == 0 {
            return String::new();
        }
        let mut seen: usize = 0;
        let mut keys = String::new();
        let mut vals = String::new();
        let mut i: usize = 0;
        proof {
            assert(cols@.take(0) =~= Seq::<KV>::empty());
        }
        while i < cols.len()
            invariant
                i <= cols@.len(),
                seen == consumed(self.typ, cols@.take(i as int)),
                self.dialect() == self.typ,
                keys@ == join_sep(insert_cols(self.typ, cols@).take(i as int), ", "@),
                vals@ == join_sep(insert_vals(self.typ, 1, cols@).take(i as int), ", "@),
            decreases cols@.len() - i,
        {
            if i > 0 {
                keys.append(", ");
                vals.append(", ");
            }
            let kv = &cols[i];
            let k = self.escape_col(kv.key);
            keys.append(k.as_str());
            proof {
                lemma_markers_in_le_len(cols@.take(i as int));
                assert(consumed(self.typ, cols@.take(i as int)) <= i);
            }
            let v = self.convert_placeholder(&mut seen, kv.val);
            vals.append(v.as_str());
            proof {
                lemma_markers_in_take_succ(cols@, i as int);
                lemma_join_sep_take_succ(insert_cols(self.typ, cols@), ", "@, i as int);
                lemma_join_sep_take_succ(insert_vals(self.typ, 1, cols@), ", "@, i as int);
                assert(keys@ =~= join_sep(
                    insert_cols(self.typ, cols@).take(i + 1 as int),
                    ", "@,
                ));
                assert(vals@ =~= join_sep(
                    insert_vals(self.typ, 1, cols@).take(i + 1 as int),
                    ", "@,
                ));
            }
            i += 1;
        }
        proof {
            assert(insert_cols(self.typ, cols@).take(cols@.len() as int) =~= insert_cols(
                self.typ,
                cols@,
            ));
            assert(insert_vals(self.typ, 1, cols@).take(cols@.len() as int) =~= insert_vals(
                self.typ,
                1,
                cols@,
            ));
        }
        let mut out = "INSERT INTO ".to_owned();
        out.append(self.tbl.as_str());
        out.append(" (");
        out.append(keys.as_str());
        out.append(") VALUES (");
        out.append(vals.as_str());
        out.append(")");
        proof {
            assert(out@ =~= spec_insert_stmt(self.dialect(), self.tbl_view(), cols@));
        }
        out
    }

    /// Builds a SQL statement that performs a query operation.
    ///
    /// `cols` holds the selected columns; if it is empty, the wildcard `*` is
    /// selected. `conds` holds the equality conditions; the WHERE clause
    /// numbers its placeholders from 1 and is omitted when `conds` is empty.
    /// The output is `SELECT <cols> FROM <table><where-clause>`.
    pub fn build_query_stmt(&self, cols: &[String], conds: &[KV]) -> (r: String)
        ensures
            r@ == spec_query_stmt(self.dialect(), self.tbl_view(), cols@, conds@),
    {
        let mut out = "SELECT ".to_owned();
        if cols.len() == 0 {
            out.append("*");
        } else {
            let mut i: usize = 0;
            while i < cols.len()
                invariant
                    i <= cols@.len(),
                    self.dialect() == self.typ,
                    out@ == "SELECT "@ + join_sep(
                        select_items(self.typ, cols@).take(i as int),
                        ", "@,
                    ),
                decreases cols@.len() - i,
            {
                if i > 0 {
                    out.append(", ");
                }
                let k = self.escape_col(cols[i].as_str());
                out.append(k.as_str());
                proof {
                    lemma_join_sep_take_succ(select_items(self.typ, cols@), ", "@, i as int);
                    assert(out@ =~= "SELECT "@ + join_sep(
                        select_items(self.typ, cols@).take(i + 1 as int),
                        ", "@,
                    ));
                }
                i += 1;
            }
            proof {
                assert(select_items(self.typ, cols@).take(cols@.len() as int) =~= select_items(
                    self.typ,
                    cols@,
                ));
            }
        }
        out.append(" FROM ");
        out.append(self.tbl.as_str());
        let mut seen: usize = 0;
        proof {
            broadcast use vstd::slice::axiom_spec_len;

            assert(vstd::slice::spec_slice_len(conds) == conds@.len());
        }
        let w = self.build_conds(&mut seen, conds);
        out.append(w.as_str());
        proof {
            assert(out@ =~= spec_query_stmt(self.dialect(), self.tbl_view(), cols@, conds@));
        }
        out
    }

    /// Builds a SQL statement that performs an update operation.
    ///
    /// `cols` holds the columns to set; if it is empty, the empty string is
    /// returned. The SET clause consumes placeholder indices first and the
    /// WHERE clause continues the same numbering. The output is
    /// `UPDATE <table> SET <set-clause><where-clause>`.
    pub fn build_update_stmt(&self, cols: &[KV], conds: &[KV]) -> (r: String)
        requires
            cols@.len() + conds@.len() <= usize::MAX,
        ensures
            r@ == spec_update_stmt(self.dialect(), self.tbl_view(), cols@, conds@),
            cols@.len() == 0 ==> r@ == Seq::<char>::empty(),
    {
        if cols.len() == 0 {
            return String::new();
        }
        let mut seen: usize = 0;
        let mut out = "UPDATE ".to_owned();
        out.append(self.tbl.as_str());
        out.append(" SET ");
        let ghost head = "UPDATE "@ + self.tbl@ + " SET "@;
        let mut i: usize = 0;
        proof {
            assert(cols@.take(0) =~= Seq::<KV>::empty());
        }
        while i < cols.len()
            invariant
                i <= cols@.len(),
                seen == consumed(self.typ, cols@.take(i as int)),
                self.dialect() == self.typ,
                head == "UPDATE "@ + self.tbl@ + " SET "@,
                i == 0 ==> out@ == head,
                i > 0 ==> out@ == head + join_sep(
                    set_items(self.typ, 1, cols@).take(i as int),
                    ", "@,
                ),
            decreases cols@.len() - i,
        {
            if i > 0 {
                out.append(", ");
            }
            let kv = &cols[i];
            let k = self.escape_col(kv.key);
            out.append(k.as_str());
            out.append(" = ");
            proof {
                lemma_markers_in_le_len(cols@.take(i as int));
                assert(consumed(self.typ, cols@.take(i as int)) <= i);
            }
            let v = self.convert_placeholder(&mut seen, kv.val);
            out.append(v.as_str());
            proof {
                lemma_markers_in_take_succ(cols@, i as int);
                lemma_join_sep_take_succ(set_items(self.typ, 1, cols@), ", "@, i as int);
                assert(set_items(self.typ, 1, cols@)[i as int] == spec_escape_col(
                    self.typ,
                    cols@[i as int].key@,
                ) + " = "@ + spec_convert_placeholder(
                    self.typ,
                    1 + markers_in(cols@.take(i as int)),
                    cols@[i as int].val@,
                ));
                assert(out@ =~= head + join_sep(
                    set_items(self.typ, 1, cols@).take(i + 1 as int),
                    ", "@,
                ));
            }
            i += 1;
        }
        proof {
            assert(cols@.take(cols@.len() as int) =~= cols@);
            assert(set_items(self.typ, 1, cols@).take(cols@.len() as int) =~= set_items(
                self.typ,
                1,
                cols@,
            ));
            lemma_markers_in_le_len(cols@);
        }
        let w = self.build_conds(&mut seen, conds);
        out.append(w.as_str());
        proof {
            if self.typ != Type::PostgreSQL {
                lemma_where_clause_base_irrelevant(
                    self.typ,
                    (consumed(self.typ, cols@) + 1) as nat,
                    1 + markers_in(cols@),
                    conds@,
                );
            }
            assert(out@ =~= spec_update_stmt(self.dialect(), self.tbl_view(), cols@, conds@));
        }
        out
    }

    /// Builds a SQL statement that performs a delete operation.
    ///
    /// `conds` holds the equality conditions; an empty list is valid and means
    /// no filter, so the WHERE clause is omitted. The output is
    /// `DELETE FROM <table><where-clause>`.
    pub fn build_delete_stmt(&self, conds: &[KV]) -> (r: String)
        ensures
            r@ == spec_delete_stmt(self.dialect(), self.tbl_view(), conds@),
            conds@.len() == 0 ==> r@ == "DELETE FROM "@ + self.tbl_view(),
    {
        let mut out = "DELETE FROM ".to_owned();
        out.append(self.tbl.as_str());
        let mut seen: usize = 0;
        proof {
            broadcast use vstd::slice::axiom_spec_len;

            assert(vstd::slice::spec_slice_len(conds) == conds@.len());
        }
        let w = self.build_conds(&mut seen, conds);
        out.append(w.as_str());
        proof {
            assert(out@ =~= spec_delete_stmt(self.dialect(), self.tbl_view(), conds@));
        }
        out
    }
}

} // verus!
