//! The zero-row introspection query that discovers a table's live column
//! list: selecting no rows but every requested column yields the server's
//! declared wire type for each.

use vstd::prelude::*;

verus! {

/// One requested column, bracket-quoted.
pub open spec fn bracketed(name: Seq<char>) -> Seq<char> {
    "["@ + name + "]"@
}

/// The bracket-quoted column names from position `i` on, joined by commas.
pub open spec fn cols_from(names: Seq<Seq<char>>, i: int) -> Seq<char>
    decreases names.len() - i,
{
    if i < 0 || i >= names.len() {
        Seq::empty()
    } else if i == names.len() - 1 {
        bracketed(names[i])
    } else {
        bracketed(names[i]) + ", "@ + cols_from(names, i + 1)
    }
}

/// The selected column list: every discovered column when none is
/// requested, else the requested ones in order.
pub open spec fn column_list_clause(names: Seq<Seq<char>>) -> Seq<char> {
    if names.len() == 0 {
        "*"@
    } else {
        cols_from(names, 0)
    }
}

/// The full zero-row introspection query for a table.
pub open spec fn introspection_query_spec(table: Seq<char>, names: Seq<Seq<char>>) -> Seq<char> {
    "SELECT TOP 0 "@ + column_list_clause(names) + " FROM "@ + table
}

/// Builds the zero-row introspection query for `table_name`, selecting the
/// given columns, or every column where none is given.
pub fn introspection_query(table_name: &String, column_names: &Vec<String>) -> (q: String)
    ensures
        q@ == introspection_query_spec(
            table_name@,
            column_names@.map_values(|s: String| s@),
        ),
{
    let ghost names: Seq<Seq<char>> = column_names@.map_values(|s: String| s@);
    let n = column_names.len();
    let mut clause: String = String::new();
    if n == 0 {
        clause = String::from_str("*");
    } else {
        let mut i: usize = n;
        while i > 0
            invariant
                i <= n,
                n == column_names@.len(),
                names == column_names@.map_values(|s: String| s@),
                clause@ == cols_from(names, i as int),
            decreases i,
        {
            i = i - 1;
            let mut piece = String::from_str("[");
            piece.append(column_names[i].as_str());
            piece.append("]");
            if i + 1 < n {
                piece.append(", ");
                piece.append(clause.as_str());
            }
            proof {
                assert(names[i as int] == column_names@[i as int]@);
                if i + 1 < n {
                    assert(piece@ =~= bracketed(names[i as int]) + ", "@ + cols_from(
                        names,
                        i as int + 1,
                    ));
                } else {
                    assert(piece@ =~= bracketed(names[i as int]));
                }
            }
            clause = piece;
        }
    }
    let mut q = String::from_str("SELECT TOP 0 ");
    q.append(clause.as_str());
    q.append(" FROM ");
    q.append(table_name.as_str());
    proof {
        assert(q@ =~= introspection_query_spec(table_name@, names));
    }
    q
}

} // verus!
