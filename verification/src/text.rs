//! A grid as text, for reading and debugging.

use vstd::prelude::*;
use vstd::string::StringExecFns;
use crate::grid::Grid;
use crate::neighbourhood::rows_of;
use crate::state::State;

verus! {

/// A row as text: the cells' names, joined by single spaces.
pub open spec fn row_text(row: Seq<State>) -> Seq<char>
    decreases row.len(),
{
    if row.len() == 0 {
        Seq::empty()
    } else if row.len() == 1 {
        row[0].tag()
    } else {
        row_text(row.drop_last()) + seq![' '] + row.last().tag()
    }
}

/// Rows as text: the rows' texts, joined by line feeds.
pub open spec fn grid_text(rows: Seq<Seq<State>>) -> Seq<char>
    decreases rows.len(),
{
    if rows.len() == 0 {
        Seq::empty()
    } else if rows.len() == 1 {
        row_text(rows[0])
    } else {
        grid_text(rows.drop_last()) + seq!['\n'] + row_text(rows.last())
    }
}

impl Grid {
    /// The grid as text: the rows joined by line feeds, and in each row the cells' names
    /// joined by single spaces. Nothing follows the last cell of a row or the last row.
    pub fn to_text(&self) -> (text: String)
        ensures
            text@ == grid_text(self@),
    {
        let cells = self.cells();
        let ghost rows = self@;
        let mut text = String::new();
        let mut row_idx: usize = 0;
        while row_idx < cells.len()
            invariant
                rows == rows_of(cells@),
                row_idx <= cells@.len(),
                text@ == grid_text(rows.take(row_idx as int)),
            decreases cells@.len() - row_idx,
        {
            let row = &cells[row_idx];
            if row_idx > 0 {
                proof {
                    reveal_strlit("\n");
                    assert("\n"@ =~= seq!['\n']);
                }
                text.append("\n");
            }
            let ghost before = text@;
            let mut col_idx: usize = 0;
            while col_idx < row.len()
                invariant
                    col_idx <= row@.len(),
                    text@ == before + row_text(row@.take(col_idx as int)),
                decreases row@.len() - col_idx,
            {
                proof {
                    let shown = row@.take(col_idx + 1);
                    assert(shown.drop_last() =~= row@.take(col_idx as int));
                    assert(shown.last() == row@[col_idx as int]);
                    assert(shown[0] == row@[0]);
                }
                if col_idx > 0 {
                    proof {
                        reveal_strlit(" ");
                        assert(" "@ =~= seq![' ']);
                    }
                    text.append(" ");
                }
                text.append(row[col_idx].name());
                assert(text@ =~= before + row_text(row@.take(col_idx + 1)));
                col_idx += 1;
            }
            proof {
                let shown = rows.take(row_idx + 1);
                assert(shown.drop_last() =~= rows.take(row_idx as int));
                assert(shown.last() == row@);
                assert(shown[0] == rows[0]);
                assert(row@.take(row@.len() as int) =~= row@);
            }
            assert(text@ =~= grid_text(rows.take(row_idx + 1)));
            row_idx += 1;
        }
        assert(rows.take(cells@.len() as int) =~= rows);
        text
    }
}

} // verus!
