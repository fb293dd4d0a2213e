//! Rows of table data and the verified lookup of a column's value in a row.

use crate::text::str_eq;
use vstd::prelude::*;

verus! {

/// The mathematical model of a row: a sequence of (column id, value) pairs
/// of character sequences.
pub type RowModel = Seq<(Seq<char>, Seq<char>)>;

/// One row of table data: a list of `(column id, display string)` pairs.
/// An id that does not occur in the list is treated as holding the empty
/// string; if an id occurs twice, the first pair wins on lookup.
#[derive(Debug)]
pub struct Row {
    pub fields: Vec<(&'static str, String)>,
}

impl View for Row {
    type V = RowModel;

    open spec fn view(&self) -> RowModel {
        self.fields.deep_view()
    }
}

impl DeepView for Row {
    type V = RowModel;

    open spec fn deep_view(&self) -> RowModel {
        self.view()
    }
}

impl Clone for Row {
    fn clone(&self) -> (res: Row)
        ensures
            res@ == self@,
    {
        let mut fields: Vec<(&'static str, String)> = Vec::new();
        let n = self.fields.len();
        let mut i: usize = 0;
        while i < n
            invariant
                n == self.fields.len(),
                i <= n,
                fields@.len() == i,
                forall|k: int| 0 <= k < i ==> fields@[k] == self.fields@[k],
            decreases n - i,
        {
            let key = self.fields[i].0;
            let value = self.fields[i].1.clone();
            fields.push((key, value));
            i += 1;
        }
        let res = Row { fields };
        proof {
            assert(res.fields@ =~= self.fields@);
        }
        res
    }
}

/// The value a row holds under a column id: the value of the first pair
/// whose id matches, or nothing if no pair matches.
pub open spec fn row_value(r: RowModel, id: Seq<char>) -> Option<Seq<char>>
    decreases r.len(),
{
    if r.len() == 0 {
        None
    } else if r[0].0 == id {
        Some(r[0].1)
    } else {
        row_value(r.skip(1), id)
    }
}

/// The sort key of a row under a column id: its value there, or the empty
/// sequence if the row has no such field.
pub open spec fn row_key(r: RowModel, id: Seq<char>) -> Seq<char> {
    match row_value(r, id) {
        Some(v) => v,
        None => Seq::empty(),
    }
}

/// Looks up the value a row holds under a column id.
pub fn row_get<'a>(row: &'a Row, id: &str) -> (r: Option<&'a String>)
    ensures
        match r {
            Some(v) => row_value(row@, id@) == Some(v@),
            None => row_value(row@, id@) is None,
        },
{
    let n = row.fields.len();
    let mut i: usize = 0;
    proof {
        assert(row@.skip(0) =~= row@);
    }
    while i < n
        invariant
            n == row.fields.len(),
            i <= n,
            row_value(row@, id@) == row_value(row@.skip(i as int), id@),
        decreases n - i,
    {
        proof {
            assert(row@.skip(i as int)[0] == row@[i as int]);
            assert(row@[i as int] == (row.fields@[i as int].0@, row.fields@[i as int].1@));
        }
        if str_eq(row.fields[i].0, id) {
            return Some(&row.fields[i].1);
        }
        proof {
            assert(row@.skip(i as int).skip(1) =~= row@.skip(i + 1));
        }
        i += 1;
    }
    proof {
        assert(row@.skip(n as int).len() == 0);
    }
    None
}

} // verus!
