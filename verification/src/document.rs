//! An ordered sequence of rows plus an optional display name. Out-of-range
//! queries answer with absence, never with a failure: row lookup returning
//! nothing is the signal for "past end of document".

use vstd::prelude::*;

use crate::row::Row;

verus! {

/// A document: rows in line order, and an optional file name. The empty
/// sequence is valid and stands for "no file".
pub struct Document {
    rows: Vec<Row>,
    file_name: Option<String>,
}

impl Document {
    /// The rows themselves, for stating their well-formedness.
    pub closed spec fn spec_rows(&self) -> Seq<Row> {
        self.rows@
    }

    /// The display name, if the document has one.
    pub closed spec fn spec_file_name(&self) -> Option<Seq<char>> {
        match self.file_name {
            Some(ref s) => Some(s@),
            None => None,
        }
    }

    /// The text of each row, in line order.
    pub open spec fn texts(&self) -> Seq<Seq<char>> {
        self.spec_rows().map(|i: int, r: Row| r.text())
    }

    /// Every row's rendering cache is in sync with its content.
    pub open spec fn wf(&self) -> bool {
        forall|i: int|
            0 <= i < self.spec_rows().len() ==> (#[trigger] self.spec_rows()[i]).wf()
    }

    /// The empty document, standing for "no file".
    pub fn default() -> (d: Document)
        ensures
            d.wf(),
            d.texts() == Seq::<Seq<char>>::empty(),
            d.spec_file_name() is None,
    {
        let d = Document { rows: Vec::new(), file_name: None };
        proof {
            assert(d.texts() =~= Seq::<Seq<char>>::empty());
        }
        d
    }

    /// Builds a document from pre-split lines, one row per line, keeping
    /// line order. The caller supplies the display name.
    pub fn from_lines(lines: Vec<String>, file_name: Option<String>) -> (d: Document)
        ensures
            d.wf(),
            d.texts() == lines.deep_view(),
            d.spec_file_name() == match file_name {
                Some(s) => Some(s@),
                None => None::<Seq<char>>,
            },
    {
        let mut rows: Vec<Row> = Vec::new();
        let mut i: usize = 0;
        while i < lines.len()
            invariant
                i <= lines.len(),
                rows@.len() == i,
                forall|j: int|
                    0 <= j < i ==> (#[trigger] rows@[j]).text() == lines@[j]@ && rows@[j].wf(),
            decreases lines.len() - i,
        {
            let line = lines[i].clone();
            rows.push(Row::new(line));
            i = i + 1;
        }
        let d = Document { rows, file_name };
        proof {
            assert(d.texts() =~= lines.deep_view());
        }
        d
    }

    /// Number of rows.
    pub fn len(&self) -> (n: usize)
        ensures
            n == self.texts().len(),
    {
        self.rows.len()
    }

    /// Whether the document has no rows.
    pub fn is_empty(&self) -> (b: bool)
        ensures
            b == (self.texts().len() == 0),
    {
        self.rows.len() == 0
    }

    /// The row at `index`, or nothing when `index` is past the end.
    pub fn row(&self, index: usize) -> (r: Option<&Row>)
        ensures
            match r {
                Some(row) => index < self.texts().len() && row.text() == self.texts()[
                    index as int
                ] && (self.wf() ==> row.wf()),
                None => index >= self.texts().len(),
            },
    {
        if index < self.rows.len() {
            Some(&self.rows[index])
        } else {
            None
        }
    }

    /// The display name, if any.
    pub fn file_name(&self) -> (r: &Option<String>)
        ensures
            match r {
                Some(s) => self.spec_file_name() == Some(s@),
                None => self.spec_file_name() is None,
            },
    {
        &self.file_name
    }
}

} // verus!
