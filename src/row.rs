use vstd::prelude::*;

verus! {

/// What a column holds: its name and, unless it is null, its encoded payload.
pub type ColumnView = (Seq<char>, Option<Seq<u8>>);

/// One column of a result row.
pub struct Column {
    pub name: String,
    pub value: Option<Vec<u8>>,
}

impl Column {
    pub open spec fn view_value(&self) -> Option<Seq<u8>> {
        match self.value {
            Some(v) => Some(v@),
            None => None,
        }
    }

    /// The column's payload, or `None` where it is null.
    pub fn value(&self) -> (r: Option<&[u8]>)
        ensures
            match r {
                Some(b) => self.view_value() == Some(b@),
                None => self.view_value() is None,
            },
    {
        match &self.value {
            Some(v) => Some(v.as_slice()),
            None => None,
        }
    }
}

/// One result row: columns in the order the query produced them.
pub struct Row {
    pub columns: Vec<Column>,
}

/// The payloads of a row, by position.
pub open spec fn values_of(row: Seq<ColumnView>) -> Seq<Option<Seq<u8>>> {
    Seq::new(row.len(), |i: int| row[i].1)
}

/// The index of the first column named `name`, if there is one.
pub open spec fn index_of_name(row: Seq<ColumnView>, name: Seq<char>) -> Option<int>
    decreases row.len(),
{
    if row.len() == 0 {
        None
    } else if row[0].0 == name {
        Some(0)
    } else {
        match index_of_name(row.drop_first(), name) {
            Some(i) => Some(i + 1),
            None => None,
        }
    }
}

/// What a lookup by name finds: `None` where no column has the name, else
/// the payload of the first such column (itself `None` where it is null).
pub open spec fn lookup(row: Seq<ColumnView>, name: Seq<char>) -> Option<Option<Seq<u8>>> {
    match index_of_name(row, name) {
        Some(i) => Some(row[i].1),
        None => None,
    }
}

/// No two columns share a name.
pub open spec fn names_unique(row: Seq<ColumnView>) -> bool {
    forall|i: int, j: int| 0 <= i < row.len() && 0 <= j < row.len() && i != j ==> row[i].0 != row[j].0
}

/// `index_of_name` finds the first column of the name, and only it.
pub proof fn lemma_index_of_name(row: Seq<ColumnView>, name: Seq<char>)
    ensures
        match index_of_name(row, name) {
            Some(i) => 0 <= i < row.len() && row[i].0 == name && forall|j: int|
                0 <= j < i ==> row[j].0 != name,
            None => forall|j: int| 0 <= j < row.len() ==> row[j].0 != name,
        },
    decreases row.len(),
{
    if row.len() > 0 {
        lemma_index_of_name(row.drop_first(), name);
        if row[0].0 != name {
            assert forall|j: int| 1 <= j < row.len() implies #[trigger] row[j].0 == row.drop_first()[j
                - 1].0 by {}
        }
    }
}

/// In a row whose names are unique, a lookup finds a column's payload exactly
/// when the row holds that column.
pub proof fn lemma_lookup_unique(row: Seq<ColumnView>, name: Seq<char>)
    requires
        names_unique(row),
    ensures
        forall|v: Option<Seq<u8>>| lookup(row, name) == Some(v) <==> row.contains((name, v)),
{
    lemma_index_of_name(row, name);
    assert forall|v: Option<Seq<u8>>| lookup(row, name) == Some(v) <==> row.contains((name, v)) by {
        if row.contains((name, v)) {
            let k = choose|k: int| 0 <= k < row.len() && row[k] == (name, v);
            let i = index_of_name(row, name)->Some_0;
            assert(i == k);
        }
    }
}

impl View for Row {
    type V = Seq<ColumnView>;

    open spec fn view(&self) -> Seq<ColumnView> {
        Seq::new(self.columns@.len(), |i: int| (self.columns@[i].name@, self.columns@[i].view_value()))
    }
}

impl Row {
    /// The number of columns.
    pub fn len(&self) -> (r: usize)
        ensures
            r == self@.len(),
    {
        self.columns.len()
    }

    /// The column at `position`, counting from zero.
    pub fn get(&self, position: usize) -> (r: Option<&Column>)
        ensures
            position < self@.len() ==> r == Some(&self.columns@[position as int]),
            position >= self@.len() ==> r is None,
    {
        if position < self.columns.len() {
            Some(&self.columns[position])
        } else {
            None
        }
    }

    /// The first column named `name`, if there is one.
    pub fn get_by_name(&self, name: &str) -> (r: Option<&Column>)
        ensures
            match index_of_name(self@, name@) {
                Some(i) => r == Some(&self.columns@[i]),
                None => r is None,
            },
    {
        let key = String::from_str(name);
        let mut i: usize = 0;
        while i < self.columns.len()
            invariant
                i <= self.columns@.len(),
                key@ == name@,
                forall|j: int| 0 <= j < i ==> self@[j].0 != name@,
            decreases self.columns@.len() - i,
        {
            if self.columns[i].name == key {
                proof {
                    lemma_index_of_name(self@, name@);
                }
                assert(self@[i as int].0 == name@);
                return Some(&self.columns[i]);
            }
            i = i + 1;
        }
        proof {
            lemma_index_of_name(self@, name@);
        }
        None
    }

    /// A view of this row that starts at `start`.
    pub fn partial(&self, start: usize) -> (r: PartialRow<'_>)
        requires
            start <= self@.len(),
        ensures
            r.row == self,
            r.start == start,
    {
        PartialRow { row: self, start }
    }
}

/// A row seen from a start position on, so that composite builders can hand
/// the rest of a row to the builder of their later slots.
pub struct PartialRow<'a> {
    pub row: &'a Row,
    pub start: usize,
}

impl<'a> PartialRow<'a> {
    pub open spec fn wf(&self) -> bool {
        self.start <= self.row@.len()
    }

    /// The same row, one position further on.
    pub fn skip_one(&self) -> (r: PartialRow<'a>)
        requires
            self.wf(),
            self.start < self.row@.len(),
        ensures
            r.wf(),
            r.row == self.row,
            r.start == self.start + 1,
    {
        let _n = self.row.len();
        PartialRow { row: self.row, start: self.start + 1 }
    }
}

} // verus!
