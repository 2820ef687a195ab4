//! The diagnostic log of a program.

use vstd::prelude::*;

verus! {

/// An append-only sequence of diagnostic records. Its view is the records in
/// the order in which they were appended, each as its text.
#[derive(Debug)]
pub struct Log {
    records: Vec<String>,
}

impl View for Log {
    type V = Seq<Seq<char>>;

    closed spec fn view(&self) -> Seq<Seq<char>> {
        Seq::new(self.records@.len(), |i: int| self.records@[i]@)
    }
}

impl Log {
    /// A log that holds no record.
    pub fn new() -> (log: Log)
        ensures
            log@ == Seq::<Seq<char>>::empty(),
    {
        Log { records: Vec::new() }
    }

    /// Appends one record. The records already there stay as they are.
    pub fn append(&mut self, record: String)
        ensures
            final(self)@ == old(self)@.push(record@),
    {
        self.records.push(record);
    }

    /// The records, oldest first.
    pub fn records(&self) -> (records: &Vec<String>)
        ensures
            records@.len() == self@.len(),
            forall|i: int| 0 <= i < records@.len() ==> (#[trigger] records@[i])@ == self@[i],
    {
        &self.records
    }
}

} // verus!
