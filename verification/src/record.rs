//! Data points and what they hold.

use vstd::prelude::*;

verus! {

/// One data item: an identifier, a value counted in hundredths, and the label
/// of the category it belongs to.
#[derive(Debug, PartialEq, Eq)]
pub struct DataPoint {
    pub id: u32,
    pub value: i64,
    pub category: String,
}

/// What a data point holds, as mathematics.
pub struct Record {
    pub id: nat,
    pub value: int,
    pub category: Seq<char>,
}

impl View for DataPoint {
    type V = Record;

    open spec fn view(&self) -> Record {
        Record { id: self.id as nat, value: self.value as int, category: self.category@ }
    }
}

impl DeepView for DataPoint {
    type V = Record;

    open spec fn deep_view(&self) -> Record {
        self@
    }
}

impl Clone for DataPoint {
    fn clone(&self) -> (copy: DataPoint)
        ensures
            copy@ == self@,
    {
        DataPoint { id: self.id, value: self.value, category: self.category.clone() }
    }
}

impl DataPoint {
    /// A data point with the given fields.
    pub fn new(id: u32, value: i64, category: &str) -> (point: DataPoint)
        ensures
            point@ == (Record { id: id as nat, value: value as int, category: category@ }),
    {
        DataPoint { id, value, category: category.to_owned() }
    }
}

} // verus!
