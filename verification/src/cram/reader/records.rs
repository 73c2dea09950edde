//! The records of a file, one container after the other.

use crate::cram::Record;
use vstd::prelude::*;

verus! {

/// Serves the records of a file in their order. It holds the records of one
/// container; when it has served them all, the caller reads the next
/// container and hands over the records of its slices.
#[derive(Debug)]
pub struct Records {
    records: Vec<Record>,
    served: usize,
}

impl View for Records {
    type V = Seq<Record>;

    /// The records held that were not served yet.
    closed spec fn view(&self) -> Seq<Record> {
        if self.served <= self.records@.len() {
            self.records@.skip(self.served as int)
        } else {
            Seq::empty()
        }
    }
}

/// The sequences that the vectors of `slices` hold.
pub open spec fn slices_view(slices: Seq<Vec<Record>>) -> Seq<Seq<Record>> {
    slices.map_values(|slice: Vec<Record>| slice@)
}

impl Records {
    /// An iterator that holds no record yet.
    pub fn new() -> (r: Records)
        ensures
            r@ == Seq::<Record>::empty(),
    {
        Records { records: Vec::new(), served: 0 }
    }

    /// Takes what reading the next container gave: `None` at the end of the
    /// file, else the records of each of its slices. Returns whether the file
    /// has ended. The records of a container are served slice by slice, and
    /// replace whatever was held.
    pub fn read_container_records(&mut self, container: Option<Vec<Vec<Record>>>) -> (r: bool)
        ensures
            match container {
                None => r && final(self)@ == old(self)@,
                Some(slices) => !r && final(self)@ == slices_view(slices@).flatten(),
            },
    {
        let slices: Vec<Vec<Record>> = match container {
            Some(c) => c,
            None => { return true; },
        };

        let ghost views = slices_view(slices@);
        let mut records: Vec<Record> = Vec::new();
        let n: usize = slices.len();
        let mut i: usize = 0;
        assert(views.take(0).flatten() =~= Seq::<Record>::empty());
        while i < n
            invariant
                i <= n,
                n == slices@.len(),
                views == slices_view(slices@),
                records@ == views.take(i as int).flatten(),
            decreases n - i,
        {
            let slice = &slices[i];
            let ghost before = records@;
            let m: usize = slice.len();
            let mut j: usize = 0;
            while j < m
                invariant
                    j <= m,
                    m == slice@.len(),
                    records@ == before + slice@.take(j as int),
                decreases m - j,
            {
                records.push(slice[j]);
                assert(slice@.take(j + 1) =~= slice@.take(j as int).push(slice@[j as int]));
                j = j + 1;
            }
            assert(slice@.take(m as int) =~= slice@);
            proof {
                views.take(i as int).lemma_flatten_push(views[i as int]);
                assert(views.take(i + 1) =~= views.take(i as int).push(views[i as int]));
            }
            i = i + 1;
        }
        assert(views.take(n as int) =~= views);

        self.records = records;
        self.served = 0;
        assert(self@ =~= views.flatten());
        false
    }

    /// The next of the records held, or `None` where all were served: then
    /// it is time to read the next container.
    pub fn next(&mut self) -> (r: Option<Record>)
        ensures
            old(self)@.len() == 0 ==> r is None && final(self)@ == old(self)@,
            old(self)@.len() > 0 ==> r == Some(old(self)@.first()) && final(self)@ == old(
                self,
            )@.drop_first(),
    {
        if self.served < self.records.len() {
            let record: Record = self.records[self.served];
            self.served = self.served + 1;
            assert(self@ =~= old(self)@.drop_first());
            Some(record)
        } else {
            None
        }
    }
}

} // verus!
