//! Bounded, insertion-ordered buffer of log lines.
//!
//! Lines are only appended; when the buffer grows past its capacity the
//! oldest line is evicted first, so it always holds the most recent ones.

use vstd::prelude::*;

verus! {

/// Most lines the buffer retains after an append.
pub const LOG_CAPACITY: usize = 3000;

/// What one append leaves of a line sequence: the new line at the end, and
/// the oldest lines dropped so that at most `LOG_CAPACITY` remain.
pub open spec fn appended(lines: Seq<Seq<char>>, line: Seq<char>) -> Seq<Seq<char>> {
    let grown = lines.push(line);
    if grown.len() <= LOG_CAPACITY {
        grown
    } else {
        grown.skip(grown.len() - LOG_CAPACITY)
    }
}

/// An append always ends with the new line, and the buffer never grows past
/// the capacity.
pub proof fn lemma_appended_shape(lines: Seq<Seq<char>>, line: Seq<char>)
    ensures
        appended(lines, line).len() >= 1,
        appended(lines, line).last() == line,
        appended(lines, line).len() == if lines.len() + 1 <= LOG_CAPACITY {
            lines.len() + 1
        } else {
            LOG_CAPACITY as nat
        },
{
}

pub struct LogBuffer {
    entries: Vec<String>,
}

impl View for LogBuffer {
    type V = Seq<Seq<char>>;

    closed spec fn view(&self) -> Seq<Seq<char>> {
        self.entries.deep_view()
    }
}

impl LogBuffer {
    /// Capacity is never exceeded; constructors establish this and every
    /// method keeps it.
    pub open spec fn inv(&self) -> bool {
        self@.len() <= LOG_CAPACITY
    }

    pub fn new() -> (r: LogBuffer)
        ensures
            r@ == Seq::<Seq<char>>::empty(),
            r.inv(),
    {
        let r = LogBuffer { entries: Vec::new() };
        proof {
            assert(r@ =~~= Seq::<Seq<char>>::empty());
        }
        r
    }

    pub fn len(&self) -> (n: usize)
        ensures
            n == self@.len(),
    {
        self.entries.len()
    }

    /// Appends `line`, evicting the oldest line if the capacity is exceeded.
    pub fn append_line(&mut self, line: String)
        requires
            old(self).inv(),
        ensures
            final(self)@ == appended(old(self)@, line@),
            final(self).inv(),
    {
        self.entries.push(line);
        proof {
            assert(self.entries.deep_view() =~~= old(self).entries.deep_view().push(line@));
        }
        if self.entries.len() > LOG_CAPACITY {
            let ghost grown = self.entries.deep_view();
            self.entries.remove(0);
            proof {
                assert(self.entries.deep_view() =~~= grown.skip(grown.len() - LOG_CAPACITY));
            }
        }
    }

    /// A copy of every line, oldest first.
    pub fn lines(&self) -> (r: Vec<String>)
        ensures
            r.deep_view() == self@,
    {
        let mut r: Vec<String> = Vec::new();
        let mut i: usize = 0;
        proof {
            assert(r.deep_view() =~~= self.entries.deep_view().take(0));
        }
        while i < self.entries.len()
            invariant
                i <= self.entries.len(),
                r.deep_view() == self.entries.deep_view().take(i as int),
            decreases self.entries.len() - i,
        {
            let ghost prev = r.deep_view();
            let copied = self.entries[i].clone();
            proof {
                assert(copied@ == self.entries.deep_view()[i as int]);
            }
            r.push(copied);
            i = i + 1;
            proof {
                assert(forall|j: int|
                    0 <= j < prev.len() ==> #[trigger] r.deep_view()[j] == prev[j]);
                assert(prev.len() == i - 1);
                assert(r.deep_view()[i - 1] == copied@);
                assert(r.deep_view() =~~= self.entries.deep_view().take(i as int));
            }
        }
        proof {
            assert(r.deep_view() =~~= self@);
        }
        r
    }
}

} // verus!
