use vstd::prelude::*;

verus! {

/// One entry of the host's history array, as read from host memory: the
/// entry's text, or `None` where the text pointer is null.
#[derive(Debug)]
pub struct HistEntry {
    pub line: Option<Vec<u8>>,
}

/// The bytes of an entry's text; a null text is the empty record.
pub open spec fn entry_line(e: HistEntry) -> Seq<u8> {
    match e.line {
        Some(v) => v@,
        None => Seq::empty(),
    }
}

impl HistEntry {
    pub fn new(line: Option<Vec<u8>>) -> (r: HistEntry)
        ensures
            r.line == line,
    {
        HistEntry { line }
    }

    /// The entry's text, empty where the text pointer is null.
    pub fn get_line(&self) -> (r: &[u8])
        ensures
            r@ == entry_line(*self),
    {
        match &self.line {
            Some(v) => v.as_slice(),
            None => &[],
        }
    }
}

/// A cursor over the host's null-terminated array of history entries. It
/// names the slot to read next; the caller reads it from host memory and
/// hands it to `next`.
#[derive(Debug)]
pub struct CArray {
    pub ptr: usize,
    pub index: usize,
    pub done: bool,
}

impl CArray {
    /// A cursor at the start of the array at `ptr`; a null array is empty.
    pub fn new(ptr: usize) -> (r: CArray)
        ensures
            r.ptr == ptr,
            r.index == 0,
            r.done == (ptr == 0),
    {
        CArray { ptr, index: 0, done: ptr == 0 }
    }

    /// The array address and index of the slot to read next, or `None`
    /// once the sequence has ended.
    pub fn slot(&self) -> (r: Option<(usize, usize)>)
        ensures
            self.done ==> r is None,
            !self.done ==> r == Some((self.ptr, self.index)),
    {
        if self.done {
            None
        } else {
            Some((self.ptr, self.index))
        }
    }

    /// Takes the slot read at the cursor: a null slot (`None`) ends the
    /// sequence, any other yields its entry's text and moves on. An ended
    /// cursor yields nothing more and stays as it is.
    pub fn next(&mut self, slot: Option<HistEntry>) -> (r: Option<Vec<u8>>)
        requires
            old(self).index < usize::MAX,
        ensures
            final(self).ptr == old(self).ptr,
            old(self).done ==> {
                &&& r is None
                &&& final(self).done
                &&& final(self).index == old(self).index
            },
            !old(self).done && slot is None ==> {
                &&& r is None
                &&& final(self).done
                &&& final(self).index == old(self).index
            },
            !old(self).done && slot is Some ==> {
                &&& r matches Some(l) && l@ == entry_line(slot->Some_0)
                &&& !final(self).done
                &&& final(self).index == old(self).index + 1
            },
    {
        if self.done {
            return None;
        }
        match slot {
            None => {
                self.done = true;
                None
            },
            Some(e) => {
                self.index = self.index + 1;
                match e.line {
                    Some(v) => Some(v),
                    None => Some(Vec::new()),
                }
            },
        }
    }
}

/// The separator written after each record.
pub const NEWLINE: u8 = 10;

/// One record as sent to the selector: its bytes and a newline.
pub open spec fn frame(line: Seq<u8>) -> Seq<u8> {
    line.push(NEWLINE)
}

/// The whole stream for a sequence of records, in order.
pub open spec fn stream(records: Seq<Seq<u8>>) -> Seq<u8>
    decreases records.len(),
{
    if records.len() == 0 {
        Seq::empty()
    } else {
        stream(records.drop_last()) + frame(records.last())
    }
}

/// The bytes to write to the selector for one record.
pub fn frame_record(line: &[u8]) -> (r: Vec<u8>)
    ensures
        r@ == frame(line@),
{
    let mut r: Vec<u8> = Vec::new();
    r.extend_from_slice(line);
    r.push(NEWLINE);
    r
}

/// Streaming two runs of records one after the other sends the stream of
/// the first, then the stream of the second: records keep their order and
/// each is followed by exactly one newline.
pub proof fn lemma_stream_concat(a: Seq<Seq<u8>>, b: Seq<Seq<u8>>)
    ensures
        stream(a + b) == stream(a) + stream(b),
    decreases b.len(),
{
    if b.len() == 0 {
        assert(a + b =~= a);
        assert(stream(b) =~= Seq::<u8>::empty());
        assert(stream(a) + stream(b) =~= stream(a));
    } else {
        lemma_stream_concat(a, b.drop_last());
        assert((a + b).drop_last() =~= a + b.drop_last());
        assert((a + b).last() == b.last());
        assert(stream(a + b) =~= stream(a) + stream(b));
    }
}

/// The stream of a single record is its bytes and one newline.
pub proof fn lemma_stream_single(line: Seq<u8>)
    ensures
        stream(seq![line]) == line.push(NEWLINE),
{
    assert(seq![line].drop_last() =~= Seq::<Seq<u8>>::empty());
    assert(stream(Seq::<Seq<u8>>::empty()) =~= Seq::<u8>::empty());
    assert(stream(seq![line]) =~= line.push(NEWLINE));
}

} // verus!
