//! The clipboard history: captured text snippets in the order of capture.
use vstd::prelude::*;

verus! {

/// An append-only sequence of captured clipboard texts.
///
/// Nothing is ever removed from it or changed in it; the only way it grows
/// is by `append`, which adds one snapshot at the end.
pub struct ClipboardHistory {
    clips: Vec<String>,
}

impl View for ClipboardHistory {
    type V = Seq<Seq<char>>;

    closed spec fn view(&self) -> Seq<Seq<char>> {
        self.clips@.map_values(|s: String| s@)
    }
}

impl ClipboardHistory {
    /// An empty history.
    pub fn new() -> (r: ClipboardHistory)
        ensures
            r@ == Seq::<Seq<char>>::empty(),
    {
        let r = ClipboardHistory { clips: Vec::new() };
        assert(r@ =~= Seq::<Seq<char>>::empty());
        r
    }

    /// Adds `text` at the end of the history.
    pub fn append(&mut self, text: String)
        ensures
            final(self)@ == old(self)@.push(text@),
    {
        self.clips.push(text);
        assert(self@ =~= old(self)@.push(text@));
    }

    /// The number of snapshots held.
    pub fn len(&self) -> (r: usize)
        ensures
            r == self@.len(),
    {
        self.clips.len()
    }

    /// Whether nothing has been captured yet.
    pub fn is_empty(&self) -> (r: bool)
        ensures
            r == (self@.len() == 0),
    {
        self.clips.len() == 0
    }

    /// A copy of every snapshot, oldest first.
    pub fn snapshots(&self) -> (r: Vec<String>)
        ensures
            r@.map_values(|s: String| s@) == self@,
    {
        let mut out: Vec<String> = Vec::new();
        let n = self.clips.len();
        let mut i: usize = 0;
        while i < n
            invariant
                n == self.clips@.len(),
                i <= n,
                out@.len() == i,
                forall|j: int| 0 <= j < i ==> (#[trigger] out@[j])@ == self.clips@[j]@,
            decreases n - i,
        {
            out.push(self.clips[i].clone());
            i = i + 1;
        }
        assert(out@.map_values(|s: String| s@) =~= self@);
        out
    }
}

} // verus!
