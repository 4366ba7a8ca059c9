//! The samples a graph shows: a window of fixed length over the most recent values.

use vstd::prelude::*;

verus! {

/// Number of samples a graph keeps.
pub const GRAPH_DATA_POINT_COUNT: usize = 60;

pub struct GraphData<T> {
    data_points: Vec<T>,
}

impl<T> View for GraphData<T> {
    type V = Seq<T>;

    closed spec fn view(&self) -> Seq<T> {
        self.data_points@
    }
}

/// The window after a value is added: the value is appended and the oldest sample
/// dropped.
pub open spec fn shifted<T>(s: Seq<T>, value: T) -> Seq<T> {
    s.push(value).drop_first()
}

/// The window after the values `vs` are added in order.
pub open spec fn shifted_all<T>(s: Seq<T>, vs: Seq<T>) -> Seq<T>
    decreases vs.len(),
{
    if vs.len() == 0 {
        s
    } else {
        shifted(shifted_all(s, vs.drop_last()), vs.last())
    }
}

impl<T: Copy> GraphData<T> {
    /// A window of `GRAPH_DATA_POINT_COUNT` samples, each `fill`.
    pub fn new(fill: T) -> (r: Self)
        ensures
            r@ == Seq::new(GRAPH_DATA_POINT_COUNT as nat, |_i: int| fill),
    {
        let mut data_points: Vec<T> = Vec::new();
        let mut i: usize = 0;
        while i < GRAPH_DATA_POINT_COUNT
            invariant
                i <= GRAPH_DATA_POINT_COUNT,
                data_points@ == Seq::new(i as nat, |_i: int| fill),
            decreases GRAPH_DATA_POINT_COUNT - i,
        {
            data_points.push(fill);
            proof {
                assert(data_points@ =~= Seq::new((i + 1) as nat, |_i: int| fill));
            }
            i = i + 1;
        }
        GraphData { data_points }
    }

    /// Adds the newest sample; the oldest one leaves.
    pub fn add_data_point(&mut self, value: T)
        ensures
            final(self)@ == shifted(old(self)@, value),
    {
        self.data_points.push(value);
        self.data_points.remove(0);
    }

    pub fn data_points(&self) -> (r: &[T])
        ensures
            r@ == self@,
    {
        self.data_points.as_slice()
    }
}

/// Law: adding values keeps the window's length, and the window then holds the
/// last samples of its old contents followed by the values added.
pub proof fn lemma_window_keeps_latest<T>(s: Seq<T>, vs: Seq<T>)
    ensures
        shifted_all(s, vs) == (s + vs).subrange(vs.len() as int, (s.len() + vs.len()) as int),
        shifted_all(s, vs).len() == s.len(),
    decreases vs.len(),
{
    if vs.len() > 0 {
        lemma_window_keeps_latest(s, vs.drop_last());
        assert((s + vs).subrange(vs.len() as int, (s.len() + vs.len()) as int) =~= (s + vs.drop_last()).subrange(
            vs.len() - 1,
            s.len() + vs.len() - 1,
        ).push(vs.last()).drop_first());
    } else {
        assert((s + vs).subrange(0, s.len() as int) =~= s);
    }
}

} // verus!
