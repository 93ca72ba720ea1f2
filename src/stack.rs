use vstd::prelude::*;

verus! {

/// One factor of the system matrix, naming the layers it is built from by
/// their position in the stack.
#[derive(Clone, Copy, Debug, PartialEq, Eq, Structural)]
pub enum Step {
    /// The propagation operator of the layer at this position: the phase
    /// accumulated across its thickness.
    Propagate(usize),
    /// The transmission operator at the boundary between the layer at `from`
    /// and the layer at `to`, which follows it.
    Transmit { from: usize, to: usize },
}

/// The factor at position `i` of a schedule: even positions propagate through
/// layer `i / 2`, odd positions cross from that layer into the next.
pub open spec fn step_at(i: int) -> Step {
    if i % 2 == 0 {
        Step::Propagate((i / 2) as usize)
    } else {
        Step::Transmit { from: (i / 2) as usize, to: (i / 2 + 1) as usize }
    }
}

/// The factors whose product, left to right, is the system matrix of a stack
/// of `n >= 1` layers: for each adjacent pair `(k, k + 1)`, the propagation
/// through `k` and then the transmission from `k` into `k + 1`. The last
/// layer never contributes a propagation of its own.
pub open spec fn schedule(n: nat) -> Seq<Step>
    recommends
        n >= 1,
{
    Seq::new((2 * (n - 1)) as nat, |i: int| step_at(i))
}

/// What `transfer_schedule` returns for a stack whose layers are `layers`:
/// no result for an empty stack, else the schedule of its length.
pub open spec fn schedule_of<L>(layers: Seq<L>) -> Option<Seq<Step>> {
    if layers.len() == 0 {
        None
    } else {
        Some(schedule(layers.len()))
    }
}

/// A stack of a single layer, whatever that layer is, has a schedule with no
/// factor: its system matrix is the identity at every wavelength.
pub proof fn lemma_single_layer_is_identity<L>(s: LayerStack<L>)
    requires
        s@.len() == 1,
    ensures
        schedule_of(s@) == Some(Seq::<Step>::empty()),
{
    assert(schedule(1) =~= Seq::<Step>::empty());
}

/// A stack with no layer, a new one in particular, has no schedule and so no
/// result.
pub proof fn lemma_empty_stack_has_no_result<L>(s: LayerStack<L>)
    requires
        s@.len() == 0,
    ensures
        schedule_of(s@) is None,
{
}

/// Asking twice of a stack that was not changed in between gives the same
/// schedule: the answer depends on the layers alone.
pub proof fn lemma_schedule_is_repeatable<L>(a: LayerStack<L>, b: LayerStack<L>)
    requires
        a@ == b@,
    ensures
        schedule_of(a@) == schedule_of(b@),
{
}

/// An ordered sequence of layers, in the order light crosses them: the
/// incident medium first, the exit medium last.
pub struct LayerStack<L> {
    layers: Vec<L>,
}

impl<L> View for LayerStack<L> {
    type V = Seq<L>;

    closed spec fn view(&self) -> Seq<L> {
        self.layers@
    }
}

impl<L> LayerStack<L> {
    /// A stack with no layers.
    pub fn new() -> (s: Self)
        ensures
            s@ == Seq::<L>::empty(),
    {
        LayerStack { layers: Vec::new() }
    }

    /// Appends `layer` behind the layers already in the stack.
    pub fn add_layer(&mut self, layer: L)
        ensures
            final(self)@ == old(self)@.push(layer),
    {
        self.layers.push(layer);
    }

    /// The number of layers.
    pub fn len(&self) -> (r: usize)
        ensures
            r == self@.len(),
    {
        self.layers.len()
    }

    /// Whether the stack holds no layer.
    pub fn is_empty(&self) -> (r: bool)
        ensures
            r == (self@.len() == 0),
    {
        self.layers.len() == 0
    }

    /// The layer at position `i`, counted from the incident medium.
    pub fn layer(&self, i: usize) -> (r: &L)
        requires
            i < self@.len(),
        ensures
            *r == self@[i as int],
    {
        &self.layers[i]
    }

    /// The factors of the system matrix, in the order they are multiplied
    /// onto the identity; `None` when the stack has no layer, since there is
    /// then no optical system to describe. A stack of one layer gives no
    /// factor at all: its system matrix is the identity.
    pub fn transfer_schedule(&self) -> (r: Option<Vec<Step>>)
        ensures
            r.is_none() <==> self@.len() == 0,
            r matches Some(v) ==> Some(v@) == schedule_of(self@),
    {
        let n: usize = self.layers.len();
        if n == 0 {
            return None;
        }
        let mut steps: Vec<Step> = Vec::new();
        let mut k: usize = 0;
        while k + 1 < n
            invariant
                n == self@.len(),
                n >= 1,
                k < n,
                steps@ == Seq::new((2 * k) as nat, |i: int| step_at(i)),
            decreases n - k,
        {
            steps.push(Step::Propagate(k));
            steps.push(Step::Transmit { from: k, to: k + 1 });
            proof {
                assert(step_at(2 * k as int) == Step::Propagate(k));
                assert(step_at(2 * k + 1) == (Step::Transmit { from: k, to: (k + 1) as usize }));
            }
            assert(steps@ =~= Seq::new((2 * (k + 1)) as nat, |i: int| step_at(i)));
            k = k + 1;
        }
        assert(steps@ =~= schedule(n as nat));
        Some(steps)
    }
}

} // verus!
