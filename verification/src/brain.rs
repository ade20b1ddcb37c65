//! Recurrent network data: hidden-state vectors, gate weight blocks, the
//! layered network, and the mutation operator.
//!
//! All scalars are `u32` activation codes (see the crate root).

use vstd::prelude::*;

verus! {

/// Width of every hidden-state vector.
pub const HIDDEN_LEN: usize = 32;

/// Width of the input layer's input: one signal per neighbour direction plus
/// one scalar for the held-block state.
pub const INPUT_LEN: usize = 9;

/// Number of internal layers stacked after the input layer.
pub const EXTRA_LAYERS: usize = 2;

/// Entry count of a hidden-weight matrix (stored flat, row major).
pub const HIDDEN_WEIGHT_COUNT: usize = 1024;

/// Code of one half: the bit pattern of 0.5 in single precision.  It is the
/// neutral value hidden state starts from.
pub const HALF_CODE: u32 = 0x3F00_0000;

/// Mathematical model of a gate: three flat blocks of activation codes.
#[verifier::ext_equal]
pub struct GateView {
    pub hidden: Seq<u32>,
    pub input: Seq<u32>,
    pub bias: Seq<u32>,
}

/// One gate of a recurrent unit: an affine map given by a hidden-weight
/// matrix, an input-weight matrix, and a bias vector, all stored flat.
#[derive(Debug, Clone, PartialEq)]
pub struct Gate {
    pub hidden_weights: Vec<u32>,
    pub input_weights: Vec<u32>,
    pub biases: Vec<u32>,
}

impl View for Gate {
    type V = GateView;

    open spec fn view(&self) -> GateView {
        GateView {
            hidden: self.hidden_weights@,
            input: self.input_weights@,
            bias: self.biases@,
        }
    }
}

/// A gate is well formed when its blocks have the fixed shape for the given
/// input width: 32 x 32 hidden weights, 32 x `in_len` input weights, and 32
/// biases.
pub open spec fn gate_wf(g: GateView, in_len: int) -> bool {
    &&& g.hidden.len() == HIDDEN_WEIGHT_COUNT
    &&& g.input.len() == HIDDEN_LEN * in_len
    &&& g.bias.len() == HIDDEN_LEN
}

impl Gate {
    /// Structural copy of every weight block.
    pub fn duplicate(&self) -> (r: Gate)
        ensures
            r@ == self@,
    {
        let r = Gate {
            hidden_weights: copy_codes(&self.hidden_weights),
            input_weights: copy_codes(&self.input_weights),
            biases: copy_codes(&self.biases),
        };
        assert(r@ =~= self@);
        r
    }
}

/// Mathematical model of a minimal gated recurrent unit: a forget gate and an
/// output gate.
#[verifier::ext_equal]
pub struct MguView {
    pub forget: GateView,
    pub output: GateView,
}

/// A minimal gated recurrent unit for an internal layer: both gates read a
/// 32-wide input.
#[derive(Debug, Clone, PartialEq)]
pub struct MGRU {
    pub forget_gate: Gate,
    pub output_gate: Gate,
}

impl View for MGRU {
    type V = MguView;

    open spec fn view(&self) -> MguView {
        MguView { forget: self.forget_gate@, output: self.output_gate@ }
    }
}

/// A minimal gated recurrent unit for the input layer: both gates read the
/// 9-wide sensor input.
#[derive(Debug, Clone, PartialEq)]
pub struct MGRUInput {
    pub forget_gate: Gate,
    pub output_gate: Gate,
}

impl View for MGRUInput {
    type V = MguView;

    open spec fn view(&self) -> MguView {
        MguView { forget: self.forget_gate@, output: self.output_gate@ }
    }
}

pub open spec fn mgu_wf(m: MguView, in_len: int) -> bool {
    &&& gate_wf(m.forget, in_len)
    &&& gate_wf(m.output, in_len)
}

/// Mathematical model of a network: the input layer followed by the stack of
/// internal layers.
#[verifier::ext_equal]
pub struct NetworkView {
    pub input_layer: MguView,
    pub internal: Seq<MguView>,
}

/// The immutable configuration of a brain: one input-layer unit and
/// `EXTRA_LAYERS` internal units.
#[derive(Debug, Clone, PartialEq)]
pub struct Network {
    pub input_gru: MGRUInput,
    pub internal_grus: Vec<MGRU>,
}

impl View for Network {
    type V = NetworkView;

    open spec fn view(&self) -> NetworkView {
        NetworkView {
            input_layer: self.input_gru@,
            internal: self.internal_grus@.map_values(|m: MGRU| m@),
        }
    }
}

pub open spec fn network_wf(n: NetworkView) -> bool {
    &&& mgu_wf(n.input_layer, INPUT_LEN as int)
    &&& n.internal.len() == EXTRA_LAYERS
    &&& forall|i: int| 0 <= i < n.internal.len() ==> mgu_wf(#[trigger] n.internal[i], HIDDEN_LEN as int)
}

/// Mathematical model of a hidden state: one 32-wide vector per layer.
#[verifier::ext_equal]
pub struct HiddensView {
    pub input_hiddens: Seq<u32>,
    pub internal_hiddens: Seq<Seq<u32>>,
}

/// Per-tick working memory of a brain: the hidden vector of the input layer
/// and of each internal layer.
#[derive(Debug, Clone, PartialEq)]
pub struct Hiddens {
    pub input_hiddens: Vec<u32>,
    pub internal_hiddens: Vec<Vec<u32>>,
}

impl View for Hiddens {
    type V = HiddensView;

    open spec fn view(&self) -> HiddensView {
        HiddensView {
            input_hiddens: self.input_hiddens@,
            internal_hiddens: self.internal_hiddens@.map_values(|v: Vec<u32>| v@),
        }
    }
}

pub open spec fn hiddens_wf(h: HiddensView) -> bool {
    &&& h.input_hiddens.len() == HIDDEN_LEN
    &&& h.internal_hiddens.len() == EXTRA_LAYERS
    &&& forall|i: int|
        0 <= i < h.internal_hiddens.len() ==> (#[trigger] h.internal_hiddens[i]).len() == HIDDEN_LEN
}

/// The externally visible signal of a hidden state: the last internal layer's
/// vector, or the input layer's when there is no internal layer.
pub open spec fn output_spec(h: HiddensView) -> Seq<u32> {
    if h.internal_hiddens.len() == 0 {
        h.input_hiddens
    } else {
        h.internal_hiddens.last()
    }
}

impl Hiddens {
    /// The decision vector read by the decoder and by neighbours' sensors.
    pub fn output(&self) -> (r: &Vec<u32>)
        ensures
            r@ == output_spec(self@),
    {
        if self.internal_hiddens.len() == 0 {
            &self.input_hiddens
        } else {
            &self.internal_hiddens[self.internal_hiddens.len() - 1]
        }
    }

    /// Structural copy of every layer's vector.
    pub fn duplicate(&self) -> (r: Hiddens)
        ensures
            r@ == self@,
    {
        let mut internal: Vec<Vec<u32>> = Vec::new();
        let mut i: usize = 0;
        while i < self.internal_hiddens.len()
            invariant
                i <= self.internal_hiddens@.len(),
                internal@.len() == i,
                forall|k: int| 0 <= k < i ==> (#[trigger] internal@[k])@ == self.internal_hiddens@[k]@,
            decreases self.internal_hiddens@.len() - i,
        {
            internal.push(copy_codes(&self.internal_hiddens[i]));
            i = i + 1;
        }
        let r = Hiddens {
            input_hiddens: copy_codes(&self.input_hiddens),
            internal_hiddens: internal,
        };
        assert(r@.internal_hiddens =~= self@.internal_hiddens);
        assert(r@ =~= self@);
        r
    }
}

impl Default for Hiddens {
    /// A neutral hidden state: every scalar is one half.
    fn default() -> (r: Hiddens)
        ensures
            r@.input_hiddens == Seq::new(HIDDEN_LEN as nat, |i: int| HALF_CODE),
            r@.internal_hiddens == Seq::new(
                EXTRA_LAYERS as nat,
                |i: int| Seq::new(HIDDEN_LEN as nat, |j: int| HALF_CODE),
            ),
            hiddens_wf(r@),
    {
        let input_hiddens = half_vector();
        let mut internal_hiddens: Vec<Vec<u32>> = Vec::new();
        let mut i: usize = 0;
        while i < EXTRA_LAYERS
            invariant
                i <= EXTRA_LAYERS,
                internal_hiddens@.len() == i,
                forall|k: int|
                    0 <= k < i ==> (#[trigger] internal_hiddens@[k])@
                        == Seq::new(HIDDEN_LEN as nat, |j: int| HALF_CODE),
            decreases EXTRA_LAYERS - i,
        {
            internal_hiddens.push(half_vector());
            i = i + 1;
        }
        let r = Hiddens { input_hiddens, internal_hiddens };
        assert(r@.internal_hiddens =~= Seq::new(
            EXTRA_LAYERS as nat,
            |i: int| Seq::new(HIDDEN_LEN as nat, |j: int| HALF_CODE),
        ));
        r
    }
}

/// A 32-wide vector of neutral codes.
fn half_vector() -> (r: Vec<u32>)
    ensures
        r@ == Seq::new(HIDDEN_LEN as nat, |i: int| HALF_CODE),
{
    let mut r: Vec<u32> = Vec::new();
    let mut i: usize = 0;
    while i < HIDDEN_LEN
        invariant
            i <= HIDDEN_LEN,
            r@ =~= Seq::new(i as nat, |k: int| HALF_CODE),
        decreases HIDDEN_LEN - i,
    {
        r.push(HALF_CODE);
        assert(r@ =~= Seq::new((i + 1) as nat, |k: int| HALF_CODE));
        i = i + 1;
    }
    assert(r@ =~= Seq::new(HIDDEN_LEN as nat, |i: int| HALF_CODE));
    r
}

impl MGRU {
    /// Structural copy of both gates.
    pub fn duplicate(&self) -> (r: MGRU)
        ensures
            r@ == self@,
    {
        let r = MGRU {
            forget_gate: self.forget_gate.duplicate(),
            output_gate: self.output_gate.duplicate(),
        };
        assert(r@ =~= self@);
        r
    }
}

impl MGRUInput {
    /// Structural copy of both gates.
    pub fn duplicate(&self) -> (r: MGRUInput)
        ensures
            r@ == self@,
    {
        let r = MGRUInput {
            forget_gate: self.forget_gate.duplicate(),
            output_gate: self.output_gate.duplicate(),
        };
        assert(r@ =~= self@);
        r
    }
}

impl Network {
    /// Structural copy of every layer.
    pub fn duplicate(&self) -> (r: Network)
        ensures
            r@ == self@,
    {
        let mut internal: Vec<MGRU> = Vec::new();
        let mut i: usize = 0;
        while i < self.internal_grus.len()
            invariant
                i <= self.internal_grus@.len(),
                internal@.len() == i,
                forall|k: int| 0 <= k < i ==> (#[trigger] internal@[k])@ == self.internal_grus@[k]@,
            decreases self.internal_grus@.len() - i,
        {
            internal.push(self.internal_grus[i].duplicate());
            i = i + 1;
        }
        let r = Network { input_gru: self.input_gru.duplicate(), internal_grus: internal };
        assert(r@.internal =~= self@.internal);
        assert(r@ =~= self@);
        r
    }
}

/// One mutation event: the targeted entry of a weight block is replaced with
/// a fresh activation code.
#[derive(Debug, Clone, Copy, PartialEq, Eq, Structural)]
pub struct MutEvent {
    pub index: usize,
    pub value: u32,
}

/// A block of codes after a list of mutation events, applied in order.
pub open spec fn apply_events_seq(s: Seq<u32>, evs: Seq<MutEvent>) -> Seq<u32>
    decreases evs.len(),
{
    if evs.len() == 0 {
        s
    } else {
        apply_events_seq(s, evs.drop_last()).update(evs.last().index as int, evs.last().value)
    }
}

/// Every event of the list targets an entry of a block of the given length.
pub open spec fn events_fit(evs: Seq<MutEvent>, len: int) -> bool {
    forall|i: int| 0 <= i < evs.len() ==> (#[trigger] evs[i]).index < len
}

/// Mutation events never change a block's shape.
pub proof fn lemma_apply_events_len(s: Seq<u32>, evs: Seq<MutEvent>)
    requires
        events_fit(evs, s.len() as int),
    ensures
        apply_events_seq(s, evs).len() == s.len(),
    decreases evs.len(),
{
    if evs.len() > 0 {
        assert(events_fit(evs.drop_last(), s.len() as int)) by {
            assert(forall|i: int|
                0 <= i < evs.len() - 1 ==> evs.drop_last()[i] == #[trigger] evs[i]);
        }
        lemma_apply_events_len(s, evs.drop_last());
    }
}

/// The mutation events drawn for one gate, one list per weight block.
#[derive(Debug, Clone, PartialEq)]
pub struct GateEvents {
    pub hidden: Vec<MutEvent>,
    pub input: Vec<MutEvent>,
    pub bias: Vec<MutEvent>,
}

#[verifier::ext_equal]
pub struct GateEventsView {
    pub hidden: Seq<MutEvent>,
    pub input: Seq<MutEvent>,
    pub bias: Seq<MutEvent>,
}

impl View for GateEvents {
    type V = GateEventsView;

    open spec fn view(&self) -> GateEventsView {
        GateEventsView { hidden: self.hidden@, input: self.input@, bias: self.bias@ }
    }
}

pub open spec fn gate_events_fit(e: GateEventsView, g: GateView) -> bool {
    &&& events_fit(e.hidden, g.hidden.len() as int)
    &&& events_fit(e.input, g.input.len() as int)
    &&& events_fit(e.bias, g.bias.len() as int)
}

pub open spec fn gate_events_total(e: GateEventsView) -> nat {
    e.hidden.len() + e.input.len() + e.bias.len()
}

pub open spec fn gate_apply_spec(g: GateView, e: GateEventsView) -> GateView {
    GateView {
        hidden: apply_events_seq(g.hidden, e.hidden),
        input: apply_events_seq(g.input, e.input),
        bias: apply_events_seq(g.bias, e.bias),
    }
}

/// The mutation events drawn for one recurrent unit.
#[derive(Debug, Clone, PartialEq)]
pub struct MguEvents {
    pub forget: GateEvents,
    pub output: GateEvents,
}

#[verifier::ext_equal]
pub struct MguEventsView {
    pub forget: GateEventsView,
    pub output: GateEventsView,
}

impl View for MguEvents {
    type V = MguEventsView;

    open spec fn view(&self) -> MguEventsView {
        MguEventsView { forget: self.forget@, output: self.output@ }
    }
}

pub open spec fn mgu_events_fit(e: MguEventsView, m: MguView) -> bool {
    &&& gate_events_fit(e.forget, m.forget)
    &&& gate_events_fit(e.output, m.output)
}

pub open spec fn mgu_events_total(e: MguEventsView) -> nat {
    gate_events_total(e.forget) + gate_events_total(e.output)
}

pub open spec fn mgu_apply_spec(m: MguView, e: MguEventsView) -> MguView {
    MguView {
        forget: gate_apply_spec(m.forget, e.forget),
        output: gate_apply_spec(m.output, e.output),
    }
}

/// The mutation events drawn for a whole network, one unit's worth per layer.
#[derive(Debug, Clone, PartialEq)]
pub struct NetworkEvents {
    pub input_layer: MguEvents,
    pub internal: Vec<MguEvents>,
}

#[verifier::ext_equal]
pub struct NetworkEventsView {
    pub input_layer: MguEventsView,
    pub internal: Seq<MguEventsView>,
}

impl View for NetworkEvents {
    type V = NetworkEventsView;

    open spec fn view(&self) -> NetworkEventsView {
        NetworkEventsView {
            input_layer: self.input_layer@,
            internal: self.internal@.map_values(|m: MguEvents| m@),
        }
    }
}

pub open spec fn net_events_fit(e: NetworkEventsView, n: NetworkView) -> bool {
    &&& mgu_events_fit(e.input_layer, n.input_layer)
    &&& e.internal.len() == n.internal.len()
    &&& forall|i: int|
        0 <= i < e.internal.len() ==> mgu_events_fit(#[trigger] e.internal[i], n.internal[i])
}

pub open spec fn net_events_total(e: NetworkEventsView) -> nat
    decreases e.internal.len(),
{
    if e.internal.len() == 0 {
        mgu_events_total(e.input_layer)
    } else {
        net_events_total(NetworkEventsView { internal: e.internal.drop_last(), ..e })
            + mgu_events_total(e.internal.last())
    }
}

pub open spec fn net_apply_spec(n: NetworkView, e: NetworkEventsView) -> NetworkView {
    NetworkView {
        input_layer: mgu_apply_spec(n.input_layer, e.input_layer),
        internal: Seq::new(n.internal.len(), |i: int| mgu_apply_spec(n.internal[i], e.internal[i])),
    }
}

/// Mutation events shaped for one gate of the fixed layer geometry.
pub open spec fn gate_events_wf(e: GateEventsView, in_len: int) -> bool {
    &&& events_fit(e.hidden, HIDDEN_WEIGHT_COUNT as int)
    &&& events_fit(e.input, HIDDEN_LEN * in_len)
    &&& events_fit(e.bias, HIDDEN_LEN as int)
}

pub open spec fn mgu_events_wf(e: MguEventsView, in_len: int) -> bool {
    &&& gate_events_wf(e.forget, in_len)
    &&& gate_events_wf(e.output, in_len)
}

/// Mutation events shaped for a whole well-formed network.
pub open spec fn net_events_wf(e: NetworkEventsView) -> bool {
    &&& mgu_events_wf(e.input_layer, INPUT_LEN as int)
    &&& e.internal.len() == EXTRA_LAYERS
    &&& forall|i: int|
        0 <= i < e.internal.len() ==> mgu_events_wf(#[trigger] e.internal[i], HIDDEN_LEN as int)
}

/// Events shaped for the fixed geometry fit every well-formed network.
pub proof fn lemma_net_events_wf_fit(e: NetworkEventsView, n: NetworkView)
    requires
        net_events_wf(e),
        network_wf(n),
    ensures
        net_events_fit(e, n),
{
    assert forall|i: int| 0 <= i < e.internal.len() implies mgu_events_fit(
        #[trigger] e.internal[i],
        n.internal[i],
    ) by {
        assert(mgu_events_wf(e.internal[i], HIDDEN_LEN as int));
        assert(mgu_wf(n.internal[i], HIDDEN_LEN as int));
    }
}

/// Mutation preserves a network's shape.
pub proof fn lemma_net_apply_wf(n: NetworkView, e: NetworkEventsView)
    requires
        network_wf(n),
        net_events_fit(e, n),
    ensures
        network_wf(net_apply_spec(n, e)),
{
    lemma_mgu_apply_wf(n.input_layer, e.input_layer);
    assert forall|i: int| 0 <= i < net_apply_spec(n, e).internal.len() implies mgu_wf(
        #[trigger] net_apply_spec(n, e).internal[i],
        HIDDEN_LEN as int,
    ) by {
        lemma_mgu_apply_wf(n.internal[i], e.internal[i]);
    }
}

pub proof fn lemma_mgu_apply_wf(m: MguView, e: MguEventsView)
    requires
        mgu_events_fit(e, m),
    ensures
        mgu_apply_spec(m, e).forget.hidden.len() == m.forget.hidden.len(),
        mgu_apply_spec(m, e).forget.input.len() == m.forget.input.len(),
        mgu_apply_spec(m, e).forget.bias.len() == m.forget.bias.len(),
        mgu_apply_spec(m, e).output.hidden.len() == m.output.hidden.len(),
        mgu_apply_spec(m, e).output.input.len() == m.output.input.len(),
        mgu_apply_spec(m, e).output.bias.len() == m.output.bias.len(),
{
    lemma_apply_events_len(m.forget.hidden, e.forget.hidden);
    lemma_apply_events_len(m.forget.input, e.forget.input);
    lemma_apply_events_len(m.forget.bias, e.forget.bias);
    lemma_apply_events_len(m.output.hidden, e.output.hidden);
    lemma_apply_events_len(m.output.input, e.output.input);
    lemma_apply_events_len(m.output.bias, e.output.bias);
}

/// A unit without mutation events is left exactly as it was.
pub proof fn lemma_mgu_apply_empty(m: MguView, e: MguEventsView)
    requires
        mgu_events_total(e) == 0,
    ensures
        mgu_apply_spec(m, e) == m,
{
    assert(mgu_apply_spec(m, e) =~= m);
}

/// A network without mutation events is left exactly as it was: mutation
/// reports a change if and only if it made one.
pub proof fn lemma_net_apply_empty(n: NetworkView, e: NetworkEventsView)
    requires
        net_events_fit(e, n),
        net_events_total(e) == 0,
    ensures
        net_apply_spec(n, e) == n,
{
    lemma_net_total_parts(e);
    lemma_mgu_apply_empty(n.input_layer, e.input_layer);
    assert forall|i: int| 0 <= i < n.internal.len() implies mgu_apply_spec(
        n.internal[i],
        e.internal[i],
    ) == n.internal[i] by {
        lemma_mgu_apply_empty(n.internal[i], e.internal[i]);
    }
    assert(net_apply_spec(n, e) =~= n);
}

/// The total event count bounds every layer's share.
pub proof fn lemma_net_total_parts(e: NetworkEventsView)
    ensures
        mgu_events_total(e.input_layer) <= net_events_total(e),
        forall|i: int|
            0 <= i < e.internal.len() ==> mgu_events_total(#[trigger] e.internal[i])
                <= net_events_total(e),
    decreases e.internal.len(),
{
    if e.internal.len() > 0 {
        let prefix = NetworkEventsView { internal: e.internal.drop_last(), ..e };
        lemma_net_total_parts(prefix);
        let n = e.internal.len() as int;
        assert forall|i: int| 0 <= i < n implies mgu_events_total(#[trigger] e.internal[i])
            <= net_events_total(e) by {
            if i < n - 1 {
                assert(prefix.internal[i] == e.internal[i]);
            } else {
                assert(e.internal[i] == e.internal.last());
            }
        }
    }
}

/// Applies a list of mutation events to one weight block, in order.
fn apply_events(block: &mut Vec<u32>, evs: &Vec<MutEvent>)
    requires
        events_fit(evs@, old(block)@.len() as int),
    ensures
        final(block)@ == apply_events_seq(old(block)@, evs@),
{
    let ghost s0 = block@;
    let mut j: usize = 0;
    while j < evs.len()
        invariant
            j <= evs@.len(),
            events_fit(evs@, s0.len() as int),
            block@ == apply_events_seq(s0, evs@.subrange(0, j as int)),
        decreases evs@.len() - j,
    {
        proof {
            let prefix = evs@.subrange(0, j as int);
            assert(forall|i: int| 0 <= i < j ==> prefix[i] == #[trigger] evs@[i]);
            lemma_apply_events_len(s0, prefix);
        }
        let ev = evs[j];
        block.set(ev.index, ev.value);
        proof {
            let prefix = evs@.subrange(0, j as int);
            let next = evs@.subrange(0, j + 1 as int);
            assert(next.drop_last() =~= prefix);
            assert(next.last() == evs@[j as int]);
        }
        j = j + 1;
    }
    assert(evs@.subrange(0, evs@.len() as int) =~= evs@);
}

impl Gate {
    /// Applies one gate's mutation events and reports whether any event was
    /// drawn for it.
    pub fn apply_events(&mut self, e: &GateEvents) -> (changed: bool)
        requires
            gate_events_fit(e@, old(self)@),
        ensures
            final(self)@ == gate_apply_spec(old(self)@, e@),
            changed == (gate_events_total(e@) > 0),
    {
        let c = e.hidden.len() > 0 || e.input.len() > 0 || e.bias.len() > 0;
        apply_events(&mut self.hidden_weights, &e.hidden);
        apply_events(&mut self.input_weights, &e.input);
        apply_events(&mut self.biases, &e.bias);
        assert(self@ =~= gate_apply_spec(old(self)@, e@));
        c
    }
}

impl MGRU {
    /// The unit after the given mutation events, or nothing when no event was
    /// drawn, so that an unchanged unit keeps being shared by every clone
    /// instead of being reallocated.
    pub fn mutated(&self, e: &MguEvents) -> (r: Option<MGRU>)
        requires
            mgu_events_fit(e@, self@),
        ensures
            r is Some <==> mgu_events_total(e@) > 0,
            r matches Some(m) ==> m@ == mgu_apply_spec(self@, e@),
    {
        let mut copy = self.duplicate();
        let changed_forget = copy.forget_gate.apply_events(&e.forget);
        let changed_output = copy.output_gate.apply_events(&e.output);
        if changed_forget || changed_output {
            assert(copy@ =~= mgu_apply_spec(self@, e@));
            Some(copy)
        } else {
            None
        }
    }
}

impl MGRUInput {
    /// The unit after the given mutation events, or nothing when no event was
    /// drawn, so that an unchanged unit keeps being shared by every clone
    /// instead of being reallocated.
    pub fn mutated(&self, e: &MguEvents) -> (r: Option<MGRUInput>)
        requires
            mgu_events_fit(e@, self@),
        ensures
            r is Some <==> mgu_events_total(e@) > 0,
            r matches Some(m) ==> m@ == mgu_apply_spec(self@, e@),
    {
        let mut copy = self.duplicate();
        let changed_forget = copy.forget_gate.apply_events(&e.forget);
        let changed_output = copy.output_gate.apply_events(&e.output);
        if changed_forget || changed_output {
            assert(copy@ =~= mgu_apply_spec(self@, e@));
            Some(copy)
        } else {
            None
        }
    }
}

impl Network {
    /// Applies a tick's mutation events to every layer.  A layer with no
    /// events is left untouched rather than rebuilt.
    pub fn mutate(&mut self, plan: &NetworkEvents)
        requires
            net_events_fit(plan@, old(self)@),
        ensures
            final(self)@ == net_apply_spec(old(self)@, plan@),
    {
        let ghost n0 = self@;
        if let Some(ngru) = self.input_gru.mutated(&plan.input_layer) {
            self.input_gru = ngru;
        } else {
            proof {
                lemma_mgu_apply_empty(n0.input_layer, plan@.input_layer);
            }
        }
        let mut i: usize = 0;
        while i < self.internal_grus.len()
            invariant
                i <= self.internal_grus@.len(),
                self.internal_grus@.len() == n0.internal.len(),
                plan@.internal.len() == n0.internal.len(),
                self@.input_layer == mgu_apply_spec(n0.input_layer, plan@.input_layer),
                forall|k: int|
                    0 <= k < n0.internal.len() ==> mgu_events_fit(
                        #[trigger] plan@.internal[k],
                        n0.internal[k],
                    ),
                forall|k: int|
                    0 <= k < i ==> #[trigger] self.internal_grus@[k]@ == mgu_apply_spec(
                        n0.internal[k],
                        plan@.internal[k],
                    ),
                forall|k: int|
                    i <= k < n0.internal.len() ==> #[trigger] self.internal_grus@[k]@
                        == n0.internal[k],
            decreases self.internal_grus@.len() - i,
        {
            assert(self.internal_grus@[i as int]@ == n0.internal[i as int]);
            assert(plan.internal@[i as int]@ == plan@.internal[i as int]);
            if let Some(ngru) = self.internal_grus[i].mutated(&plan.internal[i]) {
                self.internal_grus.set(i, ngru);
            } else {
                proof {
                    lemma_mgu_apply_empty(n0.internal[i as int], plan@.internal[i as int]);
                }
            }
            i = i + 1;
        }
        assert(self@ =~= net_apply_spec(n0, plan@));
    }
}

/// Copies a block of activation codes.
pub fn copy_codes(v: &Vec<u32>) -> (r: Vec<u32>)
    ensures
        r@ == v@,
{
    let mut r: Vec<u32> = Vec::new();
    let mut i: usize = 0;
    while i < v.len()
        invariant
            i <= v@.len(),
            r@ == v@.subrange(0, i as int),
        decreases v@.len() - i,
    {
        r.push(v[i]);
        assert(r@ =~= v@.subrange(0, i + 1 as int));
        i = i + 1;
    }
    assert(r@ =~= v@);
    r
}

} // verus!
