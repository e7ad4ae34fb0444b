//! The keyboard event tap: the mask of event kinds it asks the system for, and
//! what it hands downstream for each event that the system delivers to it.
use vstd::prelude::*;

verus! {

/// Whether `mask` holds the bit of event kind `kind`.
pub open spec fn has_kind(mask: u64, kind: u32) -> bool {
    kind < 64 && (mask >> (kind as u64)) & 1u64 == 1u64
}

/// `mask` holds exactly the bits of the kinds in `kinds`.
pub open spec fn is_mask_of(mask: u64, kinds: Seq<u32>) -> bool {
    forall|k: u32| k < 64 ==> (#[trigger] has_kind(mask, k) <==> kinds.contains(k))
}

/// Every kind of `kinds` has a bit in a 64-bit mask.
pub open spec fn kinds_fit(kinds: Seq<u32>) -> bool {
    forall|i: int| 0 <= i < kinds.len() ==> #[trigger] kinds[i] < 64
}

proof fn lemma_empty_mask(k: u64)
    requires
        k < 64,
    ensures
        (0u64 >> k) & 1u64 != 1u64,
{
    assert((0u64 >> k) & 1u64 != 1u64) by (bit_vector);
}

proof fn lemma_add_bit(m: u64, e: u64, k: u64)
    requires
        e < 64,
        k < 64,
    ensures
        ((m | (1u64 << e)) >> k) & 1u64 == 1u64 <==> ((m >> k) & 1u64 == 1u64 || k == e),
{
    assert(((m | (1u64 << e)) >> k) & 1u64 == 1u64 <==> ((m >> k) & 1u64 == 1u64 || k == e))
        by (bit_vector)
        requires
            e < 64,
            k < 64,
    ;
}

/// The mask that holds the single event kind `kind`.
pub fn event_mask_bit(kind: u32) -> (r: u64)
    requires
        kind < 64,
    ensures
        r == 1u64 << (kind as u64),
        is_mask_of(r, seq![kind]),
{
    let r = 1u64 << (kind as u64);
    assert forall|k: u32| k < 64 implies (#[trigger] has_kind(r, k) <==> seq![kind].contains(k)) by {
        lemma_empty_mask(k as u64);
        lemma_add_bit(0u64, kind as u64, k as u64);
        assert(0u64 | (1u64 << (kind as u64)) == 1u64 << (kind as u64)) by (bit_vector);
        if k == kind {
            assert(seq![kind][0] == k);
        }
    }
    r
}

/// The union of the bits of all kinds in `events_of_interest`; empty for no
/// kinds.
pub fn event_mask(events_of_interest: &Vec<u32>) -> (r: u64)
    requires
        kinds_fit(events_of_interest@),
    ensures
        is_mask_of(r, events_of_interest@),
{
    let mut mask: u64 = 0;
    let mut i: usize = 0;
    assert forall|k: u32| k < 64 implies (#[trigger] has_kind(mask, k)
        <==> events_of_interest@.subrange(0, 0).contains(k)) by {
        lemma_empty_mask(k as u64);
    }
    while i < events_of_interest.len()
        invariant
            i <= events_of_interest.len(),
            kinds_fit(events_of_interest@),
            is_mask_of(mask, events_of_interest@.subrange(0, i as int)),
        decreases events_of_interest.len() - i,
    {
        let kind = events_of_interest[i];
        let bit = event_mask_bit(kind);
        let next = mask | bit;
        assert forall|k: u32| k < 64 implies (#[trigger] has_kind(next, k)
            <==> events_of_interest@.subrange(0, i + 1).contains(k)) by {
            lemma_add_bit(mask, kind as u64, k as u64);
            let before = events_of_interest@.subrange(0, i as int);
            let after = events_of_interest@.subrange(0, i + 1);
            assert(after =~= before.push(kind));
            assert(has_kind(mask, k) == before.contains(k));
            if before.contains(k) {
                let j = choose|j: int| 0 <= j < before.len() && before[j] == k;
                assert(after[j] == k);
            }
            if k == kind {
                assert(after[i as int] == k);
            }
            if after.contains(k) && k != kind {
                let j = choose|j: int| 0 <= j < after.len() && after[j] == k;
                assert(before[j] == k);
            }
        }
        mask = next;
        i += 1;
    }
    assert(events_of_interest@.subrange(0, i as int) =~= events_of_interest@);
    mask
}

/// How many of the events of `stream` a tap with `mask`, enabled or not,
/// hands to its transform.
pub open spec fn invocations(mask: u64, enabled: bool, stream: Seq<u32>) -> nat
    decreases stream.len(),
{
    if stream.len() == 0 {
        0
    } else {
        invocations(mask, enabled, stream.drop_last()) + if enabled && has_kind(
            mask,
            stream.last(),
        ) {
            1nat
        } else {
            0nat
        }
    }
}

/// Every outcome of the transform `f` on an event of `kind` drops it.
pub open spec fn suppresses<E, F: Fn(u32, E) -> Option<E>>(f: F, kind: u32, event: E) -> bool {
    forall|v: Option<E>| #[trigger] f.ensures((kind, event), v) ==> v is None
}

/// Every outcome of the transform `f` on an event of `kind` puts `e2` in its
/// place.
pub open spec fn replaces<E, F: Fn(u32, E) -> Option<E>>(f: F, kind: u32, event: E, e2: E) -> bool {
    forall|v: Option<E>| #[trigger] f.ensures((kind, event), v) ==> v == Some(e2)
}

/// Why a tap could not be installed.
#[derive(PartialEq, Eq, Structural, Clone, Copy, Debug)]
pub enum TapError {
    /// The system gave no interception port, for instance for want of the
    /// accessibility permission.
    PortRefused,
}

/// An installed event tap: the system's interception port `P`, the transform
/// `F` that decides the fate of each event, and the kinds of events it asked
/// for. It starts disabled.
pub struct CGEventTap<P, F> {
    mach_port: P,
    callback_ref: F,
    mask: u64,
    enabled: bool,
    transform_calls: Ghost<nat>,
}

impl<P, F> CGEventTap<P, F> {
    /// The system's interception port.
    pub closed spec fn port(&self) -> P {
        self.mach_port
    }

    /// The transform.
    pub closed spec fn transform(&self) -> F {
        self.callback_ref
    }

    /// The kinds of events the tap asked for, as a mask.
    pub closed spec fn mask(&self) -> u64 {
        self.mask
    }

    /// Whether the tap receives events.
    pub closed spec fn is_enabled(&self) -> bool {
        self.enabled
    }

    /// How many times the transform has run.
    pub closed spec fn transform_calls(&self) -> nat {
        self.transform_calls@
    }

    /// Whether an event of `kind` reaches the transform.
    pub open spec fn receives(&self, kind: u32) -> bool {
        self.is_enabled() && has_kind(self.mask(), kind)
    }

    /// Takes over the port that the system gave for a tap on
    /// `events_of_interest`, and the transform. Without a port the transform
    /// is dropped and nothing is kept.
    pub fn new(events_of_interest: Vec<u32>, callback: F, port: Option<P>) -> (r: Result<
        Self,
        TapError,
    >)
        requires
            kinds_fit(events_of_interest@),
        ensures
            port is None <==> r is Err,
            r matches Err(e) ==> e == TapError::PortRefused,
            r matches Ok(t) ==> {
                &&& Some(t.port()) == port
                &&& t.transform() == callback
                &&& is_mask_of(t.mask(), events_of_interest@)
                &&& !t.is_enabled()
                &&& t.transform_calls() == 0
            },
    {
        let mask = event_mask(&events_of_interest);
        match port {
            Some(mach_port) => Ok(
                CGEventTap {
                    mach_port,
                    callback_ref: callback,
                    mask,
                    enabled: false,
                    transform_calls: Ghost(0),
                },
            ),
            None => Err(TapError::PortRefused),
        }
    }

    /// The system's interception port, for the calls that steer it.
    pub fn mach_port(&self) -> (r: &P)
        ensures
            *r == self.port(),
    {
        &self.mach_port
    }

    /// The kinds of events the tap asked for, as a mask.
    pub fn events_mask(&self) -> (r: u64)
        ensures
            r == self.mask(),
    {
        self.mask
    }

    /// Whether the tap receives events.
    pub fn enabled(&self) -> (r: bool)
        ensures
            r == self.is_enabled(),
    {
        self.enabled
    }

    /// Starts the delivery of events to the tap.
    pub fn enable(&mut self)
        ensures
            final(self).is_enabled(),
            final(self).mask() == old(self).mask(),
            final(self).port() == old(self).port(),
            final(self).transform() == old(self).transform(),
            final(self).transform_calls() == old(self).transform_calls(),
    {
        self.enabled = true;
    }

    /// What the tap hands downstream for an event of `kind`: the event itself
    /// where the tap does not receive that kind; else what the transform
    /// returns, `None` for an event it suppresses and the event to deliver in
    /// its place otherwise.
    pub fn handle_event<E>(&mut self, kind: u32, event: E) -> (r: Option<E>) where
        F: Fn(u32, E) -> Option<E>,

        requires
            forall|k: u32, e: E| #[trigger] old(self).transform().requires((k, e)),
        ensures
            final(self).mask() == old(self).mask(),
            final(self).is_enabled() == old(self).is_enabled(),
            final(self).port() == old(self).port(),
            final(self).transform() == old(self).transform(),
            final(self).transform_calls() == old(self).transform_calls() + invocations(
                old(self).mask(),
                old(self).is_enabled(),
                seq![kind],
            ),
            old(self).receives(kind) ==> old(self).transform().ensures((kind, event), r),
            !old(self).receives(kind) ==> r == Some(event),
            old(self).receives(kind) && suppresses(old(self).transform(), kind, event) ==> r is None,
            forall|e2: E|
                old(self).receives(kind) && #[trigger] replaces(
                    old(self).transform(),
                    kind,
                    event,
                    e2,
                ) ==> r == Some(e2),
    {
        proof {
            lemma_single_invocation(self.mask, self.enabled, kind);
            assert(old(self).transform().requires((kind, event)));
        }
        if self.enabled && kind < 64 && (self.mask >> (kind as u64)) & 1 == 1 {
            let r = (self.callback_ref)(kind, event);
            self.transform_calls = Ghost(self.transform_calls@ + 1);
            r
        } else {
            Some(event)
        }
    }
}

/// Handling the events of `stream` one by one adds their invocations up.
pub proof fn lemma_invocations_append(mask: u64, enabled: bool, stream: Seq<u32>, kind: u32)
    ensures
        invocations(mask, enabled, stream.push(kind)) == invocations(mask, enabled, stream)
            + invocations(mask, enabled, seq![kind]),
{
    assert(stream.push(kind).drop_last() =~= stream);
    lemma_single_invocation(mask, enabled, kind);
}

proof fn lemma_single_invocation(mask: u64, enabled: bool, kind: u32)
    ensures
        invocations(mask, enabled, seq![kind]) == if enabled && has_kind(mask, kind) {
            1nat
        } else {
            0nat
        },
{
    assert(seq![kind].drop_last() =~= Seq::<u32>::empty());
    reveal_with_fuel(invocations, 2);
}

/// A tap never runs its transform for a stream of events none of whose kinds
/// it asked for.
pub proof fn lemma_unasked_kinds_never_transformed(mask: u64, enabled: bool, stream: Seq<u32>)
    requires
        forall|i: int| 0 <= i < stream.len() ==> !has_kind(mask, #[trigger] stream[i]),
    ensures
        invocations(mask, enabled, stream) == 0,
    decreases stream.len(),
{
    if stream.len() > 0 {
        let rest = stream.drop_last();
        assert forall|i: int| 0 <= i < rest.len() implies !has_kind(mask, #[trigger] rest[i]) by {
            assert(rest[i] == stream[i]);
        }
        lemma_unasked_kinds_never_transformed(mask, enabled, rest);
    }
}

} // verus!
