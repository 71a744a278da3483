//! Generation-checked routes from UI callbacks to their bindings.
//!
//! A route encodes a slot index (low bits) and the slot's generation at the
//! time it was claimed; reusing a slot bumps its generation, so every route
//! issued for an earlier use of the slot stops resolving.
use vstd::prelude::*;

verus! {

pub const ROUTE_INDEX_BITS: u32 = 3;
pub const ROUTE_INDEX_MASK: u32 = 7;
/// The largest table the index bits can address.
pub const MAX_ROUTE_CAPACITY: usize = 7;
/// The largest generation the remaining bits can hold.
pub const MAX_ROUTE_GENERATION: u32 = 0x1fff_ffff;

/// A claimed route: `(generation << 3) | (slot index + 1)`, with a non-zero
/// index part and a non-zero generation.
#[derive(Clone, Copy, Debug, Eq, PartialEq, Structural)]
pub struct CallbackRoute(u32);

/// Whether `encoded` is a well-formed route.
pub open spec fn route_encoding_ok(encoded: u32) -> bool {
    encoded & 7 != 0 && encoded >> 3 != 0
}

/// The slot index a route names.
pub open spec fn index_of(encoded: u32) -> int {
    (encoded & 7) - 1
}

/// The slot generation a route was claimed at.
pub open spec fn generation_of(encoded: u32) -> u32 {
    encoded >> 3
}

impl CallbackRoute {
    #[verifier::type_invariant]
    spec fn well_formed(self) -> bool {
        route_encoding_ok(self.0)
    }

    /// The route's encoding.
    pub closed spec fn bits(self) -> u32 {
        self.0
    }

    /// The route as carried in a callback's user data.
    pub fn encoded(self) -> (r: u32)
        ensures
            r == self.bits(),
            route_encoding_ok(r),
    {
        proof {
            use_type_invariant(&self);
        }
        self.0
    }

    /// The route carried in user data, if the value is a well-formed route.
    pub fn from_encoded(encoded: u32) -> (r: Option<Self>)
        ensures
            r is Some <==> route_encoding_ok(encoded),
            r matches Some(route) ==> route.bits() == encoded,
            route_encoding_ok(encoded) ==> forall|route: CallbackRoute| #[trigger] route.bits() == encoded ==> r
                == Some(route),
    {
        if encoded & 7 == 0 || encoded >> 3 == 0 {
            None
        } else {
            Some(CallbackRoute(encoded))
        }
    }

    /// The slot index the route names.
    pub fn index(self) -> (r: usize)
        ensures
            r == index_of(self.bits()),
            r < 7,
    {
        proof {
            use_type_invariant(&self);
            let e = self.0;
            assert(e & 7 <= 7) by (bit_vector);
        }
        ((self.0 & 7) - 1) as usize
    }

    /// The slot generation the route was claimed at.
    pub fn generation(self) -> (r: u32)
        ensures
            r == generation_of(self.bits()),
    {
        self.0 >> 3
    }
}

/// A route is its encoding: two routes with the same bits are the same
/// route. With the contracts of `encoded` and `from_encoded` this gives the
/// round trip: decoding the encoding of any route gives back that route.
pub proof fn lemma_route_is_its_encoding(a: CallbackRoute, b: CallbackRoute)
    ensures
        (a.bits() == b.bits()) == (a == b),
{
}

/// Why a route operation was refused.
#[derive(Clone, Copy, Debug, Eq, PartialEq, Structural)]
pub enum CallbackRouteError {
    Capacity,
    GenerationExhausted,
    InvalidCapacity,
    StaleRoute,
}

/// One slot: its current generation, the bound value while claimed, and
/// whether callbacks may resolve it.
#[derive(Clone, Copy, Debug)]
pub struct RouteSlot<T: Copy> {
    pub generation: u32,
    pub value: Option<T>,
    pub enabled: bool,
}

/// The slots of a route table.
pub struct CallbackRouteTable<T: Copy, const CAPACITY: usize> {
    slots: Vec<RouteSlot<T>>,
}

/// Index of the first free slot of `s` at or after `from`.
pub open spec fn first_free<T: Copy>(s: Seq<RouteSlot<T>>, from: int) -> Option<int>
    decreases s.len() - from,
{
    if from >= s.len() || from < 0 {
        None
    } else if s[from].value is None {
        Some(from)
    } else {
        first_free(s, from + 1)
    }
}

/// Outcome of claiming a slot for `value`: the route's encoding and the new
/// slots. A table of no slots or of more than the index bits can address is
/// invalid; with no free slot the table is full; a slot whose generation
/// cannot grow is exhausted. Otherwise the first free slot takes the value,
/// disabled, at the next generation.
pub open spec fn claim_spec<T: Copy>(s: Seq<RouteSlot<T>>, capacity: int, value: T) -> (Result<u32, CallbackRouteError>, Seq<RouteSlot<T>>) {
    if capacity == 0 || capacity > MAX_ROUTE_CAPACITY {
        (Err(CallbackRouteError::InvalidCapacity), s)
    } else {
        match first_free(s, 0) {
            None => (Err(CallbackRouteError::Capacity), s),
            Some(i) => if s[i].generation >= MAX_ROUTE_GENERATION {
                (Err(CallbackRouteError::GenerationExhausted), s)
            } else {
                let g = (s[i].generation + 1) as u32;
                (
                    Ok(((g as int) * 8 + i + 1) as u32),
                    s.update(i, RouteSlot { generation: g, value: Some(value), enabled: false }),
                )
            },
        }
    }
}

/// A route is live in `s` when its slot exists, still holds a value and is
/// at the route's generation.
pub open spec fn live_spec<T: Copy>(s: Seq<RouteSlot<T>>, encoded: u32) -> bool {
    let i = index_of(encoded);
    0 <= i < s.len() && s[i].generation == generation_of(encoded) && s[i].value is Some
}

/// What a callback resolves a route to: the value of a live, enabled slot.
pub open spec fn resolve_spec<T: Copy>(s: Seq<RouteSlot<T>>, encoded: u32) -> Option<T> {
    let i = index_of(encoded);
    if 0 <= i < s.len() && s[i].enabled && s[i].generation == generation_of(encoded) {
        s[i].value
    } else {
        None
    }
}

/// The slots with the live route's slot enabled or disabled.
pub open spec fn set_enabled_spec<T: Copy>(s: Seq<RouteSlot<T>>, encoded: u32, enabled: bool) -> Seq<RouteSlot<T>> {
    let i = index_of(encoded);
    s.update(i, RouteSlot { enabled, ..s[i] })
}

/// The slots with the live route's slot emptied and disabled.
pub open spec fn release_spec<T: Copy>(s: Seq<RouteSlot<T>>, encoded: u32) -> Seq<RouteSlot<T>> {
    let i = index_of(encoded);
    s.update(i, RouteSlot { enabled: false, value: None, ..s[i] })
}


/// A route `encoded` was issued by the table `s`: it is well formed, names a
/// slot of `s` and a generation that slot has reached.
pub open spec fn issued_spec<T: Copy>(s: Seq<RouteSlot<T>>, encoded: u32) -> bool {
    route_encoding_ok(encoded) && 0 <= index_of(encoded) < s.len() && generation_of(encoded)
        <= s[index_of(encoded)].generation
}

proof fn lemma_encoding(g: u32, k: u32)
    requires
        1 <= g <= MAX_ROUTE_GENERATION,
        k < 7,
    ensures
        ((g * 8 + k + 1) as u32) & 7 == k + 1,
        ((g * 8 + k + 1) as u32) >> 3 == g,
        route_encoding_ok(((g * 8 + k + 1) as u32)),
{
    assert(((g * 8 + k + 1) as u32) & 7 == (k + 1) as u32 && ((g * 8 + k + 1) as u32) >> 3 == g) by (bit_vector)
        requires
            g <= 0x1fff_ffff,
            k < 7,
    ;
}

proof fn lemma_first_free<T: Copy>(s: Seq<RouteSlot<T>>, from: int)
    ensures
        first_free(s, from) matches Some(i) ==> from <= i < s.len() && s[i].value is None,
    decreases s.len() - from,
{
    if 0 <= from < s.len() && s[from].value is Some {
        lemma_first_free(s, from + 1);
    }
}

/// A claimed route is live and issued but does not resolve until enabled;
/// once enabled it resolves to the claimed value, and once disabled or
/// released it no longer resolves.
pub proof fn lemma_claim_enable_resolve<T: Copy>(s: Seq<RouteSlot<T>>, capacity: int, value: T)
    requires
        s.len() == capacity,
        claim_spec(s, capacity, value).0 is Ok,
    ensures
        ({
            let (res, s1) = claim_spec(s, capacity, value);
            let e = res->Ok_0;
            &&& issued_spec(s1, e)
            &&& live_spec(s1, e)
            &&& resolve_spec(s1, e) is None
            &&& resolve_spec(set_enabled_spec(s1, e, true), e) == Some(value)
            &&& resolve_spec(set_enabled_spec(set_enabled_spec(s1, e, true), e, false), e) is None
            &&& !live_spec(release_spec(set_enabled_spec(s1, e, true), e), e)
            &&& resolve_spec(release_spec(set_enabled_spec(s1, e, true), e), e) is None
        }),
{
    lemma_first_free(s, 0);
    let i = first_free(s, 0)->0;
    let g = (s[i].generation + 1) as u32;
    lemma_encoding(g, i as u32);
}

/// Only a live route resolves.
pub proof fn lemma_resolve_needs_live<T: Copy>(s: Seq<RouteSlot<T>>, e: u32)
    ensures
        resolve_spec(s, e) is Some ==> live_spec(s, e),
{
}

/// An issued route that is no longer live stays dead: claiming, enabling,
/// disabling or releasing any route keeps it issued and not live, so it
/// never resolves again, even after its slot is reused.
pub proof fn lemma_stale_route_stays_stale<T: Copy>(s: Seq<RouteSlot<T>>, capacity: int, e: u32, other: u32, value: T, enabled: bool)
    requires
        s.len() == capacity,
        issued_spec(s, e),
        !live_spec(s, e),
    ensures
        issued_spec(claim_spec(s, capacity, value).1, e),
        !live_spec(claim_spec(s, capacity, value).1, e),
        resolve_spec(claim_spec(s, capacity, value).1, e) is None,
        live_spec(s, other) ==> issued_spec(set_enabled_spec(s, other, enabled), e)
            && !live_spec(set_enabled_spec(s, other, enabled), e),
        live_spec(s, other) ==> issued_spec(release_spec(s, other), e) && !live_spec(release_spec(s, other), e),
{
    lemma_first_free(s, 0);
}

impl<T: Copy, const CAPACITY: usize> CallbackRouteTable<T, CAPACITY> {
    /// The table has exactly `CAPACITY` slots.
    pub closed spec fn wf(self) -> bool {
        self.slots@.len() == CAPACITY
    }

    /// The slots, in index order.
    pub closed spec fn slots_view(self) -> Seq<RouteSlot<T>> {
        self.slots@
    }

    /// A table of `CAPACITY` empty slots at generation zero.
    pub fn new() -> (r: Self)
        ensures
            r.wf(),
            r.slots_view().len() == CAPACITY,
            forall|i: int| 0 <= i < CAPACITY ==> (#[trigger] r.slots_view()[i]).generation == 0
                && r.slots_view()[i].value is None && !r.slots_view()[i].enabled,
    {
        let mut slots: Vec<RouteSlot<T>> = Vec::new();
        let mut i: usize = 0;
        while i < CAPACITY
            invariant
                i <= CAPACITY,
                slots@.len() == i,
                forall|j: int| 0 <= j < i ==> (#[trigger] slots@[j]).generation == 0 && slots@[j].value is None
                    && !slots@[j].enabled,
            decreases CAPACITY - i,
        {
            slots.push(RouteSlot { generation: 0, value: None, enabled: false });
            i = i + 1;
        }
        CallbackRouteTable { slots }
    }

    /// Claims a free slot for `value`; the new route is disabled.
    pub fn claim(&mut self, value: T) -> (r: Result<CallbackRoute, CallbackRouteError>)
        requires
            old(self).wf(),
        ensures
            final(self).wf(),
            ({
                let (res, s) = claim_spec(old(self).slots_view(), CAPACITY as int, value);
                &&& final(self).slots_view() == s
                &&& match (r, res) {
                    (Ok(route), Ok(e)) => route.bits() == e,
                    (Err(a), Err(b)) => a == b,
                    _ => false,
                }
            }),
    {
        if CAPACITY == 0 || CAPACITY > MAX_ROUTE_CAPACITY {
            return Err(CallbackRouteError::InvalidCapacity);
        }
        let ghost s = self.slots@;
        let mut index: usize = 0;
        while index < self.slots.len() && self.slots[index].value.is_some()
            invariant
                self.slots@ == s,
                s.len() == CAPACITY,
                index <= s.len(),
                first_free(s, 0) == first_free(s, index as int),
            decreases s.len() - index,
        {
            index = index + 1;
        }
        if index == self.slots.len() {
            return Err(CallbackRouteError::Capacity);
        }
        let slot = self.slots[index];
        if slot.generation >= MAX_ROUTE_GENERATION {
            return Err(CallbackRouteError::GenerationExhausted);
        }
        let generation = slot.generation + 1;
        self.slots.set(index, RouteSlot { generation, value: Some(value), enabled: false });
        let idx: u32 = index as u32;
        let encoded: u32 = generation * 8 + idx + 1;
        proof {
            assert(index < 7);
            assert(generation <= 0x1fff_ffff);
            let g = generation;
            let k = idx;
            assert(((g * 8 + k + 1) as u32) & 7 == (k + 1) as u32 && ((g * 8 + k + 1) as u32) >> 3 == g) by (bit_vector)
                requires
                    g <= 0x1fff_ffff,
                    k < 7,
            ;
        }
        Ok(CallbackRoute(encoded))
    }

    /// Lets callbacks resolve a live route.
    pub fn enable(&mut self, route: CallbackRoute) -> (r: Result<(), CallbackRouteError>)
        requires
            old(self).wf(),
        ensures
            final(self).wf(),
            live_spec(old(self).slots_view(), route.bits()) ==> r is Ok && final(self).slots_view()
                == set_enabled_spec(old(self).slots_view(), route.bits(), true),
            !live_spec(old(self).slots_view(), route.bits()) ==> r == Err::<(), _>(CallbackRouteError::StaleRoute)
                && final(self).slots_view() == old(self).slots_view(),
    {
        self.set_enabled(route, true)
    }

    /// Stops callbacks from resolving a live route.
    pub fn disable(&mut self, route: CallbackRoute) -> (r: Result<(), CallbackRouteError>)
        requires
            old(self).wf(),
        ensures
            final(self).wf(),
            live_spec(old(self).slots_view(), route.bits()) ==> r is Ok && final(self).slots_view()
                == set_enabled_spec(old(self).slots_view(), route.bits(), false),
            !live_spec(old(self).slots_view(), route.bits()) ==> r == Err::<(), _>(CallbackRouteError::StaleRoute)
                && final(self).slots_view() == old(self).slots_view(),
    {
        self.set_enabled(route, false)
    }

    /// Frees a live route's slot.
    pub fn release(&mut self, route: CallbackRoute) -> (r: Result<(), CallbackRouteError>)
        requires
            old(self).wf(),
        ensures
            final(self).wf(),
            live_spec(old(self).slots_view(), route.bits()) ==> r is Ok && final(self).slots_view()
                == release_spec(old(self).slots_view(), route.bits()),
            !live_spec(old(self).slots_view(), route.bits()) ==> r == Err::<(), _>(CallbackRouteError::StaleRoute)
                && final(self).slots_view() == old(self).slots_view(),
    {
        let index = match self.slot_mut(route) {
            Ok(i) => i,
            Err(e) => return Err(e),
        };
        let slot = self.slots[index];
        self.slots.set(index, RouteSlot { enabled: false, value: None, generation: slot.generation });
        Ok(())
    }

    /// The value a callback carrying `route` reaches, if the route is live and
    /// enabled.
    pub fn resolve(&self, route: CallbackRoute) -> (r: Option<T>)
        ensures
            r == resolve_spec(self.slots_view(), route.bits()),
    {
        let index = route.index();
        if index >= self.slots.len() {
            return None;
        }
        let slot = self.slots[index];
        if slot.enabled && slot.generation == route.generation() {
            slot.value
        } else {
            None
        }
    }

    /// Whether `matches` accepts the value of some claimed slot; values are
    /// offered in slot order until one is accepted.
    pub fn any_value<F: Fn(T) -> bool>(&self, matches: F) -> (r: bool)
        requires
            forall|v: T| call_requires(matches, (v,)),
        ensures
            r ==> exists|i: int| 0 <= i < self.slots_view().len() && #[trigger] self.slots_view()[i].value is Some
                && call_ensures(matches, (self.slots_view()[i].value->0,), true),
            !r ==> forall|i: int| 0 <= i < self.slots_view().len() && #[trigger] self.slots_view()[i].value is Some
                ==> call_ensures(matches, (self.slots_view()[i].value->0,), false),
    {
        let mut i: usize = 0;
        while i < self.slots.len()
            invariant
                i <= self.slots@.len(),
                forall|v: T| call_requires(matches, (v,)),
                forall|j: int| 0 <= j < i && #[trigger] self.slots@[j].value is Some ==> call_ensures(
                    matches,
                    (self.slots@[j].value->0,),
                    false,
                ),
            decreases self.slots@.len() - i,
        {
            if let Some(v) = self.slots[i].value {
                if matches(v) {
                    return true;
                }
            }
            i = i + 1;
        }
        false
    }

    /// The slot index of a live route, or the route is stale.
    pub fn slot_mut(&self, route: CallbackRoute) -> (r: Result<usize, CallbackRouteError>)
        ensures
            live_spec(self.slots_view(), route.bits()) ==> r == Ok::<usize, CallbackRouteError>(index_of(route.bits()) as usize),
            !live_spec(self.slots_view(), route.bits()) ==> r == Err::<usize, _>(CallbackRouteError::StaleRoute),
    {
        let index = route.index();
        if index >= self.slots.len() {
            return Err(CallbackRouteError::StaleRoute);
        }
        let slot = self.slots[index];
        if slot.generation != route.generation() || slot.value.is_none() {
            return Err(CallbackRouteError::StaleRoute);
        }
        Ok(index)
    }

    fn set_enabled(&mut self, route: CallbackRoute, enabled: bool) -> (r: Result<(), CallbackRouteError>)
        requires
            old(self).wf(),
        ensures
            final(self).wf(),
            live_spec(old(self).slots_view(), route.bits()) ==> r is Ok && final(self).slots_view()
                == set_enabled_spec(old(self).slots_view(), route.bits(), enabled),
            !live_spec(old(self).slots_view(), route.bits()) ==> r == Err::<(), _>(CallbackRouteError::StaleRoute)
                && final(self).slots_view() == old(self).slots_view(),
    {
        let index = match self.slot_mut(route) {
            Ok(i) => i,
            Err(e) => return Err(e),
        };
        let slot = self.slots[index];
        self.slots.set(index, RouteSlot { enabled, value: slot.value, generation: slot.generation });
        Ok(())
    }
}

} // verus!
