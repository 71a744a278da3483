//! The provider and surface registry of the UI shell: who is registered at
//! which generation, which surfaces they declared, and how a surface
//! reference resolves against that.
use vstd::prelude::*;

use super::types::{ProviderGeneration, ProviderId, ProviderToken, SurfaceDefinition, SurfaceId, SurfaceRef, SurfaceSpec};

verus! {

/// Why a registration batch was refused.
#[derive(Clone, Copy, Debug, Eq, PartialEq, Structural)]
pub enum RegistrationError {
    /// The batch declares the same surface id twice.
    DuplicateSurfaceIdInBatch(SurfaceId),
    /// A registered surface already has the id; ids are unique across
    /// providers.
    DuplicateSurfaceId { registered: SurfaceRef, requested: SurfaceId },
    /// A provider with this id is registered.
    DuplicateProvider(ProviderId),
    ProviderCapacity,
    SurfaceCapacity,
    /// No provider generation is left to issue.
    GenerationExhausted,
}

/// Why a surface reference did not resolve.
#[derive(Clone, Copy, Debug, Eq, PartialEq, Structural)]
pub enum ResolveError {
    /// The reference names a provider registration that is not the current
    /// one (`active` is the current registration of that id, if any).
    StaleProviderGeneration { active: Option<ProviderToken>, requested: ProviderToken },
    /// The provider is current but declared no such surface.
    UnknownSurface(SurfaceRef),
}

/// Index of the first provider with `id` at or after `from`.
pub open spec fn find_provider(ps: Seq<ProviderToken>, id: ProviderId, from: int) -> Option<int>
    decreases ps.len() - from,
{
    if from < 0 || from >= ps.len() {
        None
    } else if ps[from].id == id {
        Some(from)
    } else {
        find_provider(ps, id, from + 1)
    }
}

/// Index of the first definition of `s` at or after `from`.
pub open spec fn find_definition(defs: Seq<SurfaceDefinition>, s: SurfaceRef, from: int) -> Option<int>
    decreases defs.len() - from,
{
    if from < 0 || from >= defs.len() {
        None
    } else if defs[from].surface == s {
        Some(from)
    } else {
        find_definition(defs, s, from + 1)
    }
}

/// Index of the first definition with surface id `id` at or after `from`.
pub open spec fn find_surface_id(defs: Seq<SurfaceDefinition>, id: SurfaceId, from: int) -> Option<int>
    decreases defs.len() - from,
{
    if from < 0 || from >= defs.len() {
        None
    } else if defs[from].surface.id == id {
        Some(from)
    } else {
        find_surface_id(defs, id, from + 1)
    }
}

proof fn lemma_find_provider(ps: Seq<ProviderToken>, id: ProviderId, from: int)
    requires
        0 <= from,
    ensures
        find_provider(ps, id, from) matches Some(i) ==> from <= i < ps.len() && ps[i].id == id && forall|k: int|
            from <= k < i ==> ps[k].id != id,
        find_provider(ps, id, from) is None ==> forall|k: int| from <= k < ps.len() ==> ps[k].id != id,
    decreases ps.len() - from,
{
    if from < ps.len() && ps[from].id != id {
        lemma_find_provider(ps, id, from + 1);
    }
}

proof fn lemma_find_definition(defs: Seq<SurfaceDefinition>, s: SurfaceRef, from: int)
    requires
        0 <= from,
    ensures
        find_definition(defs, s, from) matches Some(i) ==> from <= i < defs.len() && defs[i].surface == s,
        find_definition(defs, s, from) is None ==> forall|k: int| from <= k < defs.len() ==> defs[k].surface != s,
    decreases defs.len() - from,
{
    if from < defs.len() && defs[from].surface != s {
        lemma_find_definition(defs, s, from + 1);
    }
}

proof fn lemma_find_surface_id(defs: Seq<SurfaceDefinition>, id: SurfaceId, from: int)
    requires
        0 <= from,
    ensures
        find_surface_id(defs, id, from) matches Some(i) ==> from <= i < defs.len() && defs[i].surface.id == id,
        find_surface_id(defs, id, from) is None ==> forall|k: int|
            from <= k < defs.len() ==> defs[k].surface.id != id,
    decreases defs.len() - from,
{
    if from < defs.len() && defs[from].surface.id != id {
        lemma_find_surface_id(defs, id, from + 1);
    }
}

/// What a surface reference resolves to: its definition, when its provider
/// registration is current and declared it.
pub open spec fn resolve_spec(ps: Seq<ProviderToken>, defs: Seq<SurfaceDefinition>, s: SurfaceRef) -> Result<
    SurfaceDefinition,
    ResolveError,
> {
    match find_provider(ps, s.owner.id, 0) {
        None => Err(ResolveError::StaleProviderGeneration { active: None, requested: s.owner }),
        Some(i) => if ps[i] != s.owner {
            Err(ResolveError::StaleProviderGeneration { active: Some(ps[i]), requested: s.owner })
        } else {
            match find_definition(defs, s, 0) {
                Some(j) => Ok(defs[j]),
                None => Err(ResolveError::UnknownSurface(s)),
            }
        },
    }
}

/// Whether `owner` is a current registration.
pub open spec fn is_registered(ps: Seq<ProviderToken>, owner: ProviderToken) -> bool {
    match find_provider(ps, owner.id, 0) {
        Some(i) => ps[i] == owner,
        None => false,
    }
}

/// Index of the provider with `id` in `ps`.
pub fn provider_position(ps: &Vec<ProviderToken>, id: ProviderId) -> (r: Option<usize>)
    ensures
        r matches Some(i) ==> find_provider(ps@, id, 0) == Some(i as int) && i < ps@.len() && ps@[i as int].id == id,
        r is None ==> find_provider(ps@, id, 0) is None,
{
    proof {
        lemma_find_provider(ps@, id, 0);
    }
    let mut i: usize = 0;
    while i < ps.len()
        invariant
            i <= ps@.len(),
            find_provider(ps@, id, 0) == find_provider(ps@, id, i as int),
        decreases ps@.len() - i,
    {
        if ps[i].id == id {
            return Some(i);
        }
        i = i + 1;
    }
    None
}

/// Whether `owner` is a current registration.
pub fn registered(ps: &Vec<ProviderToken>, owner: ProviderToken) -> (r: bool)
    ensures
        r == is_registered(ps@, owner),
{
    match provider_position(ps, owner.id) {
        Some(i) => ps[i] == owner,
        None => false,
    }
}

/// Index of the definition of `s`.
pub fn definition_position(defs: &Vec<SurfaceDefinition>, s: SurfaceRef) -> (r: Option<usize>)
    ensures
        r matches Some(i) ==> find_definition(defs@, s, 0) == Some(i as int) && i < defs@.len() && defs@[i as int].surface
            == s,
        r is None ==> find_definition(defs@, s, 0) is None,
{
    proof {
        lemma_find_definition(defs@, s, 0);
    }
    let mut i: usize = 0;
    while i < defs.len()
        invariant
            i <= defs@.len(),
            find_definition(defs@, s, 0) == find_definition(defs@, s, i as int),
        decreases defs@.len() - i,
    {
        if defs[i].surface == s {
            return Some(i);
        }
        i = i + 1;
    }
    None
}

/// Resolves a surface reference against the registry.
pub fn resolve(ps: &Vec<ProviderToken>, defs: &Vec<SurfaceDefinition>, s: SurfaceRef) -> (r: Result<
    SurfaceDefinition,
    ResolveError,
>)
    ensures
        r == resolve_spec(ps@, defs@, s),
{
    match provider_position(ps, s.owner.id) {
        None => Err(ResolveError::StaleProviderGeneration { active: None, requested: s.owner }),
        Some(i) => {
            let current = ps[i];
            if current != s.owner {
                Err(ResolveError::StaleProviderGeneration { active: Some(current), requested: s.owner })
            } else {
                match definition_position(defs, s) {
                    Some(j) => Ok(defs[j]),
                    None => Err(ResolveError::UnknownSurface(s)),
                }
            }
        },
    }
}

/// Index of the first entry of a batch that repeats an earlier id, at or
/// after `from`.
pub open spec fn batch_duplicate(specs: Seq<SurfaceSpec>, from: int) -> Option<int>
    decreases specs.len() - from,
{
    if from < 0 || from >= specs.len() {
        None
    } else if exists|k: int| 0 <= k < from && specs[k].id == specs[from].id {
        Some(from)
    } else {
        batch_duplicate(specs, from + 1)
    }
}

/// Index of the first entry of a batch whose id is already registered, at
/// or after `from`.
pub open spec fn registered_duplicate(defs: Seq<SurfaceDefinition>, specs: Seq<SurfaceSpec>, from: int) -> Option<int>
    decreases specs.len() - from,
{
    if from < 0 || from >= specs.len() {
        None
    } else if find_surface_id(defs, specs[from].id, 0) is Some {
        Some(from)
    } else {
        registered_duplicate(defs, specs, from + 1)
    }
}

/// The definitions a batch adds for `owner`, in batch order.
pub open spec fn bound_definitions(specs: Seq<SurfaceSpec>, owner: ProviderToken) -> Seq<SurfaceDefinition> {
    Seq::new(
        specs.len(),
        |k: int|
            SurfaceDefinition {
                surface: SurfaceRef { owner, id: specs[k].id },
                role: specs[k].role,
                capabilities: specs[k].capabilities,
                refresh_hint: specs[k].refresh_hint,
            },
    )
}

/// The outcome of registering `specs` under `id`, checked in order: ids
/// repeated within the batch, ids already registered, a provider already
/// registered under `id`, provider capacity, surface capacity, generation
/// supply. On success the token carries `next_generation`.
pub open spec fn registration_spec(
    ps: Seq<ProviderToken>,
    defs: Seq<SurfaceDefinition>,
    id: ProviderId,
    specs: Seq<SurfaceSpec>,
    provider_capacity: int,
    surface_capacity: int,
    next_generation: u32,
) -> Result<ProviderToken, RegistrationError> {
    if let Some(k) = batch_duplicate(specs, 0) {
        Err(RegistrationError::DuplicateSurfaceIdInBatch(specs[k].id))
    } else if let Some(k) = registered_duplicate(defs, specs, 0) {
        Err(
            RegistrationError::DuplicateSurfaceId {
                registered: defs[find_surface_id(defs, specs[k].id, 0)->0].surface,
                requested: specs[k].id,
            },
        )
    } else if find_provider(ps, id, 0) is Some {
        Err(RegistrationError::DuplicateProvider(id))
    } else if ps.len() >= provider_capacity {
        Err(RegistrationError::ProviderCapacity)
    } else if defs.len() + specs.len() > surface_capacity {
        Err(RegistrationError::SurfaceCapacity)
    } else if next_generation == u32::MAX {
        Err(RegistrationError::GenerationExhausted)
    } else {
        Ok(ProviderToken { id, generation: ProviderGeneration(next_generation) })
    }
}

/// Checks a registration batch; on success returns the token to issue.
pub fn check_registration(
    ps: &Vec<ProviderToken>,
    defs: &Vec<SurfaceDefinition>,
    id: ProviderId,
    specs: &[SurfaceSpec],
    provider_capacity: usize,
    surface_capacity: usize,
    next_generation: u32,
) -> (r: Result<ProviderToken, RegistrationError>)
    ensures
        r == registration_spec(
            ps@,
            defs@,
            id,
            specs@,
            provider_capacity as int,
            surface_capacity as int,
            next_generation,
        ),
{
    let mut k: usize = 0;
    while k < specs.len()
        invariant
            k <= specs@.len(),
            batch_duplicate(specs@, 0) == batch_duplicate(specs@, k as int),
            forall|a: int, b: int| 0 <= a < b < k ==> specs@[a].id != specs@[b].id,
        decreases specs@.len() - k,
    {
        let sid = specs[k].id;
        let mut j: usize = 0;
        while j < k
            invariant
                j <= k < specs@.len(),
                sid == specs@[k as int].id,
                forall|a: int| 0 <= a < j ==> specs@[a].id != sid,
                batch_duplicate(specs@, 0) == batch_duplicate(specs@, k as int),
            decreases k - j,
        {
            if specs[j].id == sid {
                assert(specs@[j as int].id == specs@[k as int].id);
                assert(exists|a: int| 0 <= a < k && specs@[a].id == specs@[k as int].id);
                assert(batch_duplicate(specs@, k as int) == Some(k as int));
                return Err(RegistrationError::DuplicateSurfaceIdInBatch(sid));
            }
            j = j + 1;
        }
        assert(!exists|a: int| 0 <= a < k && specs@[a].id == specs@[k as int].id);
        k = k + 1;
    }
    let mut k: usize = 0;
    while k < specs.len()
        invariant
            k <= specs@.len(),
            batch_duplicate(specs@, 0) is None,
            registered_duplicate(defs@, specs@, 0) == registered_duplicate(defs@, specs@, k as int),
        decreases specs@.len() - k,
    {
        let sid = specs[k].id;
        let mut j: usize = 0;
        while j < defs.len()
            invariant
                j <= defs@.len(),
                k < specs@.len(),
                sid == specs@[k as int].id,
                find_surface_id(defs@, sid, 0) == find_surface_id(defs@, sid, j as int),
                batch_duplicate(specs@, 0) is None,
                registered_duplicate(defs@, specs@, 0) == registered_duplicate(defs@, specs@, k as int),
            decreases defs@.len() - j,
        {
            if defs[j].surface.id == sid {
                assert(find_surface_id(defs@, sid, j as int) == Some(j as int));
                assert(registered_duplicate(defs@, specs@, k as int) == Some(k as int));
                return Err(RegistrationError::DuplicateSurfaceId { registered: defs[j].surface, requested: sid });
            }
            j = j + 1;
        }
        k = k + 1;
    }
    if provider_position(ps, id).is_some() {
        return Err(RegistrationError::DuplicateProvider(id));
    }
    if ps.len() >= provider_capacity {
        return Err(RegistrationError::ProviderCapacity);
    }
    if specs.len() > surface_capacity || defs.len() > surface_capacity - specs.len() {
        return Err(RegistrationError::SurfaceCapacity);
    }
    if next_generation == u32::MAX {
        return Err(RegistrationError::GenerationExhausted);
    }
    Ok(ProviderToken { id, generation: ProviderGeneration(next_generation) })
}

/// Appends the definitions of a checked batch for `owner`.
pub fn bind_definitions(defs: &mut Vec<SurfaceDefinition>, specs: &[SurfaceSpec], owner: ProviderToken)
    ensures
        final(defs)@ == old(defs)@ + bound_definitions(specs@, owner),
{
    let ghost start = defs@;
    let mut k: usize = 0;
    while k < specs.len()
        invariant
            k <= specs@.len(),
            defs@ == start + bound_definitions(specs@, owner).take(k as int),
        decreases specs@.len() - k,
    {
        let s = specs[k];
        defs.push(SurfaceDefinition {
            surface: SurfaceRef { owner, id: s.id },
            role: s.role,
            capabilities: s.capabilities,
            refresh_hint: s.refresh_hint,
        });
        assert(bound_definitions(specs@, owner).take(k + 1) =~= bound_definitions(specs@, owner).take(k as int).push(
            bound_definitions(specs@, owner)[k as int],
        ));
        k = k + 1;
    }
    assert(bound_definitions(specs@, owner).take(specs@.len() as int) =~= bound_definitions(specs@, owner));
}

} // verus!
