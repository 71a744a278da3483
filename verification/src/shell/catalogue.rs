//! The compiled launch catalogue: entries, their availability badges, the
//! filtered and ordered views the launcher, ambient picker and overlay
//! settings show, pins and fault marking.
use vstd::prelude::*;

use super::types::{caps_contain, SurfaceCapabilities, SurfaceRef};

verus! {

broadcast use vstd::seq_lib::group_seq_properties;

/// Default capacity of the firmware's catalogue.
pub const CATALOGUE_CAPACITY: usize = 8;

/// Stable identity of a catalogue entry.
#[derive(Clone, Copy, Debug, Eq, Ord, PartialEq, PartialOrd, Structural)]
pub struct EntryId {
    pub namespace: u16,
    pub local: u16,
}

impl EntryId {
    /// The id `local` in `namespace`.
    pub fn new(namespace: u16, local: u16) -> (r: Self)
        ensures
            r == (EntryId { namespace, local }),
    {
        EntryId { namespace, local }
    }
}

#[derive(Clone, Copy, Debug, Eq, PartialEq, Structural)]
pub struct GlyphRef(pub u16);

#[derive(Clone, Copy, Debug, Eq, PartialEq, Structural)]
pub enum SourcePresence {
    BuiltIn,
    LibraryPresent,
    LibraryAbsent,
}

#[derive(Clone, Copy, Debug, Eq, PartialEq, Structural)]
pub enum Residency {
    Resident,
    NotResident,
    NotApplicable,
}

#[derive(Clone, Copy, Debug, Eq, PartialEq, Structural)]
pub enum Compatibility {
    Compatible,
    Incompatible,
    Unknown,
}

#[derive(Clone, Copy, Debug, Eq, PartialEq, Structural)]
pub enum Health {
    Ready,
    Faulted,
    Corrupt,
    Unverified,
}

/// Why an entry can or cannot be entered.
#[derive(Clone, Copy, Debug, Eq, PartialEq, Structural)]
pub enum CatalogueBadge {
    Ready,
    SourceMissing,
    NotResident,
    Incompatible,
    CompatibilityUnknown,
    Faulted,
    Corrupt,
    Unverified,
    Unregistered,
}

impl CatalogueBadge {
    /// The badge's caption.
    pub fn label(self) -> (r: &'static str)
        ensures
            r@ == badge_label_spec(self)@,
    {
        match self {
            CatalogueBadge::Ready => "Ready",
            CatalogueBadge::SourceMissing => "Source missing",
            CatalogueBadge::NotResident => "Not resident",
            CatalogueBadge::Incompatible => "Incompatible",
            CatalogueBadge::CompatibilityUnknown => "Compatibility unknown",
            CatalogueBadge::Faulted => "Faulted",
            CatalogueBadge::Corrupt => "Corrupt",
            CatalogueBadge::Unverified => "Unverified",
            CatalogueBadge::Unregistered => "Unavailable",
        }
    }
}

/// Caption of each badge.
pub open spec fn badge_label_spec(b: CatalogueBadge) -> &'static str {
    match b {
        CatalogueBadge::Ready => "Ready",
        CatalogueBadge::SourceMissing => "Source missing",
        CatalogueBadge::NotResident => "Not resident",
        CatalogueBadge::Incompatible => "Incompatible",
        CatalogueBadge::CompatibilityUnknown => "Compatibility unknown",
        CatalogueBadge::Faulted => "Faulted",
        CatalogueBadge::Corrupt => "Corrupt",
        CatalogueBadge::Unverified => "Unverified",
        CatalogueBadge::Unregistered => "Unavailable",
    }
}

/// What selecting an entry does.
#[derive(Clone, Copy, Debug, Eq, PartialEq, Structural)]
pub enum CatalogueAction {
    Enter(SurfaceRef),
    Unavailable(CatalogueBadge),
}

/// The three places the catalogue is shown.
#[derive(Clone, Copy, Debug, Eq, PartialEq, Structural)]
pub enum CatalogueViewKind {
    Launcher,
    AmbientPicker,
    OverlaySettings,
}

/// The capability bit a view requires.
pub open spec fn view_capability(kind: CatalogueViewKind) -> u8 {
    match kind {
        CatalogueViewKind::Launcher => 1,
        CatalogueViewKind::AmbientPicker => 2,
        CatalogueViewKind::OverlaySettings => 4,
    }
}

impl CatalogueViewKind {
    /// The capability an entry needs to appear in this view.
    pub fn capability(self) -> (r: SurfaceCapabilities)
        ensures
            r.0 == view_capability(self),
    {
        match self {
            CatalogueViewKind::Launcher => SurfaceCapabilities::launchable(),
            CatalogueViewKind::AmbientPicker => SurfaceCapabilities::ambient(),
            CatalogueViewKind::OverlaySettings => SurfaceCapabilities::overlay(),
        }
    }
}

/// One catalogue entry and its independent state axes.
#[derive(Clone, Copy, Debug, Eq, PartialEq)]
pub struct CatalogueEntry {
    pub id: EntryId,
    pub label: &'static str,
    pub glyph: GlyphRef,
    pub surface: Option<SurfaceRef>,
    pub capabilities: SurfaceCapabilities,
    pub default_rank: u8,
    pub pin: Option<u8>,
    pub source: SourcePresence,
    pub residency: Residency,
    pub compatibility: Compatibility,
    pub health: Health,
}

/// The badge of an entry: health first, then compatibility, then
/// registration, then residency (a missing library only matters for an
/// entry that is not resident).
pub open spec fn badge_spec(e: CatalogueEntry) -> CatalogueBadge {
    match e.health {
        Health::Faulted => CatalogueBadge::Faulted,
        Health::Corrupt => CatalogueBadge::Corrupt,
        Health::Unverified => CatalogueBadge::Unverified,
        Health::Ready => match e.compatibility {
            Compatibility::Incompatible => CatalogueBadge::Incompatible,
            Compatibility::Unknown => CatalogueBadge::CompatibilityUnknown,
            Compatibility::Compatible => if e.surface is None {
                CatalogueBadge::Unregistered
            } else {
                match e.residency {
                    Residency::NotResident => if e.source == SourcePresence::LibraryAbsent {
                        CatalogueBadge::SourceMissing
                    } else {
                        CatalogueBadge::NotResident
                    },
                    _ => CatalogueBadge::Ready,
                }
            },
        },
    }
}

impl CatalogueEntry {
    /// The entry's availability badge.
    pub fn badge(self) -> (r: CatalogueBadge)
        ensures
            r == badge_spec(self),
    {
        match self.health {
            Health::Faulted => return CatalogueBadge::Faulted,
            Health::Corrupt => return CatalogueBadge::Corrupt,
            Health::Unverified => return CatalogueBadge::Unverified,
            Health::Ready => {},
        }
        match self.compatibility {
            Compatibility::Incompatible => return CatalogueBadge::Incompatible,
            Compatibility::Unknown => return CatalogueBadge::CompatibilityUnknown,
            Compatibility::Compatible => {},
        }
        if self.surface.is_none() {
            return CatalogueBadge::Unregistered;
        }
        match self.residency {
            Residency::NotResident => {
                return if matches!(self.source, SourcePresence::LibraryAbsent) {
                    CatalogueBadge::SourceMissing
                } else {
                    CatalogueBadge::NotResident
                };
            },
            Residency::Resident | Residency::NotApplicable => {},
        }
        CatalogueBadge::Ready
    }

    /// Enter a ready entry's surface; otherwise show why it is unavailable.
    pub fn action(self) -> (r: CatalogueAction)
        ensures
            r == (if badge_spec(self) == CatalogueBadge::Ready && self.surface is Some {
                CatalogueAction::Enter(self.surface->0)
            } else {
                CatalogueAction::Unavailable(badge_spec(self))
            }),
    {
        let badge = self.badge();
        match (badge, self.surface) {
            (CatalogueBadge::Ready, Some(surface)) => CatalogueAction::Enter(surface),
            _ => CatalogueAction::Unavailable(badge),
        }
    }
}

/// A ready entry always has a surface to enter.
pub proof fn lemma_ready_entry_is_enterable(e: CatalogueEntry)
    ensures
        badge_spec(e) == CatalogueBadge::Ready ==> e.surface is Some,
{
}

/// Why a catalogue operation was refused.
#[derive(Clone, Copy, Debug, Eq, PartialEq, Structural)]
pub enum CatalogueError {
    Empty,
    Capacity,
    DuplicateId(EntryId),
    MissingAmbientFallback(EntryId),
    InvalidAmbientFallback(EntryId),
}

/// Entries in display order.
pub struct CatalogueView<const CAPACITY: usize> {
    entries: Vec<CatalogueEntry>,
}

impl<const CAPACITY: usize> CatalogueView<CAPACITY> {
    /// The entries, in display order.
    pub closed spec fn shown(self) -> Seq<CatalogueEntry> {
        self.entries@
    }

    /// The entries, in display order.
    pub fn entries(&self) -> (r: &[CatalogueEntry])
        ensures
            r@ == self.shown(),
    {
        self.entries.as_slice()
    }
}

/// The catalogue the firmware was built with, plus registered entries.
pub struct CompiledCatalogue<const CAPACITY: usize> {
    entries: Vec<CatalogueEntry>,
    ambient_fallback: EntryId,
}

/// Index of the first entry of `s` with `id` at or after `from`.
/// Whether the first entry with `id` in `s` shows in the view `kind` and
/// is ready.
pub open spec fn entry_ready_spec(s: Seq<CatalogueEntry>, id: EntryId, kind: CatalogueViewKind) -> bool {
    match find_id(s, id, 0) {
        Some(k) => caps_contain(s[k].capabilities.0, view_capability(kind)) && badge_spec(s[k]) == CatalogueBadge::Ready,
        None => false,
    }
}

pub open spec fn find_id(s: Seq<CatalogueEntry>, id: EntryId, from: int) -> Option<int>
    decreases s.len() - from,
{
    if from < 0 || from >= s.len() {
        None
    } else if s[from].id == id {
        Some(from)
    } else {
        find_id(s, id, from + 1)
    }
}

/// Index of the first entry that repeats an id of an earlier entry.
pub open spec fn first_duplicate(s: Seq<CatalogueEntry>, from: int) -> Option<int>
    decreases s.len() - from,
{
    if from < 0 || from >= s.len() {
        None
    } else if find_id(s, s[from].id, 0) != Some(from) {
        Some(from)
    } else {
        first_duplicate(s, from + 1)
    }
}

/// No two entries share an id.
pub open spec fn ids_distinct(s: Seq<CatalogueEntry>) -> bool {
    forall|i: int, j: int| 0 <= i < j < s.len() ==> s[i].id != s[j].id
}

/// Outcome of compiling `entries` with `fallback` as ambient fallback: the
/// list must be non-empty, fit, have distinct ids and contain the fallback,
/// which must be an ambient, built-in, ready entry.
pub open spec fn compile_spec(entries: Seq<CatalogueEntry>, capacity: int, fallback: EntryId) -> Result<Seq<CatalogueEntry>, CatalogueError> {
    if entries.len() == 0 {
        Err(CatalogueError::Empty)
    } else if entries.len() > capacity {
        Err(CatalogueError::Capacity)
    } else if first_duplicate(entries, 0) is Some {
        Err(CatalogueError::DuplicateId(entries[first_duplicate(entries, 0)->0].id))
    } else {
        match find_id(entries, fallback, 0) {
            None => Err(CatalogueError::MissingAmbientFallback(fallback)),
            Some(k) => {
                let f = entries[k];
                if !caps_contain(f.capabilities.0, 2) || f.source != SourcePresence::BuiltIn || badge_spec(f)
                    != CatalogueBadge::Ready {
                    Err(CatalogueError::InvalidAmbientFallback(fallback))
                } else {
                    Ok(entries)
                }
            },
        }
    }
}

/// Display ordering: pinned entries first by pin position, then the rest by
/// default rank, ties broken by id.
pub open spec fn key_lt(a: CatalogueEntry, b: CatalogueEntry) -> bool {
    let (ca, pa, ra) = match a.pin {
        Some(p) => (0int, p as int, 0int),
        None => (1int, 0int, a.default_rank as int),
    };
    let (cb, pb, rb) = match b.pin {
        Some(p) => (0int, p as int, 0int),
        None => (1int, 0int, b.default_rank as int),
    };
    ca < cb || (ca == cb && (pa < pb || (pa == pb && (ra < rb || (ra == rb && (a.id.namespace < b.id.namespace
        || (a.id.namespace == b.id.namespace && a.id.local < b.id.local)))))))
}

/// Position at which `e` is inserted into the ordered `s`: after every entry
/// that does not order after it.
pub open spec fn insert_pos(s: Seq<CatalogueEntry>, e: CatalogueEntry, from: int) -> int
    decreases s.len() - from,
{
    if from < 0 || from >= s.len() {
        s.len() as int
    } else if key_lt(e, s[from]) {
        from
    } else {
        insert_pos(s, e, from + 1)
    }
}

/// The stable display order of `s`: each entry inserted behind the entries
/// that do not order after it.
pub open spec fn order_spec(s: Seq<CatalogueEntry>) -> Seq<CatalogueEntry>
    decreases s.len(),
{
    if s.len() == 0 {
        s
    } else {
        let o = order_spec(s.drop_last());
        o.insert(insert_pos(o, s.last(), 0), s.last())
    }
}

/// The entries that carry a view's capability.
pub open spec fn shows_in(kind: CatalogueViewKind) -> spec_fn(CatalogueEntry) -> bool {
    |e: CatalogueEntry| caps_contain(e.capabilities.0, view_capability(kind))
}

/// Last position `< n` of `pins` that names `id`.
pub open spec fn last_pin(pins: Seq<EntryId>, id: EntryId, n: int) -> Option<int>
    decreases n,
{
    if n <= 0 {
        None
    } else if pins[n - 1] == id {
        Some(n - 1)
    } else {
        last_pin(pins, id, n - 1)
    }
}

/// The pin an entry gets from the first `n` pins: the last position naming it,
/// if it is launchable and fits a `u8`; pins only reach the first entry with
/// an id.
pub open spec fn pin_after(s: Seq<CatalogueEntry>, k: int, pins: Seq<EntryId>, n: int) -> Option<u8> {
    let e = s[k];
    if find_id(s, e.id, 0) == Some(k) && caps_contain(e.capabilities.0, 1) {
        match last_pin(pins, e.id, n) {
            Some(p) => if p <= 255 { Some(p as u8) } else { None },
            None => None,
        }
    } else {
        None
    }
}

/// Index of the first entry of `s` showing `surface`, at or after `from`.
pub open spec fn find_surface(s: Seq<CatalogueEntry>, surface: SurfaceRef, from: int) -> Option<int>
    decreases s.len() - from,
{
    if from < 0 || from >= s.len() {
        None
    } else if s[from].surface == Some(surface) {
        Some(from)
    } else {
        find_surface(s, surface, from + 1)
    }
}


/// No entry of `o` orders strictly before an earlier one.
pub open spec fn ordered(o: Seq<CatalogueEntry>) -> bool {
    forall|i: int, j: int| 0 <= i < j < o.len() ==> !key_lt(o[j], o[i])
}

proof fn lemma_insert_pos(o: Seq<CatalogueEntry>, e: CatalogueEntry, from: int)
    requires
        0 <= from <= o.len(),
    ensures
        from <= insert_pos(o, e, from) <= o.len(),
        forall|k: int| from <= k < insert_pos(o, e, from) ==> !key_lt(e, o[k]),
        insert_pos(o, e, from) < o.len() ==> key_lt(e, o[insert_pos(o, e, from)]),
    decreases o.len() - from,
{
    if from < o.len() && !key_lt(e, o[from]) {
        lemma_insert_pos(o, e, from + 1);
    }
}

/// The display order is a stable sort: it is ordered by pin, rank and id,
/// and holds exactly the entries it was given.
pub proof fn lemma_order_sorted_permutation(s: Seq<CatalogueEntry>)
    ensures
        ordered(order_spec(s)),
        order_spec(s).to_multiset() == s.to_multiset(),
        order_spec(s).len() == s.len(),
    decreases s.len(),
{
    if s.len() > 0 {
        let o = order_spec(s.drop_last());
        lemma_order_sorted_permutation(s.drop_last());
        let e = s.last();
        lemma_insert_pos(o, e, 0);
        let p = insert_pos(o, e, 0);
        let o2 = o.insert(p, e);
        assert forall|i: int, j: int| 0 <= i < j < o2.len() implies !key_lt(o2[j], o2[i]) by {
            if j < p {
                assert(o2[i] == o[i] && o2[j] == o[j]);
            } else if j == p {
                assert(o2[i] == o[i]);
            } else if i < p {
                assert(o2[i] == o[i] && o2[j] == o[j - 1]);
            } else if i == p {
                assert(o2[j] == o[j - 1]);
                if key_lt(o[j - 1], e) {
                    assert(key_lt(e, o[p]));
                    if j - 1 > p {
                        assert(!key_lt(o[j - 1], o[p]));
                    }
                }
            } else {
                assert(o2[i] == o[i - 1] && o2[j] == o[j - 1]);
            }
        }
        vstd::seq_lib::to_multiset_insert(o, p, e);
        vstd::seq_lib::to_multiset_build(s.drop_last(), e);
        assert(s.drop_last().push(e) =~= s);
    }
}

/// Entries with distinct ids have distinct keys: the order between two of them
/// is strict one way or the other.
pub proof fn lemma_key_total(a: CatalogueEntry, b: CatalogueEntry)
    requires
        a.id != b.id,
    ensures
        key_lt(a, b) || key_lt(b, a),
        !(key_lt(a, b) && key_lt(b, a)),
{
}

proof fn lemma_find_id<T>(s: Seq<CatalogueEntry>, id: EntryId, from: int)
    requires
        0 <= from,
    ensures
        find_id(s, id, from) matches Some(k) ==> from <= k < s.len() && s[k].id == id && forall|j: int|
            from <= j < k ==> s[j].id != id,
        find_id(s, id, from) is None ==> forall|j: int| from <= j < s.len() ==> s[j].id != id,
    decreases s.len() - from,
{
    if 0 <= from < s.len() && s[from].id != id {
        lemma_find_id::<T>(s, id, from + 1);
    }
}

fn same_surface(a: Option<SurfaceRef>, b: SurfaceRef) -> (r: bool)
    ensures
        r == (a == Some(b)),
{
    match a {
        Some(s) => s == b,
        None => false,
    }
}

fn find_entry(s: &Vec<CatalogueEntry>, id: EntryId) -> (r: Option<usize>)
    ensures
        r matches Some(k) ==> find_id(s@, id, 0) == Some(k as int) && k < s@.len() && s@[k as int].id == id,
        r is None ==> find_id(s@, id, 0) is None,
{
    let mut i: usize = 0;
    while i < s.len() && s[i].id != id
        invariant
            i <= s@.len(),
            find_id(s@, id, 0) == find_id(s@, id, i as int),
        decreases s@.len() - i,
    {
        i = i + 1;
    }
    proof {
        lemma_find_id::<()>(s@, id, 0);
    }
    if i < s.len() {
        Some(i)
    } else {
        None
    }
}

/// Whether `a` orders strictly before `b`.
pub fn ordering_key_less(a: &CatalogueEntry, b: &CatalogueEntry) -> (r: bool)
    ensures
        r == key_lt(*a, *b),
{
    let (ca, pa, ra) = ordering_key(a);
    let (cb, pb, rb) = ordering_key(b);
    ca < cb || (ca == cb && (pa < pb || (pa == pb && (ra < rb || (ra == rb && (a.id.namespace < b.id.namespace
        || (a.id.namespace == b.id.namespace && a.id.local < b.id.local)))))))
}

/// The ordering key's class, pin position and rank (the id breaks ties).
pub fn ordering_key(entry: &CatalogueEntry) -> (r: (u8, u8, u8))
    ensures
        r == (match entry.pin {
            Some(p) => (0u8, p, 0u8),
            None => (1u8, 0u8, entry.default_rank),
        }),
{
    match entry.pin {
        Some(position) => (0, position, 0),
        None => (1, 0, entry.default_rank),
    }
}

impl<const CAPACITY: usize> CompiledCatalogue<CAPACITY> {
    /// The catalogue's entries, in compiled order.
    pub closed spec fn listed(self) -> Seq<CatalogueEntry> {
        self.entries@
    }

    /// The id of the ambient fallback entry.
    pub closed spec fn fallback_id(self) -> EntryId {
        self.ambient_fallback
    }

    /// Ids are distinct, the entries fit and the fallback entry is present.
    pub closed spec fn wf(self) -> bool {
        &&& ids_distinct(self.entries@)
        &&& self.entries@.len() <= CAPACITY
        &&& find_id(self.entries@, self.ambient_fallback, 0) is Some
    }

    /// Compiles the catalogue from `entries` with `ambient_fallback` as the
    /// entry Ambient Home falls back to.
    pub fn new(entries: &[CatalogueEntry], ambient_fallback: EntryId) -> (r: Result<Self, CatalogueError>)
        ensures
            match (r, compile_spec(entries@, CAPACITY as int, ambient_fallback)) {
                (Ok(c), Ok(s)) => c.listed() == s && c.fallback_id() == ambient_fallback && c.wf(),
                (Err(a), Err(b)) => a == b,
                _ => false,
            },
    {
        if entries.len() == 0 {
            return Err(CatalogueError::Empty);
        }
        if entries.len() > CAPACITY {
            return Err(CatalogueError::Capacity);
        }
        let mut index: usize = 0;
        while index < entries.len()
            invariant
                index <= entries@.len(),
                0 < entries@.len() <= CAPACITY,
                first_duplicate(entries@, 0) == first_duplicate(entries@, index as int),
                forall|i: int, j: int| 0 <= i < j < index ==> entries@[i].id != entries@[j].id,
            decreases entries@.len() - index,
        {
            let id = entries[index].id;
            let mut j: usize = 0;
            while j < index && entries[j].id != id
                invariant
                    j <= index < entries@.len(),
                    id == entries@[index as int].id,
                    forall|k: int| 0 <= k < j ==> entries@[k].id != id,
                decreases index - j,
            {
                j = j + 1;
            }
            proof {
                lemma_find_id::<()>(entries@, id, 0);
                if j < index {
                    let k = find_id(entries@, id, 0)->0;
                    assert(k <= j);
                    assert(first_duplicate(entries@, index as int) == Some(index as int));
                } else {
                    assert(find_id(entries@, id, 0) == Some(index as int));
                    assert(first_duplicate(entries@, index as int) == first_duplicate(entries@, index + 1));
                }
            }
            if j < index {
                return Err(CatalogueError::DuplicateId(id));
            }
            index = index + 1;
        }
        let mut k: usize = 0;
        while k < entries.len() && entries[k].id != ambient_fallback
            invariant
                k <= entries@.len(),
                find_id(entries@, ambient_fallback, 0) == find_id(entries@, ambient_fallback, k as int),
            decreases entries@.len() - k,
        {
            k = k + 1;
        }
        if k == entries.len() {
            return Err(CatalogueError::MissingAmbientFallback(ambient_fallback));
        }
        let fallback = entries[k];
        if !fallback.capabilities.contains(SurfaceCapabilities::ambient()) || fallback.source
            != SourcePresence::BuiltIn || fallback.badge() != CatalogueBadge::Ready {
            return Err(CatalogueError::InvalidAmbientFallback(ambient_fallback));
        }
        let mut compiled: Vec<CatalogueEntry> = Vec::new();
        let mut i: usize = 0;
        while i < entries.len()
            invariant
                i <= entries@.len(),
                compiled@ == entries@.take(i as int),
            decreases entries@.len() - i,
        {
            compiled.push(entries[i]);
            i = i + 1;
        }
        proof {
            assert(entries@.take(entries@.len() as int) =~= entries@);
        }
        Ok(CompiledCatalogue { entries: compiled, ambient_fallback })
    }

    /// Adds an entry, unless its id is taken or the catalogue is full.
    pub fn register(&mut self, entry: CatalogueEntry) -> (r: Result<(), CatalogueError>)
        requires
            old(self).wf(),
        ensures
            final(self).wf(),
            final(self).fallback_id() == old(self).fallback_id(),
            find_id(old(self).listed(), entry.id, 0) is Some ==> r == Err::<(), _>(CatalogueError::DuplicateId(entry.id))
                && final(self).listed() == old(self).listed(),
            find_id(old(self).listed(), entry.id, 0) is None && old(self).listed().len() >= CAPACITY ==> r
                == Err::<(), _>(CatalogueError::Capacity) && final(self).listed() == old(self).listed(),
            find_id(old(self).listed(), entry.id, 0) is None && old(self).listed().len() < CAPACITY ==> r is Ok
                && final(self).listed() == old(self).listed().push(entry),
    {
        if find_entry(&self.entries, entry.id).is_some() {
            return Err(CatalogueError::DuplicateId(entry.id));
        }
        if self.entries.len() >= CAPACITY {
            return Err(CatalogueError::Capacity);
        }
        proof {
            lemma_find_id::<()>(self.entries@, entry.id, 0);
            lemma_find_id::<()>(self.entries@, self.ambient_fallback, 0);
        }
        self.entries.push(entry);
        proof {
            lemma_find_id::<()>(self.entries@, self.ambient_fallback, 0);
            let k = find_id(old(self).entries@, self.ambient_fallback, 0)->0;
            assert(self.entries@[k].id == self.ambient_fallback);
        }
        Ok(())
    }

    /// The entries with the view's capability, in display order.
    pub fn view(&self, kind: CatalogueViewKind) -> (r: CatalogueView<CAPACITY>)
        ensures
            r.shown() == order_spec(self.listed().filter(shows_in(kind))),
    {
        let required = kind.capability();
        let mut filtered: Vec<CatalogueEntry> = Vec::new();
        let mut i: usize = 0;
        while i < self.entries.len()
            invariant
                i <= self.entries@.len(),
                required.0 == view_capability(kind),
                filtered@ == self.entries@.take(i as int).filter(shows_in(kind)),
            decreases self.entries@.len() - i,
        {
            let entry = self.entries[i];
            proof {
                assert(self.entries@.take(i + 1) =~= self.entries@.take(i as int).push(entry));
                self.entries@.take(i as int).lemma_filter_push(entry, shows_in(kind));
            }
            if entry.capabilities.contains(required) {
                filtered.push(entry);
            }
            i = i + 1;
        }
        proof {
            assert(self.entries@.take(self.entries@.len() as int) =~= self.entries@);
        }
        let mut ordered: Vec<CatalogueEntry> = Vec::new();
        let mut n: usize = 0;
        while n < filtered.len()
            invariant
                n <= filtered@.len(),
                ordered@ == order_spec(filtered@.take(n as int)),
                ordered@.len() == n,
            decreases filtered@.len() - n,
        {
            let entry = filtered[n];
            let mut p: usize = 0;
            while p < ordered.len() && !ordering_key_less(&entry, &ordered[p])
                invariant
                    p <= ordered@.len(),
                    insert_pos(ordered@, entry, 0) == insert_pos(ordered@, entry, p as int),
                decreases ordered@.len() - p,
            {
                p = p + 1;
            }
            proof {
                assert(filtered@.take(n + 1).drop_last() =~= filtered@.take(n as int));
                assert(filtered@.take(n + 1).last() == entry);
            }
            ordered.insert(p, entry);
            n = n + 1;
        }
        proof {
            assert(filtered@.take(filtered@.len() as int) =~= filtered@);
        }
        CatalogueView { entries: ordered }
    }

    /// The first entry with `id`.
    pub fn entry(&self, id: EntryId) -> (r: Option<CatalogueEntry>)
        ensures
            r == (match find_id(self.listed(), id, 0) {
                Some(k) => Some(self.listed()[k]),
                None => None,
            }),
    {
        match find_entry(&self.entries, id) {
            Some(k) => Some(self.entries[k]),
            None => None,
        }
    }

    /// Whether the entry `id` exists, shows in the view and is ready.
    pub fn entry_is_ready_for(&self, id: EntryId, kind: CatalogueViewKind) -> (r: bool)
        ensures
            r == entry_ready_spec(self.listed(), id, kind),
    {
        match self.entry(id) {
            Some(entry) => entry.capabilities.contains(kind.capability()) && entry.badge() == CatalogueBadge::Ready,
            None => false,
        }
    }

    /// Replaces all pins: each launchable entry named in `pins` is pinned at
    /// the last position naming it (positions beyond 255 leave it unpinned).
    pub fn apply_pins(&mut self, pins: &[EntryId])
        requires
            old(self).wf(),
        ensures
            final(self).wf(),
            final(self).fallback_id() == old(self).fallback_id(),
            final(self).listed().len() == old(self).listed().len(),
            forall|k: int| 0 <= k < old(self).listed().len() ==> #[trigger] final(self).listed()[k] == (CatalogueEntry {
                pin: pin_after(old(self).listed(), k, pins@, pins@.len() as int),
                ..old(self).listed()[k]
            }),
    {
        let ghost s0 = self.entries@;
        let mut i: usize = 0;
        while i < self.entries.len()
            invariant
                i <= self.entries@.len(),
                self.entries@.len() == s0.len(),
                self.ambient_fallback == old(self).ambient_fallback,
                forall|k: int| 0 <= k < s0.len() ==> (#[trigger] self.entries@[k]) == (CatalogueEntry {
                    pin: if k < i { None } else { s0[k].pin },
                    ..s0[k]
                }),
            decreases s0.len() - i,
        {
            let mut e = self.entries[i];
            e.pin = None;
            self.entries.set(i, e);
            i = i + 1;
        }
        let mut position: usize = 0;
        while position < pins.len()
            invariant
                position <= pins@.len(),
                self.entries@.len() == s0.len(),
                self.ambient_fallback == old(self).ambient_fallback,
                s0 == old(self).entries@,
                ids_distinct(s0),
                forall|k: int| 0 <= k < s0.len() ==> (#[trigger] self.entries@[k]) == (CatalogueEntry {
                    pin: pin_after(s0, k, pins@, position as int),
                    ..s0[k]
                }),
            decreases pins@.len() - position,
        {
            let id = pins[position];
            proof {
                assert forall|k: int| 0 <= k < s0.len() implies self.entries@[k].id == s0[k].id by {
                    assert(self.entries@[k] == (CatalogueEntry { pin: pin_after(s0, k, pins@, position as int), ..s0[k] }));
                }
                assert(self.entries@.len() == s0.len());
            }
            match find_entry(&self.entries, id) {
                Some(k) => {
                    let mut e = self.entries[k];
                    proof {
                        lemma_find_id::<()>(self.entries@, id, 0);
                        lemma_find_id::<()>(s0, id, 0);
                        assert(find_id(s0, id, 0) == Some(k as int)) by {
                            lemma_find_id_same::<()>(s0, self.entries@, id, 0);
                        }
                    }
                    if e.capabilities.contains(SurfaceCapabilities::launchable()) {
                        e.pin = if position <= 255 { Some(position as u8) } else { None };
                        self.entries.set(k, e);
                    }
                    proof {
                        assert forall|j: int| 0 <= j < s0.len() implies (#[trigger] self.entries@[j]) == (CatalogueEntry {
                            pin: pin_after(s0, j, pins@, position + 1),
                            ..s0[j]
                        }) by {
                            lemma_find_id::<()>(s0, s0[j].id, 0);
                        }
                    }
                },
                None => {
                    proof {
                        lemma_find_id::<()>(self.entries@, id, 0);
                        lemma_find_id_same::<()>(s0, self.entries@, id, 0);
                        lemma_find_id::<()>(s0, id, 0);
                        assert forall|j: int| 0 <= j < s0.len() implies (#[trigger] self.entries@[j]) == (CatalogueEntry {
                            pin: pin_after(s0, j, pins@, position + 1),
                            ..s0[j]
                        }) by {
                            lemma_find_id::<()>(s0, s0[j].id, 0);
                        }
                    }
                },
            }
            position = position + 1;
        }
        proof {
            assert forall|k: int| 0 <= k < s0.len() implies s0[k].id == self.entries@[k].id by {
                assert(self.entries@[k] == (CatalogueEntry { pin: pin_after(s0, k, pins@, pins@.len() as int), ..s0[k] }));
            }
            lemma_ids_kept::<()>(s0, self.entries@);
            lemma_find_id_same::<()>(s0, self.entries@, self.ambient_fallback, 0);
        }
    }

    /// The ambient fallback entry.
    pub fn ambient_fallback(&self) -> (r: CatalogueEntry)
        requires
            self.wf(),
        ensures
            r == self.listed()[find_id(self.listed(), self.fallback_id(), 0)->0],
            r.id == self.fallback_id(),
    {
        proof {
            lemma_find_id::<()>(self.entries@, self.ambient_fallback, 0);
        }
        match find_entry(&self.entries, self.ambient_fallback) {
            Some(k) => self.entries[k],
            None => {
                proof {
                    assert(false);
                }
                self.entries[0]
            },
        }
    }

    /// Marks the first entry showing `surface` as faulted; reports whether one
    /// did.
    pub fn mark_surface_faulted(&mut self, surface: SurfaceRef) -> (r: bool)
        requires
            old(self).wf(),
        ensures
            final(self).wf(),
            final(self).fallback_id() == old(self).fallback_id(),
            r == find_surface(old(self).listed(), surface, 0) is Some,
            final(self).listed() == (match find_surface(old(self).listed(), surface, 0) {
                Some(k) => old(self).listed().update(k, CatalogueEntry { health: Health::Faulted, ..old(self).listed()[k] }),
                None => old(self).listed(),
            }),
    {
        let mut i: usize = 0;
        while i < self.entries.len() && !same_surface(self.entries[i].surface, surface)
            invariant
                i <= self.entries@.len(),
                find_surface(self.entries@, surface, 0) == find_surface(self.entries@, surface, i as int),
            decreases self.entries@.len() - i,
        {
            i = i + 1;
        }
        if i == self.entries.len() {
            return false;
        }
        let mut e = self.entries[i];
        e.health = Health::Faulted;
        let ghost s0 = self.entries@;
        self.entries.set(i, e);
        proof {
            lemma_ids_kept::<()>(s0, self.entries@);
            lemma_find_id_same::<()>(s0, self.entries@, self.ambient_fallback, 0);
        }
        true
    }

    /// Number of entries.
    pub fn len(&self) -> (r: usize)
        ensures
            r == self.listed().len(),
    {
        self.entries.len()
    }
}

proof fn lemma_find_id_same<T>(a: Seq<CatalogueEntry>, b: Seq<CatalogueEntry>, id: EntryId, from: int)
    requires
        a.len() == b.len(),
        forall|k: int| 0 <= k < a.len() ==> a[k].id == b[k].id,
    ensures
        find_id(a, id, from) == find_id(b, id, from),
    decreases a.len() - from,
{
    if 0 <= from < a.len() {
        lemma_find_id_same::<T>(a, b, id, from + 1);
    }
}

proof fn lemma_ids_kept<T>(a: Seq<CatalogueEntry>, b: Seq<CatalogueEntry>)
    requires
        a.len() == b.len(),
        forall|k: int| 0 <= k < a.len() ==> a[k].id == b[k].id,
        ids_distinct(a),
    ensures
        ids_distinct(b),
{
    assert forall|i: int, j: int| 0 <= i < j < b.len() implies b[i].id != b[j].id by {
        assert(a[i].id == b[i].id && a[j].id == b[j].id);
    }
}

} // verus!
