//! Boot-slot bookkeeping of the single-production firmware layout: labels,
//! the two redundant `otadata` records, and the decisions taken around the
//! flash reads and writes.
//!
//! `otadata` holds two sector records so that a torn write never loses both:
//! a new selection goes to the sector whose record is invalid or older, with
//! a sequence number above every valid one.
use vstd::prelude::*;
use vstd::string::StringSliceAdditionalSpecFns;

verus! {

/// The app partitions the booted image can be reported from.
#[derive(Clone, Copy, Debug, PartialEq, Eq, Structural)]
pub enum Slot {
    Ota0,
    /// The factory (updater) partition.
    Factory,
}

impl Slot {
    /// The partition's label in the partition table.
    pub fn label(self) -> (r: &'static str)
        ensures
            r@ == slot_label(self)@,
    {
        match self {
            Slot::Ota0 => "ota_0",
            Slot::Factory => "factory",
        }
    }
}

/// The label of a slot.
pub open spec fn slot_label(s: Slot) -> &'static str {
    match s {
        Slot::Ota0 => "ota_0",
        Slot::Factory => "factory",
    }
}

/// Why a boot-state operation failed.
#[derive(Clone, Copy, Debug, PartialEq, Eq, Structural)]
pub enum UpdateError {
    Layout,
    Flash,
    Metadata,
}

/// The label of an error.
pub open spec fn error_label(e: UpdateError) -> &'static str {
    match e {
        UpdateError::Layout => "layout",
        UpdateError::Flash => "flash",
        UpdateError::Metadata => "metadata",
    }
}

impl UpdateError {
    /// The error's label in console reports.
    pub fn label(self) -> (r: &'static str)
        ensures
            r@ == error_label(self)@,
    {
        match self {
            UpdateError::Layout => "layout",
            UpdateError::Flash => "flash",
            UpdateError::Metadata => "metadata",
        }
    }
}

/// The state the bootloader records for the selected image.
#[derive(Clone, Copy, Debug, PartialEq, Eq, Structural)]
pub enum OtaImageState {
    New,
    PendingVerify,
    Valid,
    Invalid,
    Aborted,
    Undefined,
}

/// The label of an image state.
pub open spec fn state_label(s: OtaImageState) -> &'static str {
    match s {
        OtaImageState::New => "new",
        OtaImageState::PendingVerify => "pending_verify",
        OtaImageState::Valid => "valid",
        OtaImageState::Invalid => "invalid",
        OtaImageState::Aborted => "aborted",
        OtaImageState::Undefined => "undefined",
    }
}

/// The label of an image state in console reports.
pub fn image_state_label(state: OtaImageState) -> (r: &'static str)
    ensures
        r@ == state_label(state)@,
{
    match state {
        OtaImageState::New => "new",
        OtaImageState::PendingVerify => "pending_verify",
        OtaImageState::Valid => "valid",
        OtaImageState::Invalid => "invalid",
        OtaImageState::Aborted => "aborted",
        OtaImageState::Undefined => "undefined",
    }
}

/// The word an `otadata` record stores for an image state.
pub open spec fn state_code(s: OtaImageState) -> u32 {
    match s {
        OtaImageState::New => 0,
        OtaImageState::PendingVerify => 1,
        OtaImageState::Valid => 2,
        OtaImageState::Invalid => 3,
        OtaImageState::Aborted => 4,
        OtaImageState::Undefined => 0xffff_ffff,
    }
}

/// The word an `otadata` record stores for `state`.
pub fn ota_state_code(state: OtaImageState) -> (r: u32)
    ensures
        r == state_code(state),
{
    match state {
        OtaImageState::New => 0,
        OtaImageState::PendingVerify => 1,
        OtaImageState::Valid => 2,
        OtaImageState::Invalid => 3,
        OtaImageState::Aborted => 4,
        OtaImageState::Undefined => 0xffff_ffff,
    }
}

/// The subtypes an app partition can have.
#[derive(Clone, Copy, Debug, PartialEq, Eq, Structural)]
pub enum AppPartitionSubType {
    Factory,
    /// `ota_0` to `ota_15`.
    Ota(u8),
    Test,
}

/// The slot an app partition subtype stands for, if it is one of the two
/// this layout has.
pub open spec fn slot_of(subtype: AppPartitionSubType) -> Option<Slot> {
    match subtype {
        AppPartitionSubType::Ota(0) => Some(Slot::Ota0),
        AppPartitionSubType::Factory => Some(Slot::Factory),
        _ => None,
    }
}

/// The slot an app partition subtype stands for.
pub fn slot_from_app(subtype: AppPartitionSubType) -> (r: Option<Slot>)
    ensures
        r == slot_of(subtype),
{
    match subtype {
        AppPartitionSubType::Ota(0) => Some(Slot::Ota0),
        AppPartitionSubType::Factory => Some(Slot::Factory),
        _ => None,
    }
}

/// The little-endian word of four bytes.
pub open spec fn le_word(b0: u8, b1: u8, b2: u8, b3: u8) -> int {
    b0 + 256 * b1 + 65_536 * b2 + 16_777_216 * b3
}

/// The little-endian word stored at `at` in a record.
pub open spec fn word_at(entry: Seq<u8>, at: int) -> int {
    le_word(entry[at], entry[at + 1], entry[at + 2], entry[at + 3])
}

fn read_le_u32(entry: &[u8; 32], at: usize) -> (r: u32)
    requires
        at + 4 <= 32,
    ensures
        r as int == word_at(entry@, at as int),
{
    let b0 = entry[at];
    let b1 = entry[at + 1];
    let b2 = entry[at + 2];
    let b3 = entry[at + 3];
    let r: u32 = (b0 as u32) | ((b1 as u32) << 8u32) | ((b2 as u32) << 16u32) | ((b3 as u32) << 24u32);
    assert(r == b0 + 256 * b1 + 65_536 * b2 + 16_777_216 * b3) by (bit_vector)
        requires
            r == (b0 as u32) | ((b1 as u32) << 8u32) | ((b2 as u32) << 16u32) | ((b3 as u32) << 24u32),
    ;
    r
}

fn write_le_u32(entry: &mut [u8; 32], at: usize, v: u32)
    requires
        at + 4 <= 32,
    ensures
        word_at(final(entry)@, at as int) == v,
        forall|i: int| 0 <= i < 32 && !(at <= i < at + 4) ==> final(entry)@[i] == old(entry)@[i],
{
    let b0: u8 = (v & 0xff) as u8;
    let b1: u8 = ((v >> 8u32) & 0xff) as u8;
    let b2: u8 = ((v >> 16u32) & 0xff) as u8;
    let b3: u8 = ((v >> 24u32) & 0xff) as u8;
    assert(b0 + 256 * b1 + 65_536 * b2 + 16_777_216 * b3 == v) by (bit_vector)
        requires
            b0 == (v & 0xff) as u8,
            b1 == ((v >> 8u32) & 0xff) as u8,
            b2 == ((v >> 16u32) & 0xff) as u8,
            b3 == ((v >> 24u32) & 0xff) as u8,
    ;
    entry[at] = b0;
    entry[at + 1] = b1;
    entry[at + 2] = b2;
    entry[at + 3] = b3;
}

/// The sequence number a record holds.
pub open spec fn record_sequence(entry: Seq<u8>) -> int {
    word_at(entry, 0)
}

/// The check word a record holds.
pub open spec fn record_crc(entry: Seq<u8>) -> int {
    word_at(entry, 28)
}

/// The state word a record holds.
pub open spec fn record_state(entry: Seq<u8>) -> int {
    word_at(entry, 24)
}

/// The sequence number of a record whose check word is `crc` for it, unless
/// the record is erased (all ones).
pub open spec fn valid_sequence(entry: Seq<u8>, crc_of_sequence: u32) -> Option<u32> {
    if record_sequence(entry) == u32::MAX as int || record_crc(entry) != crc_of_sequence {
        None
    } else {
        Some(record_sequence(entry) as u32)
    }
}

/// The sequence number stored in a record, whatever its check word.
pub fn entry_sequence(entry: &[u8; 32]) -> (r: u32)
    ensures
        r as int == record_sequence(entry@),
{
    read_le_u32(entry, 0)
}

/// The record's sequence number, when the record is live and its check word
/// equals `crc_of_sequence`, the check word of that sequence number.
pub fn valid_ota_sequence(entry: &[u8; 32], crc_of_sequence: u32) -> (r: Option<u32>)
    ensures
        r == valid_sequence(entry@, crc_of_sequence),
{
    let sequence = read_le_u32(entry, 0);
    if sequence == u32::MAX || read_le_u32(entry, 28) != crc_of_sequence {
        return None;
    }
    Some(sequence)
}

/// Where a new selection goes and which sequence number it carries.
#[derive(Clone, Copy, Debug, PartialEq, Eq, Structural)]
pub struct SelectionPlan {
    pub sequence: u32,
    /// `0` or `1`: the sector that is rewritten.
    pub target_sector: u32,
}

/// The largest valid sequence number, zero when neither record is valid.
pub open spec fn max_sequence(seq0: Option<u32>, seq1: Option<u32>) -> int {
    match (seq0, seq1) {
        (Some(a), Some(b)) => if a >= b { a as int } else { b as int },
        (Some(v), None) => v as int,
        (None, Some(v)) => v as int,
        (None, None) => 0,
    }
}

/// The plan: one above the largest valid sequence (saturating, and at least
/// one), written over an invalid record, or over the older of two valid ones
/// (the first on a tie).
pub open spec fn selection_plan(seq0: Option<u32>, seq1: Option<u32>) -> SelectionPlan {
    let m = max_sequence(seq0, seq1);
    SelectionPlan {
        sequence: (if m >= u32::MAX { u32::MAX as int } else { m + 1 }) as u32,
        target_sector: match (seq0, seq1) {
            (None, _) => 0,
            (_, None) => 1,
            (Some(a), Some(b)) => if a <= b { 0 } else { 1 },
        },
    }
}

/// Plans a selection from the sequence numbers of the two records.
pub fn plan_selection(seq0: Option<u32>, seq1: Option<u32>) -> (r: SelectionPlan)
    ensures
        r == selection_plan(seq0, seq1),
{
    let maximum = match (seq0, seq1) {
        (Some(a), Some(b)) => if a >= b {
            a
        } else {
            b
        },
        (Some(value), None) => value,
        (None, Some(value)) => value,
        (None, None) => 0,
    };
    let bumped = maximum.saturating_add(1);
    let sequence = if bumped < 1 {
        1
    } else {
        bumped
    };
    let target_sector: u32 = match (seq0, seq1) {
        (None, _) => 0,
        (_, None) => 1,
        (Some(a), Some(b)) => if a <= b {
            0
        } else {
            1
        },
    };
    SelectionPlan { sequence, target_sector }
}

/// Plans writing `target` as the selected slot. Only `ota_0` can be
/// selected this way; any other target is a layout error.
pub fn plan_write_selection(target: Slot, seq0: Option<u32>, seq1: Option<u32>) -> (r: Result<
    SelectionPlan,
    UpdateError,
>)
    ensures
        target != Slot::Ota0 ==> r == Err::<SelectionPlan, UpdateError>(UpdateError::Layout),
        target == Slot::Ota0 ==> r == Ok::<SelectionPlan, UpdateError>(selection_plan(seq0, seq1)),
{
    match target {
        Slot::Ota0 => Ok(plan_selection(seq0, seq1)),
        Slot::Factory => Err(UpdateError::Layout),
    }
}

/// A record: erased (all ones) but for the sequence number in bytes `0..4`,
/// the state in `24..28` and the check word in `28..32`.
pub open spec fn is_record(entry: Seq<u8>, sequence: u32, state: OtaImageState, crc: u32) -> bool {
    &&& entry.len() == 32
    &&& record_sequence(entry) == sequence
    &&& record_state(entry) == state_code(state)
    &&& record_crc(entry) == crc
    &&& forall|i: int| 4 <= i < 24 ==> entry[i] == 0xff
}

/// Builds the record for `sequence` and `state`, with `crc` the check word
/// of `sequence`.
pub fn ota_entry(sequence: u32, state: OtaImageState, crc: u32) -> (r: [u8; 32])
    ensures
        is_record(r@, sequence, state, crc),
{
    let mut entry = [0xffu8; 32];
    write_le_u32(&mut entry, 0, sequence);
    let code = ota_state_code(state);
    write_le_u32(&mut entry, 24, code);
    write_le_u32(&mut entry, 28, crc);
    entry
}

/// A record written for a live sequence number reads back as that sequence
/// number when checked against the same check word.
pub proof fn lemma_record_reads_back(entry: Seq<u8>, sequence: u32, state: OtaImageState, crc: u32)
    requires
        is_record(entry, sequence, state, crc),
        sequence != u32::MAX,
    ensures
        valid_sequence(entry, crc) == Some(sequence),
{
}

/// A new selection never overwrites the newest valid record, and its
/// sequence number is above every valid one unless that one is already the
/// largest possible.
pub proof fn lemma_selection_keeps_newest(seq0: Option<u32>, seq1: Option<u32>)
    ensures
        ({
            let plan = selection_plan(seq0, seq1);
            &&& plan.target_sector == 0 || plan.target_sector == 1
            &&& plan.sequence >= 1
            &&& (seq0 is Some && seq1 is Some && seq0->0 != seq1->0) ==> (if plan.target_sector == 0 {
                seq0->0 < seq1->0
            } else {
                seq1->0 < seq0->0
            })
            &&& seq0 is None ==> plan.target_sector == 0
            &&& (seq0 is Some && seq1 is None) ==> plan.target_sector == 1
            &&& (seq0 is Some && seq0->0 < u32::MAX) ==> plan.sequence > seq0->0
            &&& (seq1 is Some && seq1->0 < u32::MAX) ==> plan.sequence > seq1->0
        }),
{
}

/// What confirming a pending image comes to, given what the records say.
#[derive(Clone, Copy, Debug, PartialEq, Eq, Structural)]
pub enum ConfirmStep {
    /// The image is not pending verification: nothing to confirm.
    NotPending,
    /// Mark the selected image valid.
    MarkValid(Slot),
    /// Pending, but no slot is selected.
    Fail(UpdateError),
}

/// The confirmation step for the selected slot and recorded state.
pub open spec fn confirm_spec(selected: Option<Slot>, state: Option<OtaImageState>) -> ConfirmStep {
    if state != Some(OtaImageState::PendingVerify) {
        ConfirmStep::NotPending
    } else {
        match selected {
            Some(slot) => ConfirmStep::MarkValid(slot),
            None => ConfirmStep::Fail(UpdateError::Metadata),
        }
    }
}

/// Decides how a pending image is confirmed.
pub fn confirm_step(selected: Option<Slot>, state: Option<OtaImageState>) -> (r: ConfirmStep)
    ensures
        r == confirm_spec(selected, state),
{
    match state {
        Some(OtaImageState::PendingVerify) => match selected {
            Some(slot) => ConfirmStep::MarkValid(slot),
            None => ConfirmStep::Fail(UpdateError::Metadata),
        },
        _ => ConfirmStep::NotPending,
    }
}

/// After writing a selection, the read-back must show the target selected
/// in the written state.
pub fn check_selection_written(
    target: Slot,
    state: OtaImageState,
    selected: Option<Slot>,
    selected_state: Option<OtaImageState>,
) -> (r: Result<(), UpdateError>)
    ensures
        r is Ok <==> (selected == Some(target) && selected_state == Some(state)),
        r is Err ==> r == Err::<(), UpdateError>(UpdateError::Metadata),
{
    let same_slot = match selected {
        Some(s) => s == target,
        None => false,
    };
    let same_state = match selected_state {
        Some(s) => s == state,
        None => false,
    };
    if !same_slot || !same_state {
        return Err(UpdateError::Metadata);
    }
    Ok(())
}

/// Whether the update transport has asked the rest of the firmware to keep
/// the serial line quiet.
#[derive(Clone, Copy, Debug, PartialEq, Eq, Structural)]
pub struct TransportGate {
    pub quiet: bool,
}

impl TransportGate {
    /// A gate that is not quiet.
    pub fn new() -> (r: Self)
        ensures
            !r.quiet,
    {
        TransportGate { quiet: false }
    }

    /// Whether the transport is quiet.
    pub fn transport_quiet(&self) -> (r: bool)
        ensures
            r == self.quiet,
    {
        self.quiet
    }

    /// Ends the transport: the line is no longer quiet.
    pub fn end_transport(&mut self)
        ensures
            !final(self).quiet,
    {
        self.quiet = false;
    }
}


/// Where `otadata` starts in flash.
pub const OTA_DATA_OFFSET: u32 = 0xf000;
/// The size of one `otadata` record sector.
pub const OTA_DATA_SECTOR_SIZE: u32 = 0x1000;
/// Where the factory (updater) partition starts, and its size.
pub const SINGLE_PRODUCTION_FACTORY_OFFSET: u32 = 0x20000;
pub const SINGLE_PRODUCTION_FACTORY_SIZE: u32 = 0x60000;
/// Where the production partition `ota_0` starts, and its size.
pub const SINGLE_PRODUCTION_OTA_0_OFFSET: u32 = 0x80000;
pub const SINGLE_PRODUCTION_OTA_0_SIZE: u32 = 0x380000;

/// One row of the partition table, as the layout check reads it.
#[derive(Clone, Copy, Debug)]
pub struct PartitionRow<'a> {
    pub label: &'a str,
    pub offset: u32,
    pub len: u32,
}

/// The first row from `from` on whose label has the bytes `label`.
pub open spec fn first_labelled(rows: Seq<PartitionRow>, label: Seq<u8>, from: int) -> Option<int>
    decreases rows.len() - from,
{
    if from < 0 || from >= rows.len() {
        None
    } else if rows[from].label.spec_bytes() == label {
        Some(from)
    } else {
        first_labelled(rows, label, from + 1)
    }
}

/// The first row labelled `label` exists and has this offset and length.
pub open spec fn row_matches(rows: Seq<PartitionRow>, label: Seq<u8>, offset: u32, len: u32) -> bool {
    match first_labelled(rows, label, 0) {
        Some(k) => rows[k].offset == offset && rows[k].len == len,
        None => false,
    }
}

/// The single-production layout, the only accepted shape: `otadata`,
/// `app_state`, `factory` and `ota_0` where and as large as it puts them.
pub open spec fn layout_valid(rows: Seq<PartitionRow>) -> bool {
    &&& row_matches(rows, "otadata".spec_bytes(), OTA_DATA_OFFSET, 0x2000)
    &&& row_matches(rows, "app_state".spec_bytes(), 0x12000, 0x2000)
    &&& row_matches(rows, "factory".spec_bytes(), SINGLE_PRODUCTION_FACTORY_OFFSET, SINGLE_PRODUCTION_FACTORY_SIZE)
    &&& row_matches(rows, "ota_0".spec_bytes(), SINGLE_PRODUCTION_OTA_0_OFFSET, SINGLE_PRODUCTION_OTA_0_SIZE)
}

fn same_bytes(a: &[u8], b: &[u8]) -> (r: bool)
    ensures
        r == (a@ == b@),
{
    if a.len() != b.len() {
        return false;
    }
    let mut i: usize = 0;
    while i < a.len()
        invariant
            a.len() == b.len(),
            i <= a.len(),
            forall|j: int| 0 <= j < i ==> a@[j] == b@[j],
        decreases a.len() - i,
    {
        if a[i] != b[i] {
            return false;
        }
        i = i + 1;
    }
    assert(a@ =~= b@);
    true
}

fn check_row(rows: &[PartitionRow], label: &str, offset: u32, len: u32) -> (r: bool)
    ensures
        r == row_matches(rows@, label.spec_bytes(), offset, len),
{
    let wanted = label.as_bytes();
    let mut i: usize = 0;
    while i < rows.len()
        invariant
            i <= rows.len(),
            wanted@ == label.spec_bytes(),
            first_labelled(rows@, label.spec_bytes(), 0) == first_labelled(rows@, label.spec_bytes(), i as int),
        decreases rows.len() - i,
    {
        let row = rows[i];
        if same_bytes(row.label.as_bytes(), wanted) {
            return row.offset == offset && row.len == len;
        }
        i = i + 1;
    }
    false
}

/// Checks the partition table against the single-production layout.
pub fn check_layout(rows: &[PartitionRow]) -> (r: Result<(), UpdateError>)
    ensures
        r is Ok <==> layout_valid(rows@),
        r is Err ==> r == Err::<(), UpdateError>(UpdateError::Layout),
{
    if check_row(rows, "otadata", OTA_DATA_OFFSET, 0x2000) && check_row(rows, "app_state", 0x12000, 0x2000)
        && check_row(rows, "factory", SINGLE_PRODUCTION_FACTORY_OFFSET, SINGLE_PRODUCTION_FACTORY_SIZE)
        && check_row(rows, "ota_0", SINGLE_PRODUCTION_OTA_0_OFFSET, SINGLE_PRODUCTION_OTA_0_SIZE) {
        Ok(())
    } else {
        Err(UpdateError::Layout)
    }
}

/// On a first boot, when no record selects a slot, the booted slot is
/// selected and marked valid; otherwise nothing is written.
pub fn first_boot_selection(booted: Slot, selected: Option<Slot>) -> (r: Option<(Slot, OtaImageState)>)
    ensures
        r == (if selected is None { Some((booted, OtaImageState::Valid)) } else { None::<(Slot, OtaImageState)> }),
{
    match selected {
        None => Some((booted, OtaImageState::Valid)),
        Some(_) => None,
    }
}

/// Selecting the factory partition for the next boot erases both records;
/// it is refused as a layout error when there is no factory partition to
/// fall back to, and as a metadata error when `otadata` is missing.
pub fn factory_boot_check(has_factory: bool, has_ota_data: bool) -> (r: Result<(), UpdateError>)
    ensures
        !has_factory ==> r == Err::<(), UpdateError>(UpdateError::Layout),
        has_factory && !has_ota_data ==> r == Err::<(), UpdateError>(UpdateError::Metadata),
        has_factory && has_ota_data ==> r is Ok,
{
    if !has_factory {
        Err(UpdateError::Layout)
    } else if !has_ota_data {
        Err(UpdateError::Metadata)
    } else {
        Ok(())
    }
}


/// The flash address of the record in `target_sector` (the first or the
/// second sector of `otadata`).
pub fn record_offset(target_sector: u32) -> (r: u32)
    requires
        target_sector <= 1,
    ensures
        r == OTA_DATA_OFFSET + target_sector * OTA_DATA_SECTOR_SIZE,
{
    OTA_DATA_OFFSET + target_sector * OTA_DATA_SECTOR_SIZE
}

} // verus!
