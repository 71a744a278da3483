use meditamer::update::{
    check_layout, check_selection_written, confirm_step, entry_sequence, factory_boot_check, first_boot_selection,
    image_state_label, ota_entry, ota_state_code, plan_selection, plan_write_selection, record_offset, slot_from_app,
    valid_ota_sequence, AppPartitionSubType, ConfirmStep, OtaImageState, PartitionRow, SelectionPlan, Slot,
    TransportGate, UpdateError,
};

#[test]
fn labels_name_slots_errors_and_states() {
    assert_eq!(Slot::Ota0.label(), "ota_0");
    assert_eq!(Slot::Factory.label(), "factory");
    assert_eq!(UpdateError::Layout.label(), "layout");
    assert_eq!(UpdateError::Flash.label(), "flash");
    assert_eq!(UpdateError::Metadata.label(), "metadata");
    assert_eq!(image_state_label(OtaImageState::PendingVerify), "pending_verify");
    assert_eq!(image_state_label(OtaImageState::Undefined), "undefined");
}

#[test]
fn only_ota0_and_factory_are_slots() {
    assert_eq!(slot_from_app(AppPartitionSubType::Ota(0)), Some(Slot::Ota0));
    assert_eq!(slot_from_app(AppPartitionSubType::Factory), Some(Slot::Factory));
    assert_eq!(slot_from_app(AppPartitionSubType::Ota(1)), None);
    assert_eq!(slot_from_app(AppPartitionSubType::Test), None);
}

#[test]
fn record_layout_is_little_endian_sequence_state_and_check_word() {
    let entry = ota_entry(0x0102_0304, OtaImageState::Valid, 0xAABB_CCDD);
    assert_eq!(&entry[0..4], &[0x04, 0x03, 0x02, 0x01]);
    assert!(entry[4..24].iter().all(|b| *b == 0xff));
    assert_eq!(&entry[24..28], &[2, 0, 0, 0]);
    assert_eq!(&entry[28..32], &[0xDD, 0xCC, 0xBB, 0xAA]);
    assert_eq!(ota_state_code(OtaImageState::Undefined), u32::MAX);
}

#[test]
fn a_written_record_reads_back_only_with_its_check_word() {
    let entry = ota_entry(7, OtaImageState::New, 0x1234_5678);
    assert_eq!(entry_sequence(&entry), 7);
    assert_eq!(valid_ota_sequence(&entry, 0x1234_5678), Some(7));
    assert_eq!(valid_ota_sequence(&entry, 0x1234_5679), None);
    let erased = [0xffu8; 32];
    assert_eq!(valid_ota_sequence(&erased, u32::MAX), None);
}

#[test]
fn selection_goes_past_the_newest_record_into_the_other_sector() {
    assert_eq!(plan_selection(None, None), SelectionPlan { sequence: 1, target_sector: 0 });
    assert_eq!(plan_selection(Some(4), None), SelectionPlan { sequence: 5, target_sector: 1 });
    assert_eq!(plan_selection(None, Some(9)), SelectionPlan { sequence: 10, target_sector: 0 });
    assert_eq!(plan_selection(Some(3), Some(8)), SelectionPlan { sequence: 9, target_sector: 0 });
    assert_eq!(plan_selection(Some(8), Some(3)), SelectionPlan { sequence: 9, target_sector: 1 });
    assert_eq!(plan_selection(Some(5), Some(5)), SelectionPlan { sequence: 6, target_sector: 0 });
    assert_eq!(plan_selection(Some(u32::MAX - 1), None).sequence, u32::MAX);
}

#[test]
fn only_ota0_can_be_written_as_the_selection() {
    assert_eq!(plan_write_selection(Slot::Factory, None, None), Err(UpdateError::Layout));
    assert_eq!(plan_write_selection(Slot::Ota0, Some(2), None), Ok(SelectionPlan { sequence: 3, target_sector: 1 }));
}

#[test]
fn confirming_requires_a_pending_image_and_a_selected_slot() {
    assert_eq!(confirm_step(Some(Slot::Ota0), Some(OtaImageState::Valid)), ConfirmStep::NotPending);
    assert_eq!(confirm_step(Some(Slot::Ota0), None), ConfirmStep::NotPending);
    assert_eq!(
        confirm_step(Some(Slot::Ota0), Some(OtaImageState::PendingVerify)),
        ConfirmStep::MarkValid(Slot::Ota0)
    );
    assert_eq!(confirm_step(None, Some(OtaImageState::PendingVerify)), ConfirmStep::Fail(UpdateError::Metadata));
}

#[test]
fn written_selection_must_read_back_exactly() {
    assert_eq!(
        check_selection_written(Slot::Ota0, OtaImageState::Valid, Some(Slot::Ota0), Some(OtaImageState::Valid)),
        Ok(())
    );
    assert_eq!(
        check_selection_written(Slot::Ota0, OtaImageState::Valid, Some(Slot::Ota0), Some(OtaImageState::New)),
        Err(UpdateError::Metadata)
    );
    assert_eq!(
        check_selection_written(Slot::Ota0, OtaImageState::Valid, None, Some(OtaImageState::Valid)),
        Err(UpdateError::Metadata)
    );
}

#[test]
fn ending_the_transport_lifts_quiet() {
    let mut gate = TransportGate { quiet: true };
    assert!(gate.transport_quiet());
    gate.end_transport();
    assert!(!gate.transport_quiet());
    assert!(!TransportGate::new().transport_quiet());
}

fn production_rows() -> Vec<PartitionRow<'static>> {
    vec![
        PartitionRow { label: "nvs", offset: 0x9000, len: 0x6000 },
        PartitionRow { label: "otadata", offset: 0xf000, len: 0x2000 },
        PartitionRow { label: "app_state", offset: 0x12000, len: 0x2000 },
        PartitionRow { label: "factory", offset: 0x20000, len: 0x60000 },
        PartitionRow { label: "ota_0", offset: 0x80000, len: 0x380000 },
    ]
}

#[test]
fn the_single_production_layout_is_accepted() {
    assert_eq!(check_layout(&production_rows()), Ok(()));
}

#[test]
fn a_moved_missing_or_shadowed_partition_is_a_layout_error() {
    let mut moved = production_rows();
    moved[4].offset = 0x90000;
    assert_eq!(check_layout(&moved), Err(UpdateError::Layout));
    let mut missing = production_rows();
    missing.remove(2);
    assert_eq!(check_layout(&missing), Err(UpdateError::Layout));
    // The first row with a label decides, as a table lookup would.
    let mut shadowed = production_rows();
    shadowed.insert(0, PartitionRow { label: "factory", offset: 0x20000, len: 0x10000 });
    assert_eq!(check_layout(&shadowed), Err(UpdateError::Layout));
    let old_ab = vec![
        PartitionRow { label: "otadata", offset: 0xf000, len: 0x2000 },
        PartitionRow { label: "ota_0", offset: 0x20000, len: 0x1e0000 },
        PartitionRow { label: "ota_1", offset: 0x200000, len: 0x1e0000 },
    ];
    assert_eq!(check_layout(&old_ab), Err(UpdateError::Layout));
}

#[test]
fn first_boot_selects_the_booted_slot_as_valid() {
    assert_eq!(first_boot_selection(Slot::Ota0, None), Some((Slot::Ota0, OtaImageState::Valid)));
    assert_eq!(first_boot_selection(Slot::Ota0, Some(Slot::Ota0)), None);
}

#[test]
fn factory_boot_needs_a_factory_partition_and_otadata() {
    assert_eq!(factory_boot_check(false, true), Err(UpdateError::Layout));
    assert_eq!(factory_boot_check(true, false), Err(UpdateError::Metadata));
    assert_eq!(factory_boot_check(true, true), Ok(()));
}

#[test]
fn records_alternate_between_the_two_otadata_sectors() {
    assert_eq!(record_offset(0), 0xf000);
    assert_eq!(record_offset(1), 0x10000);
}
