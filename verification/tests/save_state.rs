use hemu_gui::save_state::{GameSaves, SaveStateError, MAX_SAVE_SLOTS};

#[test]
fn test_rom_hash() {
    let rom_data = b"test rom data";
    let hash = GameSaves::rom_hash(rom_data);
    assert_eq!(hash.len(), 64); // SHA256 produces 64 hex characters
    // Hash should be consistent
    assert_eq!(hash, GameSaves::rom_hash(rom_data));
}

#[test]
fn test_save_load_slot() {
    let mut saves = GameSaves::default();
    let test_data = b"test save state data";
    let rom_hash = "test_hash_12345";

    saves
        .save_slot(1, test_data, rom_hash, 1_700_000_000)
        .expect("Failed to save");

    let decoded = saves.load_slot(1, rom_hash).expect("Failed to load slot");

    assert_eq!(decoded, test_data);
    assert!(saves.has_slot(1));
    assert!(!saves.has_slot(2));
}

#[test]
fn test_slot_validation() {
    let saves = GameSaves::default();
    let rom_hash = "test_hash";

    // Test invalid slots
    assert!(saves.load_slot(0, rom_hash).is_err());
    assert!(saves.load_slot(6, rom_hash).is_err());

    // Test valid slot that's empty
    assert!(saves.load_slot(3, rom_hash).is_err());
}

#[test]
fn test_base64_encoding() {
    let mut saves = GameSaves::default();
    let test_data = b"\x00\x01\x02\xFF\xFE\xFD"; // Binary data
    let rom_hash = "test_binary_hash";

    saves.save_slot(2, test_data, rom_hash, 1_700_000_000).unwrap();
    let decoded = saves.load_slot(2, rom_hash).unwrap();

    assert_eq!(decoded, test_data);
}

#[test]
fn test_rom_hash_verification() {
    let mut saves = GameSaves::default();
    let test_data = b"test state data";
    let rom_hash1 = "original_rom_hash";
    let rom_hash2 = "different_rom_hash";

    // Save with one ROM hash
    saves.save_slot(1, test_data, rom_hash1, 1_700_000_000).unwrap();

    // Try to load with different ROM hash - should fail
    let result = saves.load_slot(1, rom_hash2);
    assert!(result.is_err());
    assert!(result.unwrap_err().message().contains("ROM hash mismatch"));

    // Load with correct ROM hash - should succeed
    let result = saves.load_slot(1, rom_hash1);
    assert!(result.is_ok());
    assert_eq!(result.unwrap(), test_data);
}

#[test]
fn rom_hash_of_known_input() {
    // SHA-256 of "abc"
    assert_eq!(
        GameSaves::rom_hash(b"abc"),
        "ba7816bf8f01cfea414140de5dae2223b00361a396177a9cb410ff61f20015ad"
    );
}

#[test]
fn stored_slot_holds_base64_text_and_hash() {
    let mut saves = GameSaves::default();
    saves.save_slot(3, b"Man", "h", 42).unwrap();
    let slot = &saves.slots[&3];
    assert_eq!(slot.data, "TWFu");
    assert_eq!(slot.timestamp, 42);
    assert_eq!(slot.rom_hash.as_deref(), Some("h"));
}

#[test]
fn save_to_invalid_slot_is_refused() {
    let mut saves = GameSaves::default();
    assert!(matches!(saves.save_slot(0, b"x", "h", 1), Err(SaveStateError::InvalidSlot)));
    assert!(matches!(
        saves.save_slot(MAX_SAVE_SLOTS + 1, b"x", "h", 1),
        Err(SaveStateError::InvalidSlot)
    ));
    assert!(saves.slots.is_empty());
}

#[test]
fn error_messages() {
    assert_eq!(SaveStateError::InvalidSlot.message(), "Slot must be between 1 and 5");
    assert_eq!(SaveStateError::EmptySlot(3).message(), "No save data in slot 3");
    assert_eq!(
        SaveStateError::RomHashMismatch.message(),
        "ROM hash mismatch: save state was created with a different ROM"
    );
}

#[test]
fn empty_slot_error_names_the_slot() {
    let saves = GameSaves::default();
    assert!(matches!(saves.load_slot(4, "h"), Err(SaveStateError::EmptySlot(4))));
}

#[test]
fn corrupt_slot_data_is_invalid() {
    let mut saves = GameSaves::default();
    saves.save_slot(1, b"ok", "h", 1).unwrap();
    saves.slots.get_mut(&1).unwrap().data = "***".to_string();
    assert!(matches!(saves.load_slot(1, "h"), Err(SaveStateError::InvalidData(_))));
}

#[test]
fn only_canonical_base64_is_accepted() {
    let mut saves = GameSaves::default();
    saves.save_slot(1, b"A", "h", 1).unwrap();
    assert_eq!(saves.slots.get(&1).unwrap().data, "QQ==");
    assert_eq!(saves.load_slot(1, "h").unwrap(), b"A");
    // Nonzero trailing bits and missing padding are not the encoding of any bytes.
    saves.slots.get_mut(&1).unwrap().data = "QR==".to_string();
    assert!(matches!(saves.load_slot(1, "h"), Err(SaveStateError::InvalidData(_))));
    saves.slots.get_mut(&1).unwrap().data = "QQ".to_string();
    assert!(matches!(saves.load_slot(1, "h"), Err(SaveStateError::InvalidData(_))));
}

#[test]
fn saving_keeps_other_slots() {
    let mut saves = GameSaves::default();
    saves.save_slot(1, b"one", "h", 1).unwrap();
    saves.save_slot(2, b"two", "h", 2).unwrap();
    assert_eq!(saves.load_slot(1, "h").unwrap(), b"one");
    assert_eq!(saves.load_slot(2, "h").unwrap(), b"two");
}

#[test]
fn game_save_path_joins_components() {
    assert_eq!(GameSaves::game_save_path("/opt/emu/saves", "abc"), "/opt/emu/saves/abc/states.json");
    assert_eq!(GameSaves::game_save_path("saves/", "abc"), "saves/abc/states.json");
    assert_eq!(GameSaves::game_save_path("saves", "/abs"), "/abs/states.json");
}

#[test]
fn slot_numbers_validity() {
    assert!(!GameSaves::is_valid_slot(0));
    assert!(GameSaves::is_valid_slot(1));
    assert!(GameSaves::is_valid_slot(5));
    assert!(!GameSaves::is_valid_slot(6));
}

#[test]
fn stored_data_is_padded_base64() {
    let mut saves = GameSaves::default();
    saves.save_slot(1, b"M", "h", 1).unwrap();
    saves.save_slot(2, b"Ma", "h", 1).unwrap();
    saves.save_slot(3, b"\xFB\xFF", "h", 1).unwrap();
    assert_eq!(saves.slots[&1].data, "TQ==");
    assert_eq!(saves.slots[&2].data, "TWE=");
    assert_eq!(saves.slots[&3].data, "+/8=");
}
