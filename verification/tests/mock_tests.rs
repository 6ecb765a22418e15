use anchor_lldb::mock::{
    mock_pda_account, mock_pubkey, mock_signer_account, mock_system_program, MOCK_LAMPORTS,
};
use anchor_lldb::scan::{equals_ignoring_case, hyphens_to_underscores};

#[test]
fn key_is_the_label_filled_up_with_zeros() {
    let mut expected = [0u8; 32];
    expected[..5].copy_from_slice(b"payer");
    assert_eq!(mock_pubkey("payer"), expected);
    assert_eq!(mock_pubkey(""), [0u8; 32]);
    let long = "abcdefghijklmnopqrstuvwxyz0123456789";
    assert_eq!(&mock_pubkey(long)[..], &long.as_bytes()[..32]);
}

#[test]
fn signer_record_signs_and_has_no_payload() {
    let record = mock_signer_account("payer");
    assert_eq!(record.key, mock_pubkey("payer"));
    assert_eq!(record.owner, record.key);
    assert!(record.is_signer);
    assert!(record.is_writable);
    assert!(!record.executable);
    assert_eq!(record.lamports, MOCK_LAMPORTS);
    assert_eq!(record.lamports, 1_000_000);
    assert!(record.data.is_empty());
    assert_eq!(record.rent_epoch, 0);
}

#[test]
fn data_record_opens_with_the_discriminator() {
    let discriminator = [9u8, 8, 7, 6, 5, 4, 3, 2];
    let record = mock_pda_account([1u8; 32], [2u8; 32], discriminator);
    assert_eq!(record.key, [1u8; 32]);
    assert_eq!(record.owner, [2u8; 32]);
    assert_eq!(record.data.len(), 64);
    assert_eq!(&record.data[..8], &discriminator[..]);
    assert!(record.data[8..].iter().all(|b| *b == 0));
    assert!(!record.is_signer);
    assert!(record.is_writable);
    assert!(!record.executable);
    assert_eq!(record.lamports, 1_000_000);
}

#[test]
fn system_program_record_is_executable() {
    let record = mock_system_program([7u8; 32]);
    assert_eq!(record.key, [0u8; 32]);
    assert_eq!(record.owner, [7u8; 32]);
    assert!(record.executable);
    assert!(!record.is_signer);
    assert!(!record.is_writable);
    assert_eq!(record.data, vec![0u8; 10]);
    assert_eq!(record.lamports, 1_000_000);
}

#[test]
fn letter_case_is_ignored_for_ascii_letters_only() {
    assert!(equals_ignoring_case("System_Program", "system_program"));
    assert!(equals_ignoring_case("", ""));
    assert!(!equals_ignoring_case("system-program", "system_program"));
    assert!(!equals_ignoring_case("system_progra", "system_program"));
    assert!(!equals_ignoring_case("\u{c4}", "\u{e4}"));
}

#[test]
fn hyphens_become_underscores() {
    assert_eq!(hyphens_to_underscores("my-program-v2"), "my_program_v2");
    assert_eq!(hyphens_to_underscores("plain"), "plain");
    assert_eq!(hyphens_to_underscores(""), "");
}
