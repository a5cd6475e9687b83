use agentmail::accounts::AccountView;
use agentmail::address::Address;
use agentmail::errors::{AgentMailProgramError, ProgramError};
use agentmail::pda::{find_registry_address, registry_address};
use agentmail::state::AgentRegistry;

fn create_test_registry() -> AgentRegistry {
    let authority = Address::new_from_array([1u8; 32]);
    AgentRegistry::new(
        255,
        authority,
        "nix",
        "https://nix.example.com/inbox",
        1707523200,
    )
    .unwrap()
}

#[test]
fn test_agent_registry_new() {
    let authority = Address::new_from_array([1u8; 32]);
    let registry = AgentRegistry::new(
        200,
        authority,
        "test-agent",
        "https://test.example.com/inbox",
        1707523200,
    )
    .unwrap();

    assert_eq!(registry.bump, 200);
    assert_eq!(registry.version, 1);
    assert_eq!(registry.authority, authority);
    assert_eq!(registry.created_at, 1707523200);
    assert_eq!(registry.updated_at, 1707523200);
    assert_eq!(registry.get_name().unwrap(), "test-agent".to_string());
    assert_eq!(registry.get_inbox_url().unwrap(), "https://test.example.com/inbox".to_string());
}

#[test]
fn test_agent_registry_validate_authority_success() {
    let registry = create_test_registry();
    let valid_authority = Address::new_from_array([1u8; 32]);

    assert!(registry.validate_authority(&valid_authority).is_ok());
}

#[test]
fn test_agent_registry_validate_authority_invalid() {
    let registry = create_test_registry();
    let invalid_authority = Address::new_from_array([99u8; 32]);

    let result = registry.validate_authority(&invalid_authority);
    assert_eq!(result, Err(AgentMailProgramError::InvalidAuthority.into()));
}

#[test]
fn test_agent_registry_name_too_long() {
    let authority = Address::new_from_array([1u8; 32]);
    let long_name = "a".repeat(65);

    let result = AgentRegistry::new(
        200,
        authority,
        &long_name,
        "https://test.example.com/inbox",
        1707523200,
    );

    assert_eq!(result.unwrap_err(), AgentMailProgramError::NameTooLong.into());
}

#[test]
fn test_agent_registry_inbox_url_too_long() {
    let authority = Address::new_from_array([1u8; 32]);
    let long_url = "https://".to_string() + &"a".repeat(250);

    let result = AgentRegistry::new(200, authority, "test", &long_url, 1707523200);

    assert_eq!(result.unwrap_err(), AgentMailProgramError::InboxUrlTooLong.into());
}

#[test]
fn test_agent_registry_update_fields() {
    let mut registry = create_test_registry();
    let original_updated_at = registry.updated_at;

    registry.set_name("new-name").unwrap();
    assert_eq!(registry.get_name().unwrap(), "new-name".to_string());

    registry.set_inbox_url("https://new.example.com/inbox").unwrap();
    assert_eq!(registry.get_inbox_url().unwrap(), "https://new.example.com/inbox".to_string());

    registry.touch(1707523300);
    assert_eq!(registry.updated_at, 1707523300);
    assert!(registry.updated_at > original_updated_at);
}

#[test]
fn test_agent_registry_serialization() {
    let registry = create_test_registry();
    let bytes = registry.to_bytes_inner();

    assert_eq!(bytes.len(), AgentRegistry::DATA_LEN);
    assert_eq!(bytes[0], 255);
    assert_eq!(bytes[1], 1);
    assert_eq!(&bytes[2..8], &[0u8; 6]);
    assert_eq!(&bytes[8..40], &[1u8; 32]);
}

#[test]
fn test_agent_registry_to_bytes() {
    let registry = create_test_registry();
    let bytes = registry.to_bytes();

    assert_eq!(bytes.len(), AgentRegistry::LEN);
    assert_eq!(bytes[0], AgentRegistry::DISCRIMINATOR);
    assert_eq!(bytes[1], AgentRegistry::VERSION);
    assert_eq!(bytes[2], 255);
}

#[test]
fn test_agent_registry_from_bytes() {
    let registry = create_test_registry();
    let bytes = registry.to_bytes();

    let deserialized = AgentRegistry::from_bytes(&bytes).unwrap();

    assert_eq!(deserialized.bump, registry.bump);
    assert_eq!(deserialized.version, registry.version);
    assert_eq!(deserialized.authority, registry.authority);
    assert_eq!(deserialized.created_at, registry.created_at);
    assert_eq!(deserialized.updated_at, registry.updated_at);
    assert_eq!(deserialized.get_name().unwrap(), registry.get_name().unwrap());
    assert_eq!(deserialized.get_inbox_url().unwrap(), registry.get_inbox_url().unwrap());
}

#[test]
fn test_agent_registry_seeds() {
    let registry = create_test_registry();
    let seeds = registry.seeds();

    assert_eq!(seeds.len(), 2);
    assert_eq!(seeds[0], AgentRegistry::PREFIX);
    assert_eq!(seeds[1], registry.authority.as_ref());
}

#[test]
fn record_layout_has_every_field_in_place() {
    let registry = AgentRegistry::new(
        7,
        Address::new_from_array([9u8; 32]),
        "ab",
        "xyz",
        -2,
    )
    .unwrap();
    let bytes = registry.to_bytes_inner();
    assert_eq!(bytes.len(), 384);
    assert_eq!(&bytes[40..44], &[2, 0, 0, 0]);
    assert_eq!(&bytes[44..46], b"ab");
    assert!(bytes[46..108].iter().all(|b| *b == 0));
    assert_eq!(&bytes[108..112], &[3, 0, 0, 0]);
    assert_eq!(&bytes[112..115], b"xyz");
    assert!(bytes[115..368].iter().all(|b| *b == 0));
    assert_eq!(&bytes[368..376], &(-2i64).to_le_bytes());
    assert_eq!(&bytes[376..384], &(-2i64).to_le_bytes());
}

#[test]
fn record_round_trips_through_bytes() {
    let mut registry = AgentRegistry::new(
        3,
        Address::new_from_array([4u8; 32]),
        "ünïcödé",
        "https://example.com/ü",
        i64::MIN,
    )
    .unwrap();
    registry.touch(i64::MAX);
    let decoded = AgentRegistry::from_bytes_inner(&registry.to_bytes_inner()).unwrap();
    assert_eq!(decoded.bump, 3);
    assert_eq!(decoded.version, 1);
    assert_eq!(decoded.authority, registry.authority);
    assert_eq!(decoded.name, "ünïcödé");
    assert_eq!(decoded.inbox_url, "https://example.com/ü");
    assert_eq!(decoded.created_at, i64::MIN);
    assert_eq!(decoded.updated_at, i64::MAX);
}

#[test]
fn shorter_name_leaves_no_stale_bytes() {
    let mut registry = create_test_registry();
    registry.set_name("a-much-longer-name").unwrap();
    registry.set_name("ab").unwrap();
    let bytes = registry.to_bytes_inner();
    assert_eq!(&bytes[40..46], &[2, 0, 0, 0, b'a', b'b']);
    assert!(bytes[46..108].iter().all(|b| *b == 0));
}

#[test]
fn set_name_too_long_keeps_record() {
    let mut registry = create_test_registry();
    let result = registry.set_name(&"n".repeat(65));
    assert_eq!(result, Err(ProgramError::Custom(101)));
    assert_eq!(registry.get_name().unwrap(), "nix");
}

#[test]
fn set_inbox_url_too_long_keeps_record() {
    let mut registry = create_test_registry();
    let result = registry.set_inbox_url(&"u".repeat(257));
    assert_eq!(result, Err(ProgramError::Custom(102)));
    assert_eq!(registry.get_inbox_url().unwrap(), "https://nix.example.com/inbox");
}

#[test]
fn boundary_lengths_are_accepted() {
    let mut registry = create_test_registry();
    assert!(registry.set_name(&"n".repeat(64)).is_ok());
    assert!(registry.set_inbox_url(&"u".repeat(256)).is_ok());
    let decoded = AgentRegistry::from_bytes_inner(&registry.to_bytes_inner()).unwrap();
    assert_eq!(decoded.name, "n".repeat(64));
    assert_eq!(decoded.inbox_url, "u".repeat(256));
    // Multi-byte characters count by their bytes: 32 two-byte characters fit, 33 do not.
    assert!(registry.set_name(&"é".repeat(32)).is_ok());
    assert_eq!(registry.set_name(&"é".repeat(33)), Err(ProgramError::Custom(101)));
}

#[test]
fn decode_rejects_wrong_size() {
    let bytes = create_test_registry().to_bytes_inner();
    assert_eq!(
        AgentRegistry::from_bytes_inner(&bytes[..383]).unwrap_err(),
        AgentMailProgramError::InvalidAccountSize.into()
    );
    let mut longer = bytes.clone();
    longer.push(0);
    assert_eq!(
        AgentRegistry::from_bytes_inner(&longer).unwrap_err(),
        ProgramError::Custom(108)
    );
}

#[test]
fn decode_rejects_oversized_length_prefixes() {
    let mut bytes = create_test_registry().to_bytes_inner();
    bytes[40..44].copy_from_slice(&65u32.to_le_bytes());
    assert_eq!(
        AgentRegistry::from_bytes_inner(&bytes).unwrap_err(),
        AgentMailProgramError::InvalidNameLength.into()
    );
    let mut bytes = create_test_registry().to_bytes_inner();
    bytes[108..112].copy_from_slice(&257u32.to_le_bytes());
    assert_eq!(
        AgentRegistry::from_bytes_inner(&bytes).unwrap_err(),
        AgentMailProgramError::InvalidInboxUrlLength.into()
    );
    let mut bytes = create_test_registry().to_bytes_inner();
    bytes[40..44].copy_from_slice(&u32::MAX.to_le_bytes());
    assert_eq!(AgentRegistry::from_bytes_inner(&bytes).unwrap_err(), ProgramError::Custom(103));
}

#[test]
fn decode_rejects_invalid_utf8_name() {
    let mut bytes = create_test_registry().to_bytes_inner();
    bytes[40..44].copy_from_slice(&4u32.to_le_bytes());
    bytes[44..48].copy_from_slice(&[0xFF, 0xFE, 0xFD, 0xFC]);
    assert_eq!(
        AgentRegistry::from_bytes_inner(&bytes).unwrap_err(),
        AgentMailProgramError::InvalidUtf8.into()
    );
}

#[test]
fn zeroed_storage_is_not_a_record() {
    let zeroed = vec![0u8; 384];
    assert_eq!(AgentRegistry::from_bytes_inner(&zeroed).unwrap_err(), ProgramError::InvalidAccountData);
    let zeroed = vec![0u8; 386];
    assert!(AgentRegistry::from_bytes(&zeroed).is_err());
}

#[test]
fn envelope_rejects_wrong_header() {
    let mut bytes = create_test_registry().to_bytes();
    bytes[0] = 0;
    assert_eq!(AgentRegistry::from_bytes(&bytes).unwrap_err(), ProgramError::InvalidAccountData);
    let bytes = create_test_registry().to_bytes();
    assert_eq!(
        AgentRegistry::from_bytes(&bytes[..385]).unwrap_err(),
        AgentMailProgramError::InvalidAccountSize.into()
    );
}

#[test]
fn from_account_checks_the_derived_address() {
    let program_id = Address::program_id();
    let authority = Address::new_from_array([1u8; 32]);
    let (at, bump) = find_registry_address(&authority, &program_id).unwrap();
    let registry = AgentRegistry::new(bump, authority, "nix", "https://nix.example.com/inbox", 5).unwrap();
    let bytes = registry.to_bytes_inner();
    let good = AccountView::new(at, program_id, 1, bytes.clone(), false, true);
    let loaded = AgentRegistry::from_account(&bytes, &good, &program_id).unwrap();
    assert_eq!(loaded.authority, registry.authority);
    assert_eq!(loaded.bump, bump);

    let elsewhere = Address::new_from_array([3u8; 32]);
    let bad = AccountView::new(elsewhere, program_id, 1, bytes.clone(), false, true);
    assert_eq!(
        AgentRegistry::from_account(&bytes, &bad, &program_id).unwrap_err(),
        ProgramError::InvalidSeeds
    );
}

#[test]
fn find_gives_the_largest_bump_with_an_address() {
    let program_id = Address::program_id();
    for k in 0u8..8 {
        let key = Address::new_from_array([k; 32]);
        let (at, bump) = find_registry_address(&key, &program_id).unwrap();
        assert!(bump >= 1);
        assert_eq!(registry_address(&key, bump, &program_id), Some(at));
        for higher in (bump as u16 + 1)..=255 {
            assert_eq!(registry_address(&key, higher as u8, &program_id), None);
        }
        assert_ne!(at, key);
    }
}

#[test]
fn derived_addresses_differ_by_key() {
    let program_id = Address::program_id();
    let a = Address::new_from_array([1u8; 32]);
    let b = Address::new_from_array([2u8; 32]);
    let (pa, _) = find_registry_address(&a, &program_id).unwrap();
    let (pb, _) = find_registry_address(&b, &program_id).unwrap();
    assert_ne!(pa, pb);
    assert_eq!(find_registry_address(&a, &program_id).unwrap().0, pa);
    let other_program = Address::new_from_array([200u8; 32]);
    assert_ne!(find_registry_address(&a, &other_program).unwrap().0, pa);
}
