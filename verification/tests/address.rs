use anchor_lang::prelude::Pubkey;
use milestone_escrow::address::{find_escrow_address, signer_seeds_for};
use milestone_escrow::{CustodyAccount, Identity, InitializeEscrow};

fn program() -> Identity {
    Identity::new([7; 32])
}

fn derived(gig: &str) -> (Pubkey, u8) {
    Pubkey::find_program_address(&[b"escrow", gig.as_bytes()], &Pubkey::new_from_array([7; 32]))
}

#[test]
fn default_identity_is_the_zero_key() {
    assert_eq!(Identity::default().bytes, [0u8; 32]);
    assert_eq!(Identity::default().bytes, Pubkey::default().to_bytes());
    assert_eq!(Identity::default(), Identity::new([0; 32]));
}

#[test]
fn identities_are_equal_when_their_bytes_are() {
    let mut bytes = [5u8; 32];
    assert_eq!(Identity::new(bytes), Identity::new([5; 32]));
    bytes[31] = 6;
    assert_ne!(Identity::new(bytes), Identity::new([5; 32]));
    bytes[31] = 5;
    bytes[0] = 4;
    assert_ne!(Identity::new(bytes), Identity::new([5; 32]));
    assert!(Identity::new([0; 32]) == Identity::default());
    assert!(Identity::new([1; 32]) != Identity::default());
}

#[test]
fn escrow_address_is_the_program_derived_address() {
    for gig in ["gig-7", "", "a", "0123456789abcdef0123456789abcdef", "gïg"] {
        let (address, bump) = find_escrow_address(&program(), gig).unwrap();
        let (expected, expected_bump) = derived(gig);
        assert_eq!(address.bytes, expected.to_bytes());
        assert_eq!(bump, expected_bump);
        assert_ne!(address, program());
    }
}

#[test]
fn escrow_address_depends_on_gig_and_program() {
    let first = find_escrow_address(&program(), "gig-7").unwrap();
    let again = find_escrow_address(&program(), "gig-7").unwrap();
    assert_eq!(first, again);
    let other_gig = find_escrow_address(&program(), "gig-8").unwrap();
    assert_ne!(first.0, other_gig.0);
    let other_program = find_escrow_address(&Identity::new([8; 32]), "gig-7").unwrap();
    assert_ne!(first.0, other_program.0);
}

#[test]
fn gig_identifier_too_long_for_a_seed_has_no_address() {
    let longest = "x".repeat(32);
    assert!(find_escrow_address(&program(), &longest).is_some());
    let too_long = "x".repeat(33);
    assert_eq!(find_escrow_address(&program(), &too_long), None);
}

#[test]
fn signer_seeds_are_tag_gig_and_bump() {
    assert_eq!(
        signer_seeds_for("gig-7", 253),
        vec![b"escrow".to_vec(), b"gig-7".to_vec(), vec![253u8]]
    );
    assert_eq!(signer_seeds_for("", 0), vec![b"escrow".to_vec(), vec![], vec![0u8]]);
    assert_eq!(
        signer_seeds_for("é", 1),
        vec![b"escrow".to_vec(), vec![0xc3, 0xa9], vec![1u8]]
    );
}

#[test]
fn signer_seeds_recreate_the_escrow_address() {
    let (address, bump) = find_escrow_address(&program(), "gig-7").unwrap();
    let seeds = signer_seeds_for("gig-7", bump);
    let parts: Vec<&[u8]> = seeds.iter().map(|seed| seed.as_slice()).collect();
    let recreated =
        Pubkey::create_program_address(&parts, &Pubkey::new_from_array(program().bytes)).unwrap();
    assert_eq!(recreated.to_bytes(), address.bytes);
}

#[test]
fn accounts_for_a_gig_sit_at_its_address() {
    let client = Identity::new([1; 32]);
    let mint = Identity::new([2; 32]);
    let (address, bump) = find_escrow_address(&program(), "gig-7").unwrap();
    let source = CustodyAccount { key: Identity::new([3; 32]), owner: client, mint };
    let vault = CustodyAccount { key: Identity::new([4; 32]), owner: address, mint };
    let ctx = InitializeEscrow::for_gig(&program(), "gig-7", client, source, vault).unwrap();
    assert_eq!(ctx.escrow_address, address);
    assert_eq!(ctx.escrow_bump, bump);
    assert!(ctx.escrow.is_vacant());
    assert_eq!(ctx.client, client);
    assert_eq!(ctx.client_token_account, source);
    assert_eq!(ctx.escrow_token_account, vault);
    assert_eq!(ctx.check_custody(), Ok(()));
    let too_long = "x".repeat(33);
    assert_eq!(InitializeEscrow::for_gig(&program(), &too_long, client, source, vault), None);
}
