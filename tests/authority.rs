use anchor_lang::prelude::Pubkey;
use bullrider::authority::{derive_withdraw_authority, same_address, withheld_seeds, AuthorityProof};

#[test]
fn seeds_are_tag_mint_bump() {
    let mint = [3u8; 32];
    let seeds = withheld_seeds(&mint, 254);
    assert_eq!(seeds, vec![b"withheld".to_vec(), mint.to_vec(), vec![254u8]]);
}

#[test]
fn derived_address_is_smallest_valid_bump() {
    let mint = [9u8; 32];
    let program = Pubkey::new_from_array([5u8; 32]);
    let (address, bump) = derive_withdraw_authority(&mint, &program.to_bytes()).unwrap();
    let expected = Pubkey::create_program_address(&[b"withheld", &mint, &[bump]], &program).unwrap();
    assert_eq!(address, expected.to_bytes());
    for b in 0..bump {
        assert!(Pubkey::create_program_address(&[b"withheld", &mint, &[b]], &program).is_err());
    }
}

#[test]
fn proof_authorizes_only_its_address() {
    let mint = [11u8; 32];
    let program = [13u8; 32];
    let (address, bump) = derive_withdraw_authority(&mint, &program).unwrap();
    let proof = AuthorityProof { mint, bump };
    assert!(proof.authorizes(&program, &address));
    assert!(!proof.authorizes(&program, &[0u8; 32]));
    assert!(!proof.authorizes(&[14u8; 32], &address));
    assert_eq!(proof.signer_seeds()[2], vec![bump]);
}

#[test]
fn address_equality_is_bytewise() {
    let a = [1u8; 32];
    let mut b = [1u8; 32];
    assert!(same_address(&a, &b));
    b[31] = 2;
    assert!(!same_address(&a, &b));
}
