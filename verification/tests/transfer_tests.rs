use anchor_lang::prelude::Pubkey;
use anchor_lang::solana_program::system_instruction;
use anchor_lang::solana_program::system_program;
use solscore::address::Address;
use solscore::address::Namespace;
use solscore::transfer::AccountMeta;
use solscore::transfer::Authority;
use solscore::transfer::Transfer;

fn payment(amount: u64, authority: Authority) -> Transfer {
    Transfer { from: Address::new([1u8; 32]), to: Address::new([2u8; 32]), amount, authority }
}

#[test]
fn instruction_is_for_the_system_program() {
    let ix = payment(5, Authority::Sender).instruction();
    assert_eq!(ix.program_id.to_bytes(), [0u8; 32]);
    assert_eq!(ix.program_id.to_bytes(), system_program::id().to_bytes());
}

#[test]
fn instruction_names_sender_then_recipient() {
    let ix = payment(5, Authority::Sender).instruction();
    assert_eq!(
        ix.accounts,
        vec![
            AccountMeta { pubkey: Address::new([1u8; 32]), is_signer: true, is_writable: true },
            AccountMeta { pubkey: Address::new([2u8; 32]), is_signer: false, is_writable: true },
        ]
    );
}

#[test]
fn instruction_data_carries_the_amount() {
    let amount: u64 = 0x0102_0304_0506_0708;
    let ix = payment(amount, Authority::Sender).instruction();
    assert_eq!(ix.data, vec![2, 0, 0, 0, 8, 7, 6, 5, 4, 3, 2, 1]);
    let other = payment(amount + 1, Authority::Sender).instruction();
    assert_ne!(ix.data, other.data);
}

#[test]
fn instruction_matches_the_system_transfer() {
    let from = Pubkey::new_from_array([1u8; 32]);
    let to = Pubkey::new_from_array([2u8; 32]);
    let expected = system_instruction::transfer(&from, &to, 77);
    let ix = payment(77, Authority::Sender).instruction();
    assert_eq!(ix.data, expected.data);
    assert_eq!(ix.accounts.len(), expected.accounts.len());
    for (got, want) in ix.accounts.iter().zip(expected.accounts.iter()) {
        assert_eq!(got.pubkey.to_bytes(), want.pubkey.to_bytes());
        assert_eq!(got.is_signer, want.is_signer);
        assert_eq!(got.is_writable, want.is_writable);
    }
}

#[test]
fn a_sender_signs_without_seeds() {
    assert!(payment(5, Authority::Sender).signer_seeds().is_empty());
}

#[test]
fn a_vault_signs_with_tag_and_bump() {
    let seeds =
        payment(5, Authority::Vault { namespace: Namespace::StakeVault, bump: 253 }).signer_seeds();
    assert_eq!(seeds, vec![b"stake-vault".to_vec(), vec![253u8]]);
}
