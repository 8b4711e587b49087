use solana_escrow::error::EscrowError;
use solana_escrow::instruction::{exchange, init_escrow, EscrowInstruction};
use solana_escrow::layout::Pubkey;

fn key(b: u8) -> Pubkey {
    Pubkey([b; 32])
}

#[test]
fn pack_init_escrow_bytes() {
    let bytes = EscrowInstruction::InitEscrow { amount: 0x0102030405060708 }.pack();
    assert_eq!(bytes, vec![0, 8, 7, 6, 5, 4, 3, 2, 1]);
}

#[test]
fn pack_exchange_bytes() {
    let bytes = EscrowInstruction::Exchange { amount: 100 }.pack();
    assert_eq!(bytes, vec![1, 100, 0, 0, 0, 0, 0, 0, 0]);
}

#[test]
fn round_trip_every_variant_and_edge_amount() {
    for amount in [0u64, 1, 100, 200, 0x0102030405060708, u64::MAX - 1, u64::MAX] {
        for ins in [
            EscrowInstruction::InitEscrow { amount },
            EscrowInstruction::Exchange { amount },
        ] {
            assert_eq!(EscrowInstruction::unpack(&ins.pack()), Ok(ins));
        }
    }
}

#[test]
fn unknown_tags_are_refused() {
    for tag in 2u8..=255 {
        let mut bytes = vec![tag];
        bytes.extend_from_slice(&[1, 0, 0, 0, 0, 0, 0, 0]);
        assert_eq!(
            EscrowInstruction::unpack(&bytes),
            Err(EscrowError::InvalidInstruction)
        );
        assert_eq!(
            EscrowInstruction::unpack(&[tag]),
            Err(EscrowError::InvalidInstruction)
        );
    }
}

#[test]
fn empty_request_is_refused() {
    assert_eq!(EscrowInstruction::unpack(&[]), Err(EscrowError::InvalidInstruction));
}

#[test]
fn short_payload_is_refused() {
    for tag in [0u8, 1] {
        for len in 0..8 {
            let mut bytes = vec![tag];
            bytes.extend(std::iter::repeat(9u8).take(len));
            assert_eq!(
                EscrowInstruction::unpack(&bytes),
                Err(EscrowError::InvalidInstructionData)
            );
        }
    }
}

#[test]
fn trailing_bytes_are_ignored() {
    let bytes = [1u8, 42, 0, 0, 0, 0, 0, 0, 0, 7, 7];
    assert_eq!(
        EscrowInstruction::unpack(&bytes),
        Ok(EscrowInstruction::Exchange { amount: 42 })
    );
}

#[test]
fn init_escrow_request_layout() {
    let token_program = Pubkey(spl_token::id().to_bytes());
    let r = init_escrow(&key(9), &key(1), &key(2), &key(3), &key(4), &token_program, 200).unwrap();
    assert_eq!(r.program_id, key(9));
    assert_eq!(r.data, vec![0, 200, 0, 0, 0, 0, 0, 0, 0]);
    let expected = [
        (key(1), true, false),
        (key(2), false, true),
        (key(3), false, false),
        (key(4), false, true),
        (Pubkey(solana_program::sysvar::rent::id().to_bytes()), false, false),
        (token_program, false, false),
    ];
    assert_eq!(r.accounts.len(), expected.len());
    for (m, (k, s, w)) in r.accounts.iter().zip(expected.iter()) {
        assert_eq!((m.pubkey, m.is_signer, m.is_writable), (*k, *s, *w));
    }
}

#[test]
fn exchange_request_layout() {
    let r = exchange(
        &key(9), &key(1), &key(2), &key(3), &key(4), &key(5), &key(6), &key(7), &key(8),
        &key(10), 100,
    )
    .unwrap();
    assert_eq!(r.program_id, key(9));
    assert_eq!(r.data, vec![1, 100, 0, 0, 0, 0, 0, 0, 0]);
    let expected = [
        (key(1), true, false),
        (key(2), false, true),
        (key(3), false, true),
        (key(4), false, true),
        (key(5), false, true),
        (key(6), false, true),
        (key(7), false, true),
        (key(8), false, false),
        (key(10), false, false),
    ];
    assert_eq!(r.accounts.len(), expected.len());
    for (m, (k, s, w)) in r.accounts.iter().zip(expected.iter()) {
        assert_eq!((m.pubkey, m.is_signer, m.is_writable), (*k, *s, *w));
    }
}
