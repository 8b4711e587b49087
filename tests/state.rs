use solana_escrow::error::EscrowError;
use solana_escrow::layout::Pubkey;
use solana_escrow::state::Escrow;

fn sample() -> Escrow {
    Escrow {
        is_initialized: true,
        maker_pubkey: Pubkey([1; 32]),
        tmp_token0_pubkey: Pubkey([2; 32]),
        maker_token1_pubkey: Pubkey([3; 32]),
        maker_token1_expected_amount: 0x1122334455667788,
    }
}

#[test]
fn record_layout_offsets() {
    let mut dst = vec![0xAAu8; Escrow::LEN];
    Escrow::pack(sample(), &mut dst).unwrap();
    assert_eq!(dst[0], 1);
    assert!(dst[1..33].iter().all(|b| *b == 1));
    assert!(dst[33..65].iter().all(|b| *b == 2));
    assert!(dst[65..97].iter().all(|b| *b == 3));
    assert_eq!(dst[97..105], [0x88, 0x77, 0x66, 0x55, 0x44, 0x33, 0x22, 0x11]);
}

#[test]
fn record_round_trip() {
    for flag in [false, true] {
        for amount in [0u64, 200, u64::MAX] {
            let e = Escrow { is_initialized: flag, maker_token1_expected_amount: amount, ..sample() };
            let mut dst = vec![0u8; Escrow::LEN];
            Escrow::pack(e, &mut dst).unwrap();
            assert_eq!(Escrow::unpack_unchecked(&dst), Ok(e));
        }
    }
}

#[test]
fn record_with_bad_flag_is_refused() {
    let mut dst = vec![0u8; Escrow::LEN];
    Escrow::pack(sample(), &mut dst).unwrap();
    dst[0] = 2;
    assert_eq!(Escrow::unpack_unchecked(&dst), Err(EscrowError::InvalidAccountData));
    assert_eq!(Escrow::unpack_from_slice(&dst), Err(EscrowError::InvalidAccountData));
}

#[test]
fn record_of_wrong_size_is_refused() {
    assert_eq!(Escrow::unpack_unchecked(&[]), Err(EscrowError::InvalidAccountData));
    assert_eq!(Escrow::unpack(&vec![1u8; 106]), Err(EscrowError::InvalidAccountData));
    let mut short = vec![0u8; 104];
    assert_eq!(Escrow::pack(sample(), &mut short), Err(EscrowError::InvalidAccountData));
    assert_eq!(short, vec![0u8; 104]);
}

#[test]
fn blank_record_is_uninitialized() {
    let blank = vec![0u8; Escrow::LEN];
    assert_eq!(Escrow::unpack(&blank), Err(EscrowError::UninitializedAccount));
    let e = Escrow::unpack_unchecked(&blank).unwrap();
    assert!(!e.is_initialized());
}

#[test]
fn pack_into_longer_slice_keeps_the_tail() {
    let mut dst = vec![7u8; 110];
    sample().pack_into_slice(&mut dst);
    assert_eq!(dst[105..], [7, 7, 7, 7, 7]);
    assert_eq!(Escrow::unpack_from_slice(&dst), Ok(sample()));
}
