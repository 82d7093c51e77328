use escrow::error::EscrowError;
use escrow::instruction::{EscrowInstruction, INSTRUCTION_LEN};

#[test]
fn unpack_reads_an_initialize() {
    let input = [0u8, 232, 3, 0, 0, 0, 0, 0, 0];
    assert_eq!(
        EscrowInstruction::unpack(&input),
        Ok(EscrowInstruction::InitEscrow { amount: 1000 })
    );
}

#[test]
fn unpack_reads_a_withdraw() {
    let input = [1u8, 44, 1, 0, 0, 0, 0, 0, 0];
    assert_eq!(
        EscrowInstruction::unpack(&input),
        Ok(EscrowInstruction::Withdraw { amount: 300 })
    );
}

#[test]
fn unpack_reads_the_amount_least_significant_byte_first() {
    let input = [1u8, 1, 2, 3, 4, 5, 6, 7, 8];
    assert_eq!(
        EscrowInstruction::unpack(&input),
        Ok(EscrowInstruction::Withdraw { amount: 0x0807_0605_0403_0201 })
    );
}

#[test]
fn unpack_reads_the_extreme_amounts() {
    assert_eq!(
        EscrowInstruction::unpack(&[0u8; 9]),
        Ok(EscrowInstruction::InitEscrow { amount: 0 })
    );
    let mut input = [255u8; 9];
    input[0] = 1;
    assert_eq!(
        EscrowInstruction::unpack(&input),
        Ok(EscrowInstruction::Withdraw { amount: u64::MAX })
    );
}

#[test]
fn unpack_agrees_with_the_standard_decoding() {
    for amount in [0u64, 1, 255, 256, 65_535, 1 << 32, 0x0123_4567_89ab_cdef, u64::MAX] {
        let mut input = vec![0u8];
        input.extend_from_slice(&amount.to_le_bytes());
        assert_eq!(
            EscrowInstruction::unpack(&input),
            Ok(EscrowInstruction::InitEscrow { amount })
        );
    }
}

#[test]
fn unpack_rejects_an_empty_input() {
    assert_eq!(EscrowInstruction::unpack(&[]), Err(EscrowError::InvalidInstruction));
}

#[test]
fn unpack_rejects_an_unknown_opcode() {
    let input = [2u8, 1, 0, 0, 0, 0, 0, 0, 0];
    assert_eq!(EscrowInstruction::unpack(&input), Err(EscrowError::InvalidInstruction));
    let input = [255u8, 1, 0, 0, 0, 0, 0, 0, 0];
    assert_eq!(EscrowInstruction::unpack(&input), Err(EscrowError::InvalidInstruction));
}

#[test]
fn unpack_rejects_a_short_amount() {
    let input = [0u8, 1, 0, 0, 0, 0, 0, 0];
    assert_eq!(EscrowInstruction::unpack(&input), Err(EscrowError::InvalidInstruction));
    assert_eq!(EscrowInstruction::unpack(&[1u8]), Err(EscrowError::InvalidInstruction));
}

#[test]
fn unpack_rejects_bytes_behind_the_amount() {
    let input = [0u8, 1, 0, 0, 0, 0, 0, 0, 0, 0];
    assert_eq!(input.len(), INSTRUCTION_LEN + 1);
    assert_eq!(EscrowInstruction::unpack(&input), Err(EscrowError::InvalidInstruction));
}

#[test]
fn unpack_amount_reads_eight_bytes() {
    assert_eq!(EscrowInstruction::unpack_amount(&[232, 3, 0, 0, 0, 0, 0, 0]), Ok(1000));
    assert_eq!(EscrowInstruction::unpack_amount(&[0, 0, 0, 0, 0, 0, 0, 128]), Ok(1 << 63));
}

#[test]
fn unpack_amount_rejects_any_other_length() {
    assert_eq!(
        EscrowInstruction::unpack_amount(&[1, 0, 0, 0, 0, 0, 0]),
        Err(EscrowError::InvalidInstruction)
    );
    assert_eq!(
        EscrowInstruction::unpack_amount(&[1, 0, 0, 0, 0, 0, 0, 0, 0]),
        Err(EscrowError::InvalidInstruction)
    );
    assert_eq!(EscrowInstruction::unpack_amount(&[]), Err(EscrowError::InvalidInstruction));
}
