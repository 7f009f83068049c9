use my_contract::cross_contract::{encode_message, parse, CrossContractError, CrossContractMessage};
use my_contract::handle_cross_contract_message;

const A: [u8; 32] = [0xA1; 32];
const B: [u8; 32] = [0xB2; 32];
const C: [u8; 32] = [0xC3; 32];

fn samples() -> Vec<CrossContractMessage> {
    vec![
        CrossContractMessage::Mint { to: A, amount: 0 },
        CrossContractMessage::Burn { from: B, amount: i128::MAX },
        CrossContractMessage::Transfer { from: A, to: B, amount: 5 },
        CrossContractMessage::Approve { from: A, spender: C, amount: 77, expiration_ledger: u32::MAX },
        CrossContractMessage::TransferFrom { spender: C, from: B, to: A, amount: 1 << 100 },
    ]
}

#[test]
fn encode_then_parse_gives_message_back() {
    for msg in samples() {
        let bytes = encode_message(&msg);
        assert_eq!(parse(&bytes), Ok(msg));
    }
}

#[test]
fn encoded_lengths_match_wire_format() {
    let lens: Vec<usize> = samples().iter().map(|m| encode_message(m).len()).collect();
    assert_eq!(lens, vec![49, 49, 81, 85, 113]);
}

#[test]
fn encode_mint_exact_bytes() {
    let bytes = encode_message(&CrossContractMessage::Mint { to: A, amount: 0x0102 });
    assert_eq!(bytes[0], 0x01);
    assert_eq!(&bytes[1..33], &A[..]);
    assert_eq!(bytes[33], 0x02);
    assert_eq!(bytes[34], 0x01);
    assert!(bytes[35..49].iter().all(|b| *b == 0));
}

#[test]
fn trailing_bytes_do_not_change_result() {
    for msg in samples() {
        let mut bytes = encode_message(&msg);
        bytes.extend_from_slice(&[0xEE; 40]);
        assert_eq!(parse(&bytes), Ok(msg));
    }
}

#[test]
fn parse_then_encode_is_prefix() {
    let mut data = vec![0x03];
    data.extend_from_slice(&B);
    data.extend_from_slice(&C);
    data.extend_from_slice(&9i128.to_le_bytes());
    data.extend_from_slice(&[1, 2, 3]);
    let msg = parse(&data).unwrap();
    let enc = encode_message(&msg);
    assert_eq!(&data[..enc.len()], &enc[..]);
}

#[test]
fn each_opcode_truncated_by_one_byte() {
    for msg in samples() {
        let bytes = encode_message(&msg);
        assert_eq!(parse(&bytes[..bytes.len() - 1]), Err(CrossContractError::Truncated));
    }
}

#[test]
fn opcode_only_is_truncated() {
    for op in 1u8..=5 {
        assert_eq!(parse(&[op]), Err(CrossContractError::Truncated));
    }
    assert_eq!(parse(&[0]), Err(CrossContractError::InvalidOpCode));
    assert_eq!(parse(&[6]), Err(CrossContractError::InvalidOpCode));
}

#[test]
fn approve_short_expiration_wins_over_negative_amount() {
    let mut data = vec![0x04];
    data.extend_from_slice(&A);
    data.extend_from_slice(&B);
    data.extend_from_slice(&(-5i128).to_le_bytes());
    data.extend_from_slice(&[0, 0]);
    assert_eq!(parse(&data), Err(CrossContractError::Truncated));
    data.extend_from_slice(&[0, 0]);
    assert_eq!(parse(&data), Err(CrossContractError::NegativeAmount));
}

#[test]
fn approve_expiration_is_little_endian() {
    let mut data = vec![0x04];
    data.extend_from_slice(&A);
    data.extend_from_slice(&B);
    data.extend_from_slice(&3i128.to_le_bytes());
    data.extend_from_slice(&[0x78, 0x56, 0x34, 0x12]);
    assert_eq!(
        parse(&data),
        Ok(CrossContractMessage::Approve { from: A, spender: B, amount: 3, expiration_ledger: 0x1234_5678 })
    );
}

#[test]
fn handle_discards_message() {
    let bytes = encode_message(&samples()[2]);
    assert_eq!(handle_cross_contract_message(&bytes), Ok(()));
    assert_eq!(handle_cross_contract_message(&[9, 9]), Err(CrossContractError::InvalidOpCode));
}
