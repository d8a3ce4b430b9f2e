use stream_escrow::codec::{decode_stream_data, encode_stream_data, STREAM_DATA_LEN};
use stream_escrow::instruction::{pack_close, pack_create, pack_withdraw, StreamInstruction};
use stream_escrow::state::{CreateStreamInput, Pubkey, StreamData, StreamError, WithdrawInput};

fn key(n: u128) -> Pubkey {
    Pubkey { lo: n, hi: n.wrapping_mul(77) }
}

#[test]
fn stream_data_round_trip() {
    let r = StreamData {
        start_time: -5,
        end_time: 9_000_000_000,
        receiver: key(11),
        lamports_withdrawn: 12345,
        amount_second: 67890,
        sender: key(22),
    };
    let bytes = encode_stream_data(&r);
    assert_eq!(bytes.len(), STREAM_DATA_LEN);
    let back = decode_stream_data(&bytes).unwrap();
    assert_eq!(back, r);
}

#[test]
fn stream_data_layout_is_little_endian() {
    let r = StreamData {
        start_time: 1,
        end_time: 256,
        receiver: Pubkey { lo: 2, hi: 3 },
        lamports_withdrawn: 4,
        amount_second: 5,
        sender: Pubkey { lo: 6, hi: 7 },
    };
    let bytes = encode_stream_data(&r);
    assert_eq!(bytes[0], 1);
    assert_eq!(&bytes[1..8], &[0u8; 7]);
    assert_eq!(bytes[8], 0);
    assert_eq!(bytes[9], 1);
    assert_eq!(&bytes[10..16], &[0u8; 6]);
    assert_eq!(bytes[16], 2);
    assert_eq!(bytes[32], 3);
    assert_eq!(bytes[48], 4);
    assert_eq!(bytes[56], 5);
    assert_eq!(bytes[64], 6);
    assert_eq!(bytes[80], 7);
}

#[test]
fn decode_rejects_wrong_length() {
    assert_eq!(
        decode_stream_data(&[0u8; 95]),
        Err(StreamError::MalformedPayload)
    );
    assert_eq!(
        decode_stream_data(&[0u8; 97]),
        Err(StreamError::MalformedPayload)
    );
    assert_eq!(decode_stream_data(&[]), Err(StreamError::MalformedPayload));
}

#[test]
fn create_instruction_round_trip() {
    let d = CreateStreamInput {
        start_time: 1000,
        end_time: 2000,
        receiver: key(9),
        lamports_withdrawn: 0,
        amount_second: 5,
    };
    let wire = pack_create(&d);
    assert_eq!(wire.len(), 65);
    assert_eq!(wire[0], 0);
    match StreamInstruction::unpack(&wire).unwrap() {
        StreamInstruction::CreateStream(back) => assert_eq!(back, d),
        _ => panic!("decoded to the wrong variant"),
    }
}

#[test]
fn withdraw_instruction_round_trip() {
    let w = WithdrawInput { amount: 987654321 };
    let wire = pack_withdraw(&w);
    assert_eq!(wire.len(), 9);
    assert_eq!(wire[0], 1);
    match StreamInstruction::unpack(&wire).unwrap() {
        StreamInstruction::WithdrawFromStream(back) => assert_eq!(back, w),
        _ => panic!("decoded to the wrong variant"),
    }
}

#[test]
fn close_instruction_round_trip() {
    let wire = pack_close();
    assert_eq!(wire, vec![2u8]);
    match StreamInstruction::unpack(&wire).unwrap() {
        StreamInstruction::CloseStream => {}
        _ => panic!("decoded to the wrong variant"),
    }
}

#[test]
fn unpack_rejects_empty_and_unknown_tags() {
    assert_eq!(
        StreamInstruction::unpack(&[]).unwrap_err(),
        StreamError::MalformedPayload
    );
    assert_eq!(
        StreamInstruction::unpack(&[9u8]).unwrap_err(),
        StreamError::InvalidInstruction
    );
    assert_eq!(
        StreamInstruction::unpack(&[255u8, 0, 0]).unwrap_err(),
        StreamError::InvalidInstruction
    );
}

#[test]
fn unpack_rejects_truncated_and_oversized_payloads() {
    assert_eq!(
        StreamInstruction::unpack(&[0u8; 64]).unwrap_err(),
        StreamError::MalformedPayload
    );
    assert_eq!(
        StreamInstruction::unpack(&[1u8; 8]).unwrap_err(),
        StreamError::MalformedPayload
    );
    assert_eq!(
        StreamInstruction::unpack(&[2u8, 0]).unwrap_err(),
        StreamError::MalformedPayload
    );
    assert_eq!(
        StreamInstruction::unpack(&[0u8; 66]).unwrap_err(),
        StreamError::MalformedPayload
    );
}
