use p2p_file::codec::{
    decode_frame, decode_request, decode_response, encode_frame, encode_request, encode_response,
    FileExchangeProtocol, FileRequest, FileResponse, FrameError, REQUEST_SIZE_LIMIT,
    RESPONSE_SIZE_LIMIT,
};

#[test]
fn frame_round_trip_small() {
    let payload: Vec<u8> = vec![7u8];
    let framed = encode_frame(&payload);
    assert_eq!(framed, vec![1u8, 7u8]);
    let back = decode_frame(&framed, REQUEST_SIZE_LIMIT).unwrap();
    assert_eq!(back, payload);
}

#[test]
fn frame_round_trip_multibyte_prefix() {
    // 300 bytes: the length prefix needs two base-128 bytes, 172 then 2.
    let payload: Vec<u8> = (0..300u32).map(|i| (i % 251) as u8).collect();
    let framed = encode_frame(&payload);
    assert_eq!(framed[0], 172u8);
    assert_eq!(framed[1], 2u8);
    assert_eq!(framed.len(), 302);
    let back = decode_frame(&framed, REQUEST_SIZE_LIMIT).unwrap();
    assert_eq!(back, payload);
}

#[test]
fn zero_length_frame_is_premature_end() {
    let empty: Vec<u8> = Vec::new();
    let framed = encode_frame(&empty);
    assert_eq!(framed, vec![0u8]);
    assert_eq!(
        decode_frame(&framed, REQUEST_SIZE_LIMIT),
        Err(FrameError::PrematureEndOfStream)
    );
}

#[test]
fn over_ceiling_is_rejected_without_payload() {
    // A prefix declaring 1_000_001 bytes, followed by nothing at all: the
    // decoder must reject on the prefix alone rather than wait for data.
    let mut header: Vec<u8> = Vec::new();
    let mut n: u64 = REQUEST_SIZE_LIMIT + 1;
    while n >= 128 {
        header.push((n % 128 + 128) as u8);
        n /= 128;
    }
    header.push(n as u8);
    assert_eq!(
        decode_frame(&header, REQUEST_SIZE_LIMIT),
        Err(FrameError::LengthOverCeiling)
    );
    // The same declared length is fine under the response ceiling, where
    // it then fails only for want of payload bytes.
    assert_eq!(
        decode_frame(&header, RESPONSE_SIZE_LIMIT),
        Err(FrameError::PrematureEndOfStream)
    );
}

#[test]
fn truncated_payload_is_premature_end() {
    let payload: Vec<u8> = vec![1, 2, 3, 4, 5];
    let mut framed = encode_frame(&payload);
    framed.pop();
    assert_eq!(
        decode_frame(&framed, RESPONSE_SIZE_LIMIT),
        Err(FrameError::PrematureEndOfStream)
    );
}

#[test]
fn truncated_prefix_is_premature_end() {
    // A lone continuation byte: the stream ends inside the length prefix.
    let framed: Vec<u8> = vec![0x80u8];
    assert_eq!(
        decode_frame(&framed, REQUEST_SIZE_LIMIT),
        Err(FrameError::PrematureEndOfStream)
    );
    let nothing: Vec<u8> = Vec::new();
    assert_eq!(
        decode_frame(&nothing, REQUEST_SIZE_LIMIT),
        Err(FrameError::PrematureEndOfStream)
    );
}

#[test]
fn request_round_trip() {
    let request = FileRequest(String::from("/path/to/file"));
    let framed = encode_request(&request);
    assert_eq!(framed[0], 13u8);
    assert_eq!(&framed[1..], "/path/to/file".as_bytes());
    let back = decode_request(&framed).unwrap();
    assert_eq!(back, request);
}

#[test]
fn request_round_trip_non_ascii() {
    let request = FileRequest(String::from("/päth/ünïcode"));
    let framed = encode_request(&request);
    let back = decode_request(&framed).unwrap();
    assert_eq!(back, request);
}

#[test]
fn request_with_invalid_utf8_is_rejected() {
    let framed = encode_frame(&vec![0xffu8, 0xfe, 0xfd]);
    assert_eq!(decode_request(&framed), Err(FrameError::InvalidPath));
}

#[test]
fn response_round_trip() {
    let response = FileResponse(vec![1, 2, 3, 4, 5]);
    let framed = encode_response(&response);
    assert_eq!(framed, vec![5u8, 1, 2, 3, 4, 5]);
    let back = decode_response(&framed).unwrap();
    assert_eq!(back, response);
}

#[test]
fn trailing_bytes_after_frame_are_ignored() {
    // One frame per stream direction: a reader stops at the declared
    // length, as the stream is half-closed right after the frame.
    let mut framed = encode_frame(&vec![9u8, 8u8]);
    framed.push(42u8);
    assert_eq!(decode_frame(&framed, REQUEST_SIZE_LIMIT).unwrap(), vec![9u8, 8u8]);
}

#[test]
fn protocol_name_is_stable() {
    assert_eq!(FileExchangeProtocol.protocol_name(), "/file-exchange/1");
}

#[test]
fn ceilings_have_declared_values() {
    assert_eq!(REQUEST_SIZE_LIMIT, 1_000_000);
    assert_eq!(RESPONSE_SIZE_LIMIT, 500_000_000);
}
