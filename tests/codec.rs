use tody_chat::codec::{CodecError, ProtocolCodec, MAX_SIZE};

fn framed(payload: &[u8]) -> Vec<u8> {
    let codec = ProtocolCodec::new();
    let mut out = Vec::new();
    codec.encode(&payload.to_vec(), &mut out).unwrap();
    out
}

#[test]
fn encode_writes_big_endian_length_then_payload() {
    let payload: Vec<u8> = (0..300).map(|i| (i % 251) as u8).collect();
    let out = framed(&payload);
    assert_eq!(&out[..4], &[0, 0, 1, 44]);
    assert_eq!(&out[4..], &payload[..]);
}

#[test]
fn encode_appends_to_existing_bytes() {
    let codec = ProtocolCodec::new();
    let mut out = vec![9, 9];
    codec.encode(&vec![7], &mut out).unwrap();
    assert_eq!(out, vec![9, 9, 0, 0, 0, 1, 7]);
}

#[test]
fn round_trip_whole_buffer() {
    let mut bytes = framed(b"hello");
    let mut codec = ProtocolCodec::new();
    assert_eq!(codec.decode(&mut bytes), Ok(Some(b"hello".to_vec())));
    assert!(bytes.is_empty());
}

#[test]
fn round_trip_empty_payload() {
    let mut bytes = framed(b"");
    assert_eq!(bytes, vec![0, 0, 0, 0]);
    let mut codec = ProtocolCodec::new();
    assert_eq!(codec.decode(&mut bytes), Ok(Some(Vec::new())));
    assert!(bytes.is_empty());
}

#[test]
fn fragmentation_at_every_split() {
    let payload = b"fragmented payload".to_vec();
    let whole = framed(&payload);
    for k in 0..whole.len() {
        let mut codec = ProtocolCodec::new();
        let mut bytes = whole[..k].to_vec();
        assert_eq!(codec.decode(&mut bytes), Ok(None), "split at {}", k);
        bytes.extend_from_slice(&whole[k..]);
        assert_eq!(codec.decode(&mut bytes), Ok(Some(payload.clone())), "split at {}", k);
        assert!(bytes.is_empty());
    }
}

#[test]
fn fragmentation_byte_by_byte() {
    let payload = b"one byte at a time".to_vec();
    let whole = framed(&payload);
    let mut codec = ProtocolCodec::new();
    let mut bytes = Vec::new();
    let mut got = None;
    for (i, b) in whole.iter().enumerate() {
        bytes.push(*b);
        match codec.decode(&mut bytes).unwrap() {
            Some(p) => {
                assert_eq!(i, whole.len() - 1);
                got = Some(p);
            }
            None => assert!(i < whole.len() - 1),
        }
    }
    assert_eq!(got, Some(payload));
}

#[test]
fn back_to_back_frames() {
    let mut bytes = framed(b"first");
    bytes.extend(framed(b"second"));
    bytes.extend(&[0, 0]);
    let mut codec = ProtocolCodec::new();
    assert_eq!(codec.decode(&mut bytes), Ok(Some(b"first".to_vec())));
    assert_eq!(codec.decode(&mut bytes), Ok(Some(b"second".to_vec())));
    assert_eq!(codec.decode(&mut bytes), Ok(None));
    assert_eq!(bytes, vec![0, 0]);
}

#[test]
fn oversize_rejected_on_prefix_alone() {
    let n = (MAX_SIZE + 1) as u32;
    let mut bytes = n.to_be_bytes().to_vec();
    let mut codec = ProtocolCodec::new();
    assert_eq!(
        codec.decode(&mut bytes),
        Err(CodecError::MessageTooBig { size: 10 * 1024 * 1024 + 1, max: 10 * 1024 * 1024 })
    );
}

#[test]
fn oversize_rejected_with_payload_present() {
    let n = (MAX_SIZE + 1) as u32;
    let mut bytes = n.to_be_bytes().to_vec();
    bytes.extend(vec![0u8; 64]);
    let mut codec = ProtocolCodec::new();
    assert_eq!(
        codec.decode(&mut bytes),
        Err(CodecError::MessageTooBig { size: MAX_SIZE + 1, max: MAX_SIZE })
    );
}

#[test]
fn largest_allowed_size_waits_for_payload() {
    let n = MAX_SIZE as u32;
    let mut bytes = n.to_be_bytes().to_vec();
    bytes.extend(vec![1u8; 10]);
    let mut codec = ProtocolCodec::new();
    assert_eq!(codec.decode(&mut bytes), Ok(None));
    assert_eq!(codec.decode(&mut bytes), Ok(None));
}

#[test]
fn short_prefix_is_incomplete_and_kept() {
    let mut bytes = vec![0, 0, 0];
    let mut codec = ProtocolCodec::new();
    assert_eq!(codec.decode(&mut bytes), Ok(None));
    assert_eq!(bytes, vec![0, 0, 0]);
}
