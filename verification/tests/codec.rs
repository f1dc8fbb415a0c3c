use smog::ipc::accept_signal;
use smog::ipc::check_ready;
use smog::ipc::decode_frame;
use smog::ipc::encode_frame;
use smog::ipc::notify_message;
use smog::ipc::put_uint32;
use smog::ipc::read_message;
use smog::ipc::read_u32;
use smog::ipc::ready_word;
use smog::ipc::write_message;
use smog::ipc::IpcError;

#[test]
fn test_put_uint32() {
    let mut buf = vec![0u8; 8];
    put_uint32(&mut buf, 0x01020304);
    assert_eq!(buf, vec![1, 2, 3, 4, 0, 0, 0, 0]);
    let mut buf2 = vec![0xffu8; 4];
    put_uint32(&mut buf2, 5);
    assert_eq!(buf2, vec![0, 0, 0, 5]);
}

#[test]
fn test_read_u32() {
    assert_eq!(read_u32(&[1, 2, 3, 4]), 0x01020304);
    assert_eq!(read_u32(&[0, 0, 0, 5, 9, 9]), 5);
    assert_eq!(read_u32(&[0xff, 0xff, 0xff, 0xff]), u32::MAX);
}

#[test]
fn test_frame_roundtrip() {
    let payload = vec![10u8, 20, 30];
    let framed = encode_frame(payload.as_slice());
    assert_eq!(framed, vec![0, 0, 0, 3, 10, 20, 30]);
    assert_eq!(decode_frame(framed.as_slice()), Some(payload));
}

#[test]
fn test_decode_frame_rejects_truncation() {
    assert_eq!(decode_frame(&[0, 0, 0]), None);
    assert_eq!(decode_frame(&[0, 0, 0, 4, 1, 2, 3]), None);
    assert_eq!(decode_frame(&[0, 0, 0, 1, 1, 2]), None);
}

#[test]
fn test_message_roundtrip() {
    let bytes = write_message(&"ready".to_string()).unwrap();
    let back = read_message(bytes.as_slice()).unwrap();
    assert_eq!(back, "ready");
    assert!(check_ready(&back));

    let other = write_message(&"almost ready".to_string()).unwrap();
    let back = read_message(other.as_slice()).unwrap();
    assert_eq!(back, "almost ready");
    assert!(!check_ready(&back));
}

#[test]
fn test_read_message_errors() {
    assert_eq!(read_message(&[0, 0, 0]), Err(IpcError::BadFrame));
    // a well-framed payload that is not the JSON text of a string
    let framed = encode_frame(b"ready".as_slice());
    assert_eq!(read_message(framed.as_slice()), Err(IpcError::BadPayload));
}

#[test]
fn test_ready_word() {
    assert_eq!(ready_word(), "ready");
}

#[test]
fn test_rendezvous_roundtrip() {
    let bytes = notify_message("start").unwrap();
    assert_eq!(bytes, vec![0, 0, 0, 5, b's', b't', b'a', b'r', b't']);
    let payload = decode_frame(bytes.as_slice()).unwrap();
    assert!(accept_signal(&payload, "start"));

    let wrong = notify_message("stop").unwrap();
    let payload = decode_frame(wrong.as_slice()).unwrap();
    assert!(!accept_signal(&payload, "start"));
}
