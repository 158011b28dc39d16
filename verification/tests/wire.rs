use scadm_core::conn::{
    client_fifo_paths, decode_pid, encode_pid, fifo_c_path, frame_message, message_length,
    server_fifo_paths, DummyConnection, Listener, Pipe, HEADER_LEN,
};
use scadm_core::frame::Frame;

#[test]
fn listener_exists_only_when_the_fifo_was_made() {
    let l = Listener::new(String::from("/tmp/scadmd.sock"), 0).unwrap();
    assert_eq!(l.path(), "/tmp/scadmd.sock");
    assert!(Listener::new(String::from("/tmp/scadmd.sock"), -1).is_none());
}

#[test]
fn c_path_is_nul_terminated() {
    assert_eq!(fifo_c_path("/tmp/a"), vec![b'/', b't', b'm', b'p', b'/', b'a', 0]);
    assert_eq!(fifo_c_path(""), vec![0]);
}

#[test]
fn fifo_paths_of_both_ends() {
    let s = server_fifo_paths(4242);
    assert_eq!(s.read, "/tmp/rust-fifo-read.4242");
    assert_eq!(s.write, "/tmp/rust-fifo-write.4242");
    let c = client_fifo_paths(4242);
    assert_eq!(c.read, s.write);
    assert_eq!(c.write, s.read);
    assert_ne!(server_fifo_paths(1).read, server_fifo_paths(11).read);
}

#[test]
fn pid_handshake_roundtrip() {
    let bytes = encode_pid(0x01020304);
    assert_eq!(bytes, vec![4, 3, 2, 1]);
    assert_eq!(decode_pid(&bytes), 0x01020304);
    for pid in [0u32, 1, 65535, u32::MAX] {
        assert_eq!(decode_pid(&encode_pid(pid)), pid);
    }
}

#[test]
fn messages_are_framed_with_their_length() {
    let framed = frame_message(&[9, 8, 7]);
    assert_eq!(framed, vec![3, 0, 0, 0, 0, 0, 0, 0, 9, 8, 7]);
    assert_eq!(message_length(&framed[..HEADER_LEN]), Some(3));
    assert_eq!(&framed[HEADER_LEN..], &[9, 8, 7]);
    let empty = frame_message(&[]);
    assert_eq!(empty.len(), HEADER_LEN);
    assert_eq!(message_length(&empty), Some(0));
    assert_eq!(message_length(&[0, 1, 0, 0, 0, 0, 0, 0]), Some(256));
}

#[test]
fn dummy_connection_drops_and_defaults() {
    let mut d = DummyConnection;
    assert!(Pipe::<Frame>::send_message(&mut d, &Frame::Stop()).is_ok());
    let got: Frame = Pipe::<Frame>::recv_message(&mut d).unwrap();
    assert!(matches!(got, Frame::Dummy()));
}

#[test]
fn default_frame_is_dummy() {
    assert!(matches!(Frame::default(), Frame::Dummy()));
}
