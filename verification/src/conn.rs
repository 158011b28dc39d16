use vstd::prelude::*;
use vstd::bytes::{spec_u32_from_le_bytes, spec_u32_to_le_bytes, spec_u64_from_le_bytes, spec_u64_to_le_bytes};
use vstd::string::StringSliceAdditionalSpecFns;

use crate::error::Error;
use crate::numtext::{decimal, push_decimal, lemma_decimal_injective};

verus! {

/// A FIFO on which the daemon waits for clients.
pub struct Listener {
    path: String,
}

impl View for Listener {
    type V = Seq<char>;

    closed spec fn view(&self) -> Seq<char> {
        self.path@
    }
}

impl Listener {
    /// The listener on `path`, once `mkfifo` has answered `mkfifo_status` for
    /// it: there is one exactly when the FIFO was created (status 0).
    pub fn new(path: String, mkfifo_status: i32) -> (r: Option<Listener>)
        ensures
            r is Some <==> mkfifo_status == 0,
            r matches Some(l) ==> l@ == path@,
    {
        if mkfifo_status != 0 {
            None
        } else {
            Some(Listener { path })
        }
    }

    /// The path of the FIFO.
    pub fn path(&self) -> (r: &str)
        ensures
            r@ == self@,
    {
        self.path.as_str()
    }
}

/// The path in the form `mkfifo` takes: its bytes followed by a NUL byte.
pub fn fifo_c_path(path: &str) -> (r: Vec<u8>)
    ensures
        r@ == path.spec_bytes().push(0u8),
{
    let mut bytes = path.as_bytes_vec();
    bytes.push(0u8);
    bytes
}

/// The sending and receiving ends of a connection.
pub trait Pipe<Message> {
    fn send_message(&mut self, msg: &Message) -> Result<(), Error>;

    fn recv_message(&mut self) -> (r: Result<Message, Error>);
}

/// A connection that drops what is sent and receives default messages.
pub struct DummyConnection;

impl<M: Default> Pipe<M> for DummyConnection {
    fn send_message(&mut self, _msg: &M) -> (r: Result<(), Error>)
        ensures
            r is Ok,
    {
        Ok(())
    }

    /// Always succeeds, with `M::default()`.
    fn recv_message(&mut self) -> (r: Result<M, Error>)
        ensures
            r matches Ok(m) && call_ensures(M::default, (), m),
    {
        Ok(M::default())
    }
}

// ---------------------------------------------------------------------------
// The per-client FIFOs

/// `/tmp/rust-fifo-read.<pid>`: the daemon reads from it, the client writes.
pub open spec fn fifo_read_text(pid: u32) -> Seq<char> {
    "/tmp/rust-fifo-read."@ + decimal(pid as nat)
}

/// `/tmp/rust-fifo-write.<pid>`: the daemon writes to it, the client reads.
pub open spec fn fifo_write_text(pid: u32) -> Seq<char> {
    "/tmp/rust-fifo-write."@ + decimal(pid as nat)
}

/// The two FIFOs of one end of a connection.
pub struct FifoPaths {
    /// The FIFO this end reads from.
    pub read: String,
    /// The FIFO this end writes to.
    pub write: String,
}

fn fifo_path(prefix: &str, pid: u32) -> (r: String)
    ensures
        r@ == prefix@ + decimal(pid as nat),
{
    let mut p = String::from_str(prefix);
    push_decimal(&mut p, pid as u64);
    p
}

/// The FIFOs the daemon opens for the client with process id `pid`.
pub fn server_fifo_paths(pid: u32) -> (r: FifoPaths)
    ensures
        r.read@ == fifo_read_text(pid),
        r.write@ == fifo_write_text(pid),
{
    FifoPaths {
        read: fifo_path("/tmp/rust-fifo-read.", pid),
        write: fifo_path("/tmp/rust-fifo-write.", pid),
    }
}

/// The FIFOs the client with process id `pid` creates for itself.
pub fn client_fifo_paths(pid: u32) -> (r: FifoPaths)
    ensures
        r.read@ == fifo_write_text(pid),
        r.write@ == fifo_read_text(pid),
{
    FifoPaths {
        read: fifo_path("/tmp/rust-fifo-write.", pid),
        write: fifo_path("/tmp/rust-fifo-read.", pid),
    }
}

/// Each end writes where the other reads; the read and the write FIFO are
/// never the same file, and clients with different process ids never share a
/// FIFO.
pub proof fn lemma_fifo_paths_agree(pid: u32, other: u32)
    ensures
        fifo_read_text(pid) != fifo_write_text(other),
        fifo_read_text(pid) == fifo_read_text(other) ==> pid == other,
        fifo_write_text(pid) == fifo_write_text(other) ==> pid == other,
{
    reveal_strlit("/tmp/rust-fifo-read.");
    reveal_strlit("/tmp/rust-fifo-write.");
    let r = "/tmp/rust-fifo-read."@;
    let w = "/tmp/rust-fifo-write."@;
    assert(fifo_read_text(pid)[15] == 'r');
    assert(fifo_write_text(other)[15] == 'w');
    if fifo_read_text(pid) == fifo_read_text(other) {
        assert(decimal(pid as nat) =~= fifo_read_text(pid).skip(r.len() as int));
        assert(decimal(other as nat) =~= fifo_read_text(other).skip(r.len() as int));
        lemma_decimal_injective(pid as nat, other as nat);
    }
    if fifo_write_text(pid) == fifo_write_text(other) {
        assert(decimal(pid as nat) =~= fifo_write_text(pid).skip(w.len() as int));
        assert(decimal(other as nat) =~= fifo_write_text(other).skip(w.len() as int));
        lemma_decimal_injective(pid as nat, other as nat);
    }
}

// ---------------------------------------------------------------------------
// The handshake and the message framing

/// The bytes a client sends to announce its process id.
pub fn encode_pid(pid: u32) -> (r: Vec<u8>)
    ensures
        r@ == spec_u32_to_le_bytes(pid),
        r@.len() == 4,
{
    vstd::bytes::u32_to_le_bytes(pid)
}

/// The process id the daemon reads from a client's announcement.
pub fn decode_pid(bytes: &[u8]) -> (r: u32)
    requires
        bytes@.len() == 4,
    ensures
        r == spec_u32_from_le_bytes(bytes@),
{
    vstd::bytes::u32_from_le_bytes(bytes)
}

/// The daemon reads back exactly the process id the client announced.
pub proof fn lemma_pid_roundtrip(pid: u32)
    ensures
        spec_u32_from_le_bytes(spec_u32_to_le_bytes(pid)) == pid,
        spec_u32_to_le_bytes(pid).len() == 4,
{
    vstd::bytes::lemma_auto_spec_u32_to_from_le_bytes();
}

/// The length of the header that precedes every message.
pub const HEADER_LEN: usize = 8;

/// A message on the wire: its length as 8 little-endian bytes, then the
/// message.
pub open spec fn framed(payload: Seq<u8>) -> Seq<u8> {
    spec_u64_to_le_bytes(payload.len() as u64) + payload
}

/// Puts the length header in front of a serialized message.
pub fn frame_message(payload: &[u8]) -> (r: Vec<u8>)
    ensures
        r@ == framed(payload@),
{
    let mut bytes = vstd::bytes::u64_to_le_bytes(payload.len() as u64);
    let mut rest = vstd::slice::slice_to_vec(payload);
    bytes.append(&mut rest);
    bytes
}

/// The length a message header announces, where it fits in a `usize`.
pub fn message_length(header: &[u8]) -> (r: Option<usize>)
    requires
        header@.len() == HEADER_LEN,
    ensures
        r == (if spec_u64_from_le_bytes(header@) <= usize::MAX {
            Some(spec_u64_from_le_bytes(header@) as usize)
        } else {
            None::<usize>
        }),
{
    let len = vstd::bytes::u64_from_le_bytes(header);
    if len <= usize::MAX as u64 {
        Some(len as usize)
    } else {
        None
    }
}

/// The receiver reads back exactly the length and the bytes that were framed.
pub proof fn lemma_framing_roundtrip(payload: Seq<u8>)
    requires
        payload.len() <= usize::MAX,
    ensures
        framed(payload).len() == HEADER_LEN + payload.len(),
        spec_u64_from_le_bytes(framed(payload).subrange(0, HEADER_LEN as int)) == payload.len(),
        framed(payload).subrange(HEADER_LEN as int, framed(payload).len() as int) == payload,
{
    vstd::bytes::lemma_auto_spec_u64_to_from_le_bytes();
    let h = spec_u64_to_le_bytes(payload.len() as u64);
    assert(framed(payload).subrange(0, HEADER_LEN as int) =~= h);
    assert(framed(payload).subrange(HEADER_LEN as int, framed(payload).len() as int) =~= payload);
}

} // verus!
