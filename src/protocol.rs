//! Wire format of the control protocol: command identifiers, packet layout
//! and the reply of a query. Every multi-byte field is little-endian.
use vstd::prelude::*;
use vstd::string::StringSliceAdditionalSpecFns;
use crate::config::TalkConfig;
use crate::error::MyError;

verus! {

/// Identifier of the speech command, the one command that carries a payload.
pub const TALK_COMMAND: i16 = 1;

/// A command that travels as its bare identifier, with no payload.
#[derive(Debug, Clone, Copy, PartialEq, Eq, Structural)]
pub enum Command {
    Pause,
    Resume,
    Skip,
    Clear,
    QueryPause,
    QueryPlaying,
    QueryRemainingTasks,
}

/// The identifier of each bare command.
pub open spec fn command_id(c: Command) -> i16 {
    match c {
        Command::Pause => 0x10,
        Command::Resume => 0x20,
        Command::Skip => 0x30,
        Command::Clear => 0x40,
        Command::QueryPause => 0x110,
        Command::QueryPlaying => 0x120,
        Command::QueryRemainingTasks => 0x130,
    }
}

/// Whether the application answers the command with one byte.
pub open spec fn is_query(c: Command) -> bool {
    c is QueryPause || c is QueryPlaying || c is QueryRemainingTasks
}

impl Command {
    /// The identifier sent on the wire.
    pub fn id(&self) -> (r: i16)
        ensures
            r == command_id(*self),
    {
        match self {
            Command::Pause => 0x10,
            Command::Resume => 0x20,
            Command::Skip => 0x30,
            Command::Clear => 0x40,
            Command::QueryPause => 0x110,
            Command::QueryPlaying => 0x120,
            Command::QueryRemainingTasks => 0x130,
        }
    }

    /// Whether the application answers with one byte.
    pub fn expects_reply(&self) -> (r: bool)
        ensures
            r == is_query(*self),
    {
        match self {
            Command::QueryPause | Command::QueryPlaying | Command::QueryRemainingTasks => true,
            _ => false,
        }
    }
}

/// The two bytes of `v` in two's complement, least significant first.
pub open spec fn le16(v: i16) -> Seq<u8> {
    let u: int = if v < 0 { v + 0x10000 } else { v as int };
    seq![(u % 0x100) as u8, (u / 0x100) as u8]
}

/// The four bytes of `v`, least significant first.
pub open spec fn le32(v: u32) -> Seq<u8> {
    seq![
        (v % 0x100) as u8,
        (v / 0x100 % 0x100) as u8,
        (v / 0x10000 % 0x100) as u8,
        (v / 0x1000000) as u8,
    ]
}

/// The packet of a bare command: its identifier alone.
pub open spec fn command_packet(c: Command) -> Seq<u8> {
    le16(command_id(c))
}

/// The packet that asks for `message` (its UTF-8 bytes) to be spoken with
/// `config`: identifier, speed, tone, volume, voice, code, byte length of the
/// message, then the message.
pub open spec fn talk_packet(config: TalkConfig, message: Seq<u8>) -> Seq<u8> {
    le16(TALK_COMMAND) + le16(config.speed) + le16(config.tone) + le16(config.volume)
        + le16(config.voice) + seq![config.code] + le32(message.len() as u32) + message
}

/// Size of everything in a speech packet that comes before the message.
pub open spec fn talk_header_len() -> nat {
    15
}

fn push_le16(out: &mut Vec<u8>, v: i16)
    ensures
        final(out)@ == old(out)@ + le16(v),
{
    let u: u16 = if v < 0 {
        (v as i32 + 0x10000) as u16
    } else {
        v as u16
    };
    out.push((u % 0x100) as u8);
    out.push((u / 0x100) as u8);
    assert(final(out)@ =~= old(out)@ + le16(v));
}

fn push_le32(out: &mut Vec<u8>, v: u32)
    ensures
        final(out)@ == old(out)@ + le32(v),
{
    out.push((v % 0x100) as u8);
    out.push((v / 0x100 % 0x100) as u8);
    out.push((v / 0x10000 % 0x100) as u8);
    out.push((v / 0x1000000) as u8);
    assert(final(out)@ =~= old(out)@ + le32(v));
}

/// The signed 16-bit value stored least significant byte first at `at`.
pub open spec fn read_le16(b: Seq<u8>, at: int) -> int {
    let u = b[at] + 0x100 * b[at + 1];
    if u >= 0x8000 { u - 0x10000 } else { u }
}

/// The signed 16-bit value stored most significant byte first at `at`.
pub open spec fn read_be16(b: Seq<u8>, at: int) -> int {
    let u = 0x100 * b[at] + b[at + 1];
    if u >= 0x8000 { u - 0x10000 } else { u }
}

/// The unsigned 32-bit value stored least significant byte first at `at`.
pub open spec fn read_le32(b: Seq<u8>, at: int) -> int {
    b[at] + 0x100 * b[at + 1] + 0x10000 * b[at + 2] + 0x1000000 * b[at + 3]
}

/// The unsigned 32-bit value stored most significant byte first at `at`.
pub open spec fn read_be32(b: Seq<u8>, at: int) -> int {
    0x1000000 * b[at] + 0x10000 * b[at + 1] + 0x100 * b[at + 2] + b[at + 3]
}

proof fn lemma_le16_reads_back(v: i16)
    ensures
        le16(v).len() == 2,
        read_le16(le16(v), 0) == v,
{
}

proof fn lemma_le32_reads_back(v: u32)
    ensures
        le32(v).len() == 4,
        read_le32(le32(v), 0) == v,
{
}

/// The speech packet is byte for byte a function of the settings and of the
/// characters of the message: two messages with the same characters encode
/// to the same packet.
pub proof fn lemma_talk_packet_deterministic(config: TalkConfig, first: &str, second: &str)
    requires
        first@ == second@,
    ensures
        talk_packet(config, first.spec_bytes()) == talk_packet(config, second.spec_bytes()),
{
}

/// Layout of a speech packet for a message of `n` bytes: `15 + n` bytes in
/// all; read little-endian at their offsets, the fields give back the
/// identifier, the settings and `n`, and the message follows the header.
pub proof fn lemma_talk_packet_layout(config: TalkConfig, message: Seq<u8>)
    requires
        message.len() <= u32::MAX,
    ensures
        ({
            let p = talk_packet(config, message);
            &&& p.len() == talk_header_len() + message.len()
            &&& read_le16(p, 0) == TALK_COMMAND
            &&& read_le16(p, 2) == config.speed
            &&& read_le16(p, 4) == config.tone
            &&& read_le16(p, 6) == config.volume
            &&& read_le16(p, 8) == config.voice
            &&& p[10] == config.code
            &&& read_le32(p, 11) == message.len()
            &&& p.subrange(15, p.len() as int) == message
        }),
{
    let p = talk_packet(config, message);
    lemma_le16_reads_back(TALK_COMMAND);
    lemma_le16_reads_back(config.speed);
    lemma_le16_reads_back(config.tone);
    lemma_le16_reads_back(config.volume);
    lemma_le16_reads_back(config.voice);
    lemma_le32_reads_back(message.len() as u32);
    assert(p.subrange(0, 2) =~= le16(TALK_COMMAND));
    assert(p.subrange(2, 4) =~= le16(config.speed));
    assert(p.subrange(4, 6) =~= le16(config.tone));
    assert(p.subrange(6, 8) =~= le16(config.volume));
    assert(p.subrange(8, 10) =~= le16(config.voice));
    assert(p.subrange(11, 15) =~= le32(message.len() as u32));
    assert(p.subrange(15, p.len() as int) =~= message);
}

/// A 16-bit field read back most significant byte first gives another value,
/// unless its two bytes are equal.
pub proof fn lemma_le16_big_endian_mismatch(v: i16)
    requires
        le16(v)[0] != le16(v)[1],
    ensures
        read_be16(le16(v), 0) != v,
{
    lemma_le16_reads_back(v);
}

/// A 32-bit field read back most significant byte first gives another value,
/// unless its bytes read the same in both directions.
pub proof fn lemma_le32_big_endian_mismatch(v: u32)
    requires
        le32(v) != le32(v).reverse(),
    ensures
        read_be32(le32(v), 0) != v,
{
    let b = le32(v);
    lemma_le32_reads_back(v);
    if read_be32(b, 0) == v {
        let (b0, b1, b2, b3) = (b[0] as int, b[1] as int, b[2] as int, b[3] as int);
        assert(b0 == b3 && b1 == b2) by (nonlinear_arith)
            requires
                0 <= b0 < 256, 0 <= b1 < 256, 0 <= b2 < 256, 0 <= b3 < 256,
                b0 + 0x100 * b1 + 0x10000 * b2 + 0x1000000 * b3
                    == 0x1000000 * b0 + 0x10000 * b1 + 0x100 * b2 + b3,
        ;
        assert(b =~= b.reverse());
    }
}

/// Encodes a bare command: always exactly two bytes.
pub fn encode_command(command: Command) -> (r: Vec<u8>)
    ensures
        r@ == command_packet(command),
        r@.len() == 2,
{
    let mut out: Vec<u8> = Vec::new();
    push_le16(&mut out, command.id());
    assert(out@ =~= command_packet(command));
    out
}

/// Encodes the request to speak `message` with `config`.
pub fn encode_talk(config: &TalkConfig, message: &str) -> (r: Vec<u8>)
    requires
        message.spec_bytes().len() <= u32::MAX,
    ensures
        r@ == talk_packet(*config, message.spec_bytes()),
        r@.len() == talk_header_len() + message.spec_bytes().len(),
{
    let bytes = message.as_bytes();
    let mut out: Vec<u8> = Vec::new();
    push_le16(&mut out, TALK_COMMAND);
    push_le16(&mut out, config.speed);
    push_le16(&mut out, config.tone);
    push_le16(&mut out, config.volume);
    push_le16(&mut out, config.voice);
    out.push(config.code);
    push_le32(&mut out, bytes.len() as u32);
    let ghost header = out@;
    assert(header =~= talk_packet(*config, bytes@).subrange(0, 15));
    let mut i: usize = 0;
    while i < bytes.len()
        invariant
            i <= bytes@.len(),
            out@ == header + bytes@.subrange(0, i as int),
        decreases bytes@.len() - i,
    {
        out.push(bytes[i]);
        i = i + 1;
        assert(out@ =~= header + bytes@.subrange(0, i as int));
    }
    assert(bytes@.subrange(0, i as int) =~= bytes@);
    assert(out@ =~= talk_packet(*config, message.spec_bytes()));
    out
}

/// The answer to a query: the first byte the application sent back, or a
/// protocol error when it sent nothing.
pub fn reply_byte(reply: &Vec<u8>) -> (r: Result<u8, MyError>)
    ensures
        reply@.len() > 0 <==> r is Ok,
        r matches Ok(b) ==> b == reply@[0],
        r is Err ==> r matches Err(MyError::OtherError(_)),
{
    if reply.len() > 0 {
        Ok(reply[0])
    } else {
        Err(MyError::OtherError("the application sent no reply".to_string()))
    }
}

} // verus!
