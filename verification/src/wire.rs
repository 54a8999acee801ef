//! OSC messages as this library sends them, and their byte encoding.

use vstd::prelude::*;
use vstd::utf8::encode_utf8;

verus! {

/// One argument of an outgoing OSC message.
pub enum OscArg {
    Str(String),
    Bool(bool),
}

/// An OSC message: an address pattern and its arguments.
pub struct OscMessage {
    pub addr: String,
    pub args: Vec<OscArg>,
}

#[verifier::external_type_specification]
#[verifier::external_body]
pub struct ExOscError(rosc::OscError);

/// An OSC-string: the bytes, then one to four NUL bytes so that the
/// total length is a multiple of four.
pub open spec fn osc_padded(bytes: Seq<u8>) -> Seq<u8> {
    bytes + Seq::new((4 - bytes.len() % 4) as nat, |i: int| 0u8)
}

/// The type tag character of one argument (`s`, `T` or `F`).
pub open spec fn type_tag(arg: OscArg) -> u8 {
    match arg {
        OscArg::Str(_) => 0x73u8,
        OscArg::Bool(b) => if b { 0x54u8 } else { 0x46u8 },
    }
}

/// The type tags of the arguments, in order.
pub open spec fn type_tags(args: Seq<OscArg>) -> Seq<u8>
    decreases args.len(),
{
    if args.len() == 0 {
        Seq::empty()
    } else {
        type_tags(args.drop_last()).push(type_tag(args.last()))
    }
}

/// The data bytes of one argument; a boolean carries none.
pub open spec fn arg_payload(arg: OscArg) -> Seq<u8> {
    match arg {
        OscArg::Str(s) => osc_padded(encode_utf8(s@)),
        OscArg::Bool(_) => Seq::empty(),
    }
}

/// The data bytes of all arguments, in order.
pub open spec fn payloads(args: Seq<OscArg>) -> Seq<u8>
    decreases args.len(),
{
    if args.len() == 0 {
        Seq::empty()
    } else {
        payloads(args.drop_last()) + arg_payload(args.last())
    }
}

/// The OSC 1.0 encoding of a message: the address as an OSC-string, the
/// type tag string (a comma, then one tag per argument) as an OSC-string,
/// then the argument data.
pub open spec fn osc_message_bytes(addr: Seq<char>, args: Seq<OscArg>) -> Seq<u8> {
    osc_padded(encode_utf8(addr)) + osc_padded(seq![0x2Cu8] + type_tags(args)) + payloads(args)
}

/// Calls `rosc::encoder::encode` on the message converted to `rosc`'s
/// packet type. As its source shows, encoding into a `Vec` never fails, and
/// the bytes follow the OSC 1.0 layout stated by `osc_message_bytes`.
#[verifier::external_body]
fn rosc_encode(msg: &OscMessage) -> (r: Result<Vec<u8>, rosc::OscError>)
    ensures
        r is Ok,
        r matches Ok(bytes) ==> bytes@ == osc_message_bytes(msg.addr@, msg.args@),
{
    let args = msg.args.iter().map(|a| match a {
        OscArg::Str(s) => rosc::OscType::String(s.clone()),
        OscArg::Bool(b) => rosc::OscType::Bool(*b),
    }).collect();
    rosc::encoder::encode(&rosc::OscPacket::Message(rosc::OscMessage { addr: msg.addr.clone(), args }))
}

/// Encodes a message into one OSC packet.
pub fn encode_message(msg: &OscMessage) -> (bytes: Vec<u8>)
    ensures
        bytes@ == osc_message_bytes(msg.addr@, msg.args@),
{
    rosc_encode(msg).unwrap()
}

/// An OSC-string is four-byte aligned and one to four bytes longer than
/// its content.
pub proof fn osc_padded_is_aligned(bytes: Seq<u8>)
    ensures
        osc_padded(bytes).len() % 4 == 0,
        bytes.len() < osc_padded(bytes).len() <= bytes.len() + 4,
        osc_padded(bytes).subrange(0, bytes.len() as int) == bytes,
        osc_padded(bytes)[bytes.len() as int] == 0u8,
{
    assert(osc_padded(bytes).subrange(0, bytes.len() as int) =~= bytes);
}

proof fn payloads_aligned(args: Seq<OscArg>)
    ensures
        payloads(args).len() % 4 == 0,
    decreases args.len(),
{
    if args.len() > 0 {
        payloads_aligned(args.drop_last());
        match args.last() {
            OscArg::Str(s) => osc_padded_is_aligned(encode_utf8(s@)),
            OscArg::Bool(_) => {},
        }
    }
}

proof fn type_tags_len(args: Seq<OscArg>)
    ensures
        type_tags(args).len() == args.len(),
    decreases args.len(),
{
    if args.len() > 0 {
        type_tags_len(args.drop_last());
    }
}

/// Every encoded OSC message is a whole number of four-byte words, as
/// OSC 1.0 requires of a packet, and it holds one type tag per argument.
pub proof fn osc_message_is_aligned(addr: Seq<char>, args: Seq<OscArg>)
    ensures
        osc_message_bytes(addr, args).len() % 4 == 0,
        type_tags(args).len() == args.len(),
{
    osc_padded_is_aligned(encode_utf8(addr));
    osc_padded_is_aligned(seq![0x2Cu8] + type_tags(args));
    payloads_aligned(args);
    type_tags_len(args);
}

} // verus!
