//! The one-byte command protocol spoken over the channel.

use vstd::prelude::*;

verus! {

/// Wire tag of [`Message::Backup`].
pub const TAG_BACKUP: u8 = 0b0001;

/// Wire tag of [`Message::Recover`].
pub const TAG_RECOVER: u8 = 0b0010;

/// Wire tag of [`Message::Exit`].
pub const TAG_EXIT: u8 = 0b1000;

/// Wire tag that is never sent; it is what [`Message::Undefined`] encodes to.
pub const TAG_UNDEFINED: u8 = 0b0000;

/// Number of bytes in one message on the wire.
pub const MSG_LENGTH: u32 = 1;

/// A command delivered to the listener.
#[derive(Clone, Copy, Debug, PartialEq, Eq, Structural)]
pub enum Message {
    /// Remember the target window's conversion mode and switch it to alphanumeric.
    Backup,
    /// Restore the conversion mode remembered for the target window.
    Recover,
    /// Stop the read loop.
    Exit,
    /// Any byte that is not a defined tag.
    Undefined,
}

/// The message a wire byte stands for.
pub open spec fn decode_spec(byte: u8) -> Message {
    if byte == TAG_BACKUP {
        Message::Backup
    } else if byte == TAG_RECOVER {
        Message::Recover
    } else if byte == TAG_EXIT {
        Message::Exit
    } else {
        Message::Undefined
    }
}

/// The wire byte of a message.
pub open spec fn encode_spec(message: Message) -> u8 {
    match message {
        Message::Backup => TAG_BACKUP,
        Message::Recover => TAG_RECOVER,
        Message::Exit => TAG_EXIT,
        Message::Undefined => TAG_UNDEFINED,
    }
}

/// Encodes a message as its single wire byte.
pub fn encode(message: Message) -> (byte: u8)
    ensures
        byte == encode_spec(message),
{
    match message {
        Message::Backup => TAG_BACKUP,
        Message::Recover => TAG_RECOVER,
        Message::Exit => TAG_EXIT,
        Message::Undefined => TAG_UNDEFINED,
    }
}

/// Decodes one wire byte. Every byte decodes; a byte that is no defined tag
/// decodes to [`Message::Undefined`].
pub fn decode(byte: u8) -> (message: Message)
    ensures
        message == decode_spec(byte),
        message is Undefined <==> byte != TAG_BACKUP && byte != TAG_RECOVER && byte != TAG_EXIT,
{
    if byte == TAG_BACKUP {
        Message::Backup
    } else if byte == TAG_RECOVER {
        Message::Recover
    } else if byte == TAG_EXIT {
        Message::Exit
    } else {
        Message::Undefined
    }
}

/// Whether the message ends the read loop. Only an exit message does.
pub fn is_terminal(message: Message) -> (terminal: bool)
    ensures
        terminal == (message is Exit),
{
    match message {
        Message::Exit => true,
        _ => false,
    }
}

/// Decoding undoes encoding, for every message.
pub proof fn lemma_decode_encode(message: Message)
    ensures
        decode_spec(encode_spec(message)) == message,
{
}

/// Every byte decodes, and exactly the three defined tags decode to a
/// command: any other byte is `Undefined`.
pub proof fn lemma_decode_total(byte: u8)
    ensures
        byte == TAG_BACKUP <==> decode_spec(byte) is Backup,
        byte == TAG_RECOVER <==> decode_spec(byte) is Recover,
        byte == TAG_EXIT <==> decode_spec(byte) is Exit,
        (byte != TAG_BACKUP && byte != TAG_RECOVER && byte != TAG_EXIT) <==> decode_spec(byte)
            is Undefined,
{
}

/// Encoding undoes decoding exactly on the four bytes that are the encoding
/// of a message.
pub proof fn lemma_encode_decode(byte: u8)
    ensures
        encode_spec(decode_spec(byte)) == byte <==> (byte == TAG_UNDEFINED || byte == TAG_BACKUP
            || byte == TAG_RECOVER || byte == TAG_EXIT),
{
}

} // verus!
