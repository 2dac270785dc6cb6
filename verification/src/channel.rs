//! The named channel of one host process: its name, its handle and what a
//! read on it produced.

use vstd::prelude::*;
use vstd::string::*;
use crate::error::ListenerError;
use crate::message::MSG_LENGTH;
use crate::platform::{
    already_exists, invalid_handle, invalid_handle_code, CODE_ALREADY_EXISTS, CODE_INVALID_HANDLE,
    NO_HANDLE,
};

verus! {

/// The sixteen lowercase hexadecimal digits, by value.
pub open spec fn hex_alphabet() -> Seq<char> {
    seq!['0', '1', '2', '3', '4', '5', '6', '7', '8', '9', 'a', 'b', 'c', 'd', 'e', 'f']
}

/// Lowercase hexadecimal notation of `n`, most significant digit first,
/// without leading zeros; zero is written `0`.
pub open spec fn hex_digits(n: nat) -> Seq<char>
    decreases n,
{
    if n < 16 {
        seq![hex_alphabet()[n as int]]
    } else {
        hex_digits(n / 16).push(hex_alphabet()[(n % 16) as int])
    }
}

/// The namespace part of every channel name.
pub open spec fn namespace_prefix() -> Seq<char> {
    "\\\\.\\mailsot\\"@
}

/// What every channel name of this listener starts with, after the namespace.
pub open spec fn name_stem() -> Seq<char> {
    "im_conversion_listener_"@
}

/// The channel name of the host process `pid`.
pub open spec fn channel_name_spec(pid: u32) -> Seq<char> {
    namespace_prefix() + name_stem() + hex_digits(pid as nat)
}

fn digit_text(digit: u32) -> (text: &'static str)
    requires
        digit < 16,
    ensures
        text@ == seq![hex_alphabet()[digit as int]],
{
    proof {
        reveal_strlit("0");
        reveal_strlit("1");
        reveal_strlit("2");
        reveal_strlit("3");
        reveal_strlit("4");
        reveal_strlit("5");
        reveal_strlit("6");
        reveal_strlit("7");
        reveal_strlit("8");
        reveal_strlit("9");
        reveal_strlit("a");
        reveal_strlit("b");
        reveal_strlit("c");
        reveal_strlit("d");
        reveal_strlit("e");
        reveal_strlit("f");
    }
    let text = match digit {
        0 => "0",
        1 => "1",
        2 => "2",
        3 => "3",
        4 => "4",
        5 => "5",
        6 => "6",
        7 => "7",
        8 => "8",
        9 => "9",
        10 => "a",
        11 => "b",
        12 => "c",
        13 => "d",
        14 => "e",
        _ => "f",
    };
    assert(text@ =~= seq![hex_alphabet()[digit as int]]);
    text
}

/// Appends the lowercase hexadecimal notation of `n` to `out`.
pub fn push_hex(out: &mut String, n: u32)
    ensures
        final(out)@ == old(out)@ + hex_digits(n as nat),
    decreases n,
{
    if n < 16 {
        out.append(digit_text(n));
    } else {
        push_hex(out, n / 16);
        out.append(digit_text(n % 16));
        assert(out@ =~= old(out)@ + hex_digits(n as nat));
    }
}

/// The name of the channel of host process `pid`: the namespace, the stem
/// and the process identifier in lowercase hexadecimal. Listener and
/// controller both derive it from the identifier alone.
pub fn channel_name(pid: u32) -> (name: String)
    ensures
        name@ == channel_name_spec(pid),
{
    let mut name = String::from_str("\\\\.\\mailsot\\");
    name.append("im_conversion_listener_");
    push_hex(&mut name, pid);
    name
}

/// Two different digit values are written with different digits.
proof fn lemma_alphabet_distinct(i: int, j: int)
    requires
        0 <= i < 16,
        0 <= j < 16,
        hex_alphabet()[i] == hex_alphabet()[j],
    ensures
        i == j,
{
}

/// A number is written with at least one digit, and with at least two from
/// sixteen on.
pub proof fn lemma_hex_digits_len(n: nat)
    ensures
        hex_digits(n).len() >= 1,
        n >= 16 ==> hex_digits(n).len() >= 2,
    decreases n,
{
    if n >= 16 {
        lemma_hex_digits_len(n / 16);
    }
}

/// Different numbers are written differently.
pub proof fn lemma_hex_digits_injective(a: nat, b: nat)
    requires
        hex_digits(a) == hex_digits(b),
    ensures
        a == b,
    decreases a,
{
    lemma_hex_digits_len(a);
    lemma_hex_digits_len(b);
    if a < 16 && b < 16 {
        assert(hex_digits(a)[0] == hex_alphabet()[a as int]);
        assert(hex_digits(b)[0] == hex_alphabet()[b as int]);
        lemma_alphabet_distinct(a as int, b as int);
    } else if a >= 16 && b >= 16 {
        let high_a = hex_digits(a / 16);
        let high_b = hex_digits(b / 16);
        let low_a = hex_alphabet()[(a % 16) as int];
        let low_b = hex_alphabet()[(b % 16) as int];
        assert(high_a.push(low_a).last() == high_b.push(low_b).last());
        assert(high_a =~= high_a.push(low_a).drop_last());
        assert(high_b =~= high_b.push(low_b).drop_last());
        lemma_alphabet_distinct((a % 16) as int, (b % 16) as int);
        lemma_hex_digits_injective(a / 16, b / 16);
    } else if a < 16 {
        assert(hex_digits(a).len() == 1);
    } else {
        assert(hex_digits(b).len() == 1);
    }
}

/// Two host processes have the same channel name exactly if they are the
/// same process: whoever knows the process identifier arrives at the one
/// name, and no two processes share a channel.
pub proof fn lemma_channel_name_injective(pid: u32, other: u32)
    ensures
        channel_name_spec(pid) == channel_name_spec(other) <==> pid == other,
{
    if channel_name_spec(pid) == channel_name_spec(other) {
        let lead = namespace_prefix() + name_stem();
        let name = channel_name_spec(pid);
        assert(hex_digits(pid as nat) =~= name.subrange(lead.len() as int, name.len() as int));
        assert(hex_digits(other as nat) =~= name.subrange(lead.len() as int, name.len() as int));
        lemma_hex_digits_injective(pid as nat, other as nat);
    }
}

/// What the listener knows of its channel: the handle, and whether it is open.
pub struct ChannelView {
    pub handle: isize,
    pub open: bool,
}

/// The channel of one host process. The value is not copyable and closes at
/// most once: [`Channel::close`] hands the handle out only while it is open.
#[derive(Debug)]
pub struct Channel {
    handle: isize,
    open: bool,
}

impl View for Channel {
    type V = ChannelView;

    closed spec fn view(&self) -> ChannelView {
        ChannelView { handle: self.handle, open: self.open }
    }
}

/// What an attempt to create the channel amounts to, given the handle that
/// came back and the platform's error code at that moment.
pub open spec fn create_result_spec(handle: isize, code: u32) -> Result<isize, ListenerError> {
    if handle != NO_HANDLE {
        Ok(handle)
    } else if code == CODE_ALREADY_EXISTS {
        Err(ListenerError::ChannelAlreadyExists)
    } else {
        Err(ListenerError::ChannelCreationFailed(code))
    }
}

/// Classifies an attempt to create the channel: any handle but the invalid
/// one is the channel's; the invalid one is `ChannelAlreadyExists` when the
/// code says that the name is taken, and `ChannelCreationFailed` with the
/// code otherwise.
pub fn create_result(handle: isize, code: u32) -> (created: Result<isize, ListenerError>)
    ensures
        created == create_result_spec(handle, code),
{
    if handle != invalid_handle() {
        Ok(handle)
    } else if code == already_exists() {
        Err(ListenerError::ChannelAlreadyExists)
    } else {
        Err(ListenerError::ChannelCreationFailed(code))
    }
}

impl Channel {
    /// Takes ownership of a freshly created channel. `handle` is what the
    /// platform returned and `code` its error code at that moment. The
    /// channel is open where [`create_result`] finds a handle, and the error
    /// is the one it finds otherwise.
    pub fn from_create(handle: isize, code: u32) -> (created: Result<Channel, ListenerError>)
        ensures
            match created {
                Ok(channel) => create_result_spec(handle, code) == Ok::<isize, ListenerError>(handle)
                    && channel@ == (ChannelView { handle, open: true }),
                Err(error) => create_result_spec(handle, code) == Err::<isize, ListenerError>(error),
            },
    {
        match create_result(handle, code) {
            Ok(handle) => Ok(Channel { handle, open: true }),
            Err(error) => Err(error),
        }
    }

    /// The platform handle, whether or not it is still open.
    pub fn handle(&self) -> (handle: isize)
        ensures
            handle == self@.handle,
    {
        self.handle
    }

    /// Whether the channel is open.
    pub fn is_open(&self) -> (open: bool)
        ensures
            open == self@.open,
    {
        self.open
    }

    /// The handle to write one message to: `ChannelWriteFailed` once the
    /// channel is closed, the handle while it is open.
    pub fn write_target(&self) -> (target: Result<isize, ListenerError>)
        ensures
            target == if self@.open {
                Ok::<isize, ListenerError>(self@.handle)
            } else {
                Err::<isize, ListenerError>(ListenerError::ChannelWriteFailed)
            },
    {
        if self.open {
            Ok(self.handle)
        } else {
            Err(ListenerError::ChannelWriteFailed)
        }
    }

    /// Closes the channel. The first call returns the handle, which the
    /// caller then releases; every later call returns `None`, so the handle
    /// is released once.
    pub fn close(&mut self) -> (released: Option<isize>)
        ensures
            final(self)@ == (ChannelView { handle: old(self)@.handle, open: false }),
            released == if old(self)@.open {
                Some(old(self)@.handle)
            } else {
                None::<isize>
            },
    {
        if self.open {
            self.open = false;
            Some(self.handle)
        } else {
            None
        }
    }

    /// Records that the channel was closed by someone else. Nothing is left
    /// to release.
    pub fn mark_closed(&mut self)
        ensures
            final(self)@ == (ChannelView { handle: old(self)@.handle, open: false }),
    {
        self.open = false;
    }
}

/// What one read on the channel produced.
#[derive(Clone, Copy, Debug, PartialEq, Eq, Structural)]
pub enum ReadOutcome {
    /// One message byte arrived.
    Byte(u8),
    /// The channel was closed while, or before, the read waited.
    Closed,
    /// The read failed for another reason; the platform's error code.
    Failed(u32),
}

/// How a finished read is classified: whether the platform reported
/// success, how many bytes it delivered, the byte in the buffer and the
/// platform's error code.
pub open spec fn read_outcome_spec(succeeded: bool, count: u32, byte: u8, code: u32) -> ReadOutcome {
    if succeeded && count == MSG_LENGTH {
        ReadOutcome::Byte(byte)
    } else if !succeeded && code == CODE_INVALID_HANDLE {
        ReadOutcome::Closed
    } else {
        ReadOutcome::Failed(code)
    }
}

/// Classifies a finished read. A successful read of exactly one byte is that
/// byte; a failed read on an invalid handle means that the channel is closed,
/// which is told apart from reading an exit message; anything else is a
/// failure with the platform's code.
pub fn read_outcome(succeeded: bool, count: u32, byte: u8, code: u32) -> (outcome: ReadOutcome)
    ensures
        outcome == read_outcome_spec(succeeded, count, byte, code),
{
    if succeeded && count == MSG_LENGTH {
        ReadOutcome::Byte(byte)
    } else if !succeeded && code == invalid_handle_code() {
        ReadOutcome::Closed
    } else {
        ReadOutcome::Failed(code)
    }
}

/// How a finished write of one message is classified: it succeeded if the
/// platform reported success and took the whole message.
pub open spec fn write_outcome_spec(succeeded: bool, count: u32) -> Result<(), ListenerError> {
    if succeeded && count == MSG_LENGTH {
        Ok(())
    } else {
        Err(ListenerError::ChannelWriteFailed)
    }
}

/// Classifies a finished write of one message.
pub fn write_outcome(succeeded: bool, count: u32) -> (outcome: Result<(), ListenerError>)
    ensures
        outcome == write_outcome_spec(succeeded, count),
{
    if succeeded && count == MSG_LENGTH {
        Ok(())
    } else {
        Err(ListenerError::ChannelWriteFailed)
    }
}

} // verus!
