//! Bus operations and the wire format of commands and color words.

use vstd::prelude::*;

verus! {

/// One event on the wires, as a mathematical value.
pub enum Signal {
    /// The mode-select line is driven low: what follows is a command.
    SelectCommand,
    /// The mode-select line is driven high: what follows is data.
    SelectData,
    /// The reset line is driven high.
    ResetHigh,
    /// The reset line is driven low.
    ResetLow,
    /// A blocking wait of that many milliseconds.
    Delay(u8),
    /// One bus write carrying these bytes.
    Write(Seq<u8>),
}

/// One step for the owner of the bus and the two output lines to perform.
#[derive(Clone, Debug, PartialEq, Eq)]
pub enum BusOp {
    /// Drive the mode-select line low.
    SelectCommand,
    /// Drive the mode-select line high.
    SelectData,
    /// Drive the reset line high.
    ResetHigh,
    /// Drive the reset line low.
    ResetLow,
    /// Wait that many milliseconds.
    DelayMs(u8),
    /// Write these bytes in a single bus transaction.
    Write(Vec<u8>),
}

impl DeepView for BusOp {
    type V = Signal;

    open spec fn deep_view(&self) -> Signal {
        match self {
            BusOp::SelectCommand => Signal::SelectCommand,
            BusOp::SelectData => Signal::SelectData,
            BusOp::ResetHigh => Signal::ResetHigh,
            BusOp::ResetLow => Signal::ResetLow,
            BusOp::DelayMs(ms) => Signal::Delay(*ms),
            BusOp::Write(bytes) => Signal::Write(bytes@),
        }
    }
}

/// The more significant byte of a 16-bit word.
pub open spec fn high_byte(word: u16) -> u8 {
    (word / 256) as u8
}

/// The less significant byte of a 16-bit word.
pub open spec fn low_byte(word: u16) -> u8 {
    (word % 256) as u8
}

/// A word on the wire: high byte first.
pub open spec fn word_bytes(word: u16) -> Seq<u8> {
    seq![high_byte(word), low_byte(word)]
}

/// The big-endian concatenation of a sequence of words.
pub open spec fn be_bytes(words: Seq<u16>) -> Seq<u8> {
    Seq::new(
        2 * words.len(),
        |i: int|
            if i % 2 == 0 {
                high_byte(words[i / 2])
            } else {
                low_byte(words[i / 2])
            },
    )
}

/// A command on the wire: the opcode with mode-select low, then, if there are
/// parameters, the parameters with mode-select high.
pub open spec fn command_frame(opcode: u8, params: Seq<u8>) -> Seq<Signal> {
    if params.len() == 0 {
        seq![Signal::SelectCommand, Signal::Write(seq![opcode])]
    } else {
        seq![
            Signal::SelectCommand,
            Signal::Write(seq![opcode]),
            Signal::SelectData,
            Signal::Write(params),
        ]
    }
}

/// Each word as a bus write of its own.
pub open spec fn word_writes(words: Seq<u16>) -> Seq<Signal> {
    Seq::new(words.len(), |k: int| Signal::Write(word_bytes(words[k])))
}

/// Bytes split into bus writes of 32 bytes, the last one carrying the rest.
pub open spec fn chunked_writes(bytes: Seq<u8>) -> Seq<Signal> {
    Seq::new(
        ((bytes.len() + 31) / 32) as nat,
        |k: int|
            Signal::Write(
                bytes.subrange(
                    32 * k,
                    if 32 * k + 32 <= bytes.len() {
                        32 * k + 32
                    } else {
                        bytes.len() as int
                    },
                ),
            ),
    )
}

/// Words streamed through the 16-word buffer: full buffers are flushed as they
/// fill, a partial one at the end. With no words at all the flush is empty.
pub open spec fn buffered_writes(words: Seq<u16>) -> Seq<Signal> {
    if words.len() == 0 {
        seq![Signal::Write(Seq::empty())]
    } else {
        chunked_writes(be_bytes(words))
    }
}

/// All bytes that a sequence of signals puts on the bus, in order.
pub open spec fn payload(signals: Seq<Signal>) -> Seq<u8>
    decreases signals.len(),
{
    if signals.len() == 0 {
        Seq::empty()
    } else {
        let rest = payload(signals.drop_last());
        match signals.last() {
            Signal::Write(bytes) => rest + bytes,
            _ => rest,
        }
    }
}

/// The bytes of two traces in a row are the bytes of the first followed by
/// the bytes of the second.
pub proof fn payload_of_concat(first: Seq<Signal>, second: Seq<Signal>)
    ensures
        payload(first + second) == payload(first) + payload(second),
    decreases second.len(),
{
    if second.len() == 0 {
        assert(first + second =~= first);
        assert(payload(first) + payload(second) =~= payload(first));
    } else {
        payload_of_concat(first, second.drop_last());
        assert((first + second).drop_last() =~= first + second.drop_last());
        assert((first + second).last() == second.last());
        match second.last() {
            Signal::Write(bytes) => {
                assert((payload(first) + payload(second.drop_last())) + bytes =~= payload(first)
                    + (payload(second.drop_last()) + bytes));
            },
            _ => {},
        }
    }
}

/// A single signal carries its bytes if it is a write, and none otherwise.
pub proof fn payload_of_one(signal: Signal)
    ensures
        payload(seq![signal]) == match signal {
            Signal::Write(bytes) => bytes,
            _ => Seq::empty(),
        },
{
    let one = seq![signal];
    assert(one.drop_last() =~= Seq::<Signal>::empty());
    assert(payload(one.drop_last()) =~= Seq::<u8>::empty());
    assert(one.last() == signal);
    match signal {
        Signal::Write(bytes) => {
            assert(Seq::<u8>::empty() + bytes =~= bytes);
        },
        _ => {},
    }
}

/// A command puts its opcode on the bus, then its parameters, and nothing
/// else: a command without parameters is exactly one byte.
pub proof fn command_frame_payload(opcode: u8, params: Seq<u8>)
    ensures
        payload(command_frame(opcode, params)) == seq![opcode] + params,
        params.len() == 0 ==> payload(command_frame(opcode, params)) == seq![opcode],
{
    let head = seq![Signal::SelectCommand];
    let code = seq![Signal::Write(seq![opcode])];
    payload_of_one(Signal::SelectCommand);
    payload_of_one(Signal::Write(seq![opcode]));
    payload_of_concat(head, code);
    assert(Seq::<u8>::empty() + seq![opcode] =~= seq![opcode]);
    if params.len() == 0 {
        assert(command_frame(opcode, params) =~= head + code);
        assert(seq![opcode] + params =~= seq![opcode]);
    } else {
        let data = seq![Signal::SelectData];
        let body = seq![Signal::Write(params)];
        payload_of_one(Signal::SelectData);
        payload_of_one(Signal::Write(params));
        payload_of_concat(head + code, data);
        payload_of_concat(head + code + data, body);
        assert(command_frame(opcode, params) =~= head + code + data + body);
        assert(seq![opcode] + Seq::<u8>::empty() =~= seq![opcode]);
    }
}

/// The first `count` writes of a chunked stream carry the first `32 * count`
/// bytes, or all of them where there are fewer.
pub proof fn chunked_writes_payload(bytes: Seq<u8>, count: nat)
    requires
        count <= chunked_writes(bytes).len(),
    ensures
        payload(chunked_writes(bytes).subrange(0, count as int)) == bytes.subrange(
            0,
            if 32 * count <= bytes.len() {
                32 * count as int
            } else {
                bytes.len() as int
            },
        ),
    decreases count,
{
    let chunks = chunked_writes(bytes);
    let taken = chunks.subrange(0, count as int);
    if count == 0 {
        assert(payload(taken) =~= bytes.subrange(0, 0));
    } else {
        chunked_writes_payload(bytes, (count - 1) as nat);
        let end = if 32 * count <= bytes.len() {
            32 * count as int
        } else {
            bytes.len() as int
        };
        assert(taken.drop_last() =~= chunks.subrange(0, count - 1));
        assert(taken.last() == Signal::Write(bytes.subrange(32 * (count - 1), end)));
        assert(bytes.subrange(0, 32 * (count - 1)) + bytes.subrange(32 * (count - 1), end)
            =~= bytes.subrange(0, end));
    }
}

/// Streaming one or more words through the buffer makes one bus write for
/// every sixteen words, rounded up. Every write but the last carries 32
/// bytes; the last carries two bytes for each word beyond a multiple of
/// sixteen, or 32 bytes where there is none. Together the writes carry the
/// words in order, each high byte first.
pub proof fn buffered_writes_law(words: Seq<u16>)
    requires
        words.len() > 0,
    ensures
        buffered_writes(words).len() == (words.len() + 15) / 16,
        forall|k: int|
            0 <= k < buffered_writes(words).len() - 1 ==> #[trigger] buffered_writes(words)[k]
                == Signal::Write(be_bytes(words).subrange(32 * k, 32 * k + 32)),
        buffered_writes(words).last() == Signal::Write(
            be_bytes(words).subrange(
                32 * (buffered_writes(words).len() - 1),
                2 * words.len() as int,
            ),
        ),
        2 * words.len() - 32 * (buffered_writes(words).len() - 1) == (if words.len() % 16 == 0 {
            32
        } else {
            2 * (words.len() % 16)
        }),
        payload(buffered_writes(words)) == be_bytes(words),
{
    let bytes = be_bytes(words);
    let chunks = chunked_writes(bytes);
    chunked_writes_payload(bytes, chunks.len());
    assert(chunks.subrange(0, chunks.len() as int) =~= chunks);
    assert(bytes.subrange(0, bytes.len() as int) =~= bytes);
}

/// Streaming no words makes one bus write without bytes.
pub proof fn buffered_writes_of_nothing()
    ensures
        buffered_writes(Seq::empty()) == seq![Signal::Write(Seq::empty())],
        payload(buffered_writes(Seq::empty())) == Seq::<u8>::empty(),
{
    payload_of_one(Signal::Write(Seq::empty()));
}

/// Writing words one by one makes one bus write of two bytes for each, and
/// the writes carry the words in order, each high byte first.
pub proof fn word_writes_law(words: Seq<u16>)
    ensures
        word_writes(words).len() == words.len(),
        payload(word_writes(words)) == be_bytes(words),
    decreases words.len(),
{
    if words.len() == 0 {
        assert(payload(word_writes(words)) =~= be_bytes(words));
    } else {
        let front = words.drop_last();
        word_writes_law(front);
        assert(word_writes(words).drop_last() =~= word_writes(front));
        assert(word_writes(words).last() == Signal::Write(word_bytes(words.last())));
        assert(be_bytes(front) + word_bytes(words.last()) =~= be_bytes(words));
    }
}

/// The more significant byte of `word`.
pub fn high_byte_of(word: u16) -> (byte: u8)
    ensures
        byte == high_byte(word),
{
    assert(word >> 8 == word / 256) by (bit_vector);
    (word >> 8) as u8
}

/// The less significant byte of `word`.
pub fn low_byte_of(word: u16) -> (byte: u8)
    ensures
        byte == low_byte(word),
{
    assert(word & 0xff == word % 256) by (bit_vector);
    (word & 0xff) as u8
}

} // verus!
