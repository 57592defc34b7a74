//! The inspection of captured traffic.
//!
//! Every chunk that a relay captures is looked at before it is forwarded: it
//! is appended to a message of its own, its bytes are rendered in hexadecimal,
//! and a string with a length prefix is read from the message. What is found
//! is for the eyes of an observer only; the chunk itself travels on as it
//! came.

use crate::error::NetworkMessageError;
use crate::message::{MessageView, NetworkMessage};
use vstd::prelude::*;
use vstd::string::StringExecFns;

verus! {

/// The hexadecimal digit for a value below sixteen, in lower case.
pub open spec fn hex_digit(value: u8) -> char {
    match value {
        0 => '0',
        1 => '1',
        2 => '2',
        3 => '3',
        4 => '4',
        5 => '5',
        6 => '6',
        7 => '7',
        8 => '8',
        9 => '9',
        10 => 'a',
        11 => 'b',
        12 => 'c',
        13 => 'd',
        14 => 'e',
        _ => 'f',
    }
}

/// A byte in hexadecimal: the prefix `0x`, then one or two digits in lower
/// case, without a leading zero.
pub open spec fn hex_chars(byte: u8) -> Seq<char> {
    let high = if byte >= 16 {
        seq![hex_digit(byte / 16)]
    } else {
        Seq::empty()
    };
    seq!['0', 'x'] + high + seq![hex_digit(byte % 16)]
}

/// Whether `dump` renders `bytes` in hexadecimal, byte by byte and in order.
pub open spec fn is_hex_dump(dump: Seq<String>, bytes: Seq<u8>) -> bool {
    &&& dump.len() == bytes.len()
    &&& forall|i: int| 0 <= i < bytes.len() ==> (#[trigger] dump[i])@ == hex_chars(bytes[i])
}

/// The text that a capture reads from a chunk: the string with a length
/// prefix that stands at the cursor once the chunk has been appended to a
/// fresh message.
pub open spec fn captured_text(chunk: Seq<u8>) -> Result<Seq<char>, NetworkMessageError> {
    MessageView::fresh().written(chunk).string(None)
}

/// Whether a chunk can be taken into a fresh message for inspection: it is
/// not empty and keeps the write bound.
pub open spec fn inspectable(chunk: Seq<u8>) -> bool {
    chunk.len() > 0 && MessageView::fresh().can_add(chunk.len())
}

/// What the inspection of one captured chunk has found.
#[derive(Debug)]
pub enum Inspection {
    /// The chunk could not be appended to a message.
    Rejected(NetworkMessageError),
    /// The chunk was appended and looked at.
    Examined {
        /// Each byte of the chunk in hexadecimal.
        hex: Vec<String>,
        /// The string read from the message, or why none was read.
        text: Result<String, NetworkMessageError>,
    },
}

impl Inspection {
    /// Whether this is what the inspection of `chunk` finds.
    pub open spec fn describes(self, chunk: Seq<u8>) -> bool {
        match self {
            Inspection::Rejected(error) => {
                &&& !inspectable(chunk)
                &&& error == NetworkMessageError::SizeError
            },
            Inspection::Examined { hex, text } => {
                &&& inspectable(chunk)
                &&& is_hex_dump(hex@, chunk)
                &&& match text {
                    Ok(found) => captured_text(chunk) == Ok::<Seq<char>, NetworkMessageError>(
                        found@,
                    ),
                    Err(error) => captured_text(chunk) == Err::<Seq<char>, NetworkMessageError>(
                        error,
                    ),
                }
            },
        }
    }
}

/// A capture never finds text. The cursor of the message stands behind the
/// appended chunk, where nothing is declared, so the length prefix is read
/// as zero and the string is empty, whatever the chunk holds.
pub proof fn lemma_captured_text_is_empty(chunk: Seq<u8>)
    requires
        inspectable(chunk),
    ensures
        captured_text(chunk) == Ok::<Seq<char>, NetworkMessageError>(Seq::empty()),
{
    let message = MessageView::fresh().written(chunk);
    assert(!message.can_read(2));
}

/// The digit for a value below sixteen, as a string of one character.
fn hex_digit_str(value: u8) -> (digit: &'static str)
    requires
        value < 16,
    ensures
        digit@ == seq![hex_digit(value)],
{
    proof {
        reveal_strlit("0");
        reveal_strlit("1");
        reveal_strlit("2");
        reveal_strlit("3");
        reveal_strlit("4");
        reveal_strlit("5");
        reveal_strlit("6");
        reveal_strlit("7");
        reveal_strlit("8");
        reveal_strlit("9");
        reveal_strlit("a");
        reveal_strlit("b");
        reveal_strlit("c");
        reveal_strlit("d");
        reveal_strlit("e");
        reveal_strlit("f");
    }
    let digit = match value {
        0 => "0",
        1 => "1",
        2 => "2",
        3 => "3",
        4 => "4",
        5 => "5",
        6 => "6",
        7 => "7",
        8 => "8",
        9 => "9",
        10 => "a",
        11 => "b",
        12 => "c",
        13 => "d",
        14 => "e",
        _ => "f",
    };
    assert(digit@ =~= seq![hex_digit(value)]);
    digit
}

/// Renders a byte in hexadecimal: `0x`, then its digits in lower case without
/// a leading zero.
pub fn hex_text(byte: u8) -> (text: String)
    ensures
        text@ == hex_chars(byte),
{
    proof {
        reveal_strlit("0x");
    }
    let mut text = "0x".to_owned();
    assert(text@ =~= seq!['0', 'x']);
    if byte >= 16 {
        text.append(hex_digit_str(byte / 16));
    }
    text.append(hex_digit_str(byte % 16));
    assert(text@ =~= hex_chars(byte));
    text
}

/// Renders every byte of a chunk in hexadecimal, in order.
pub fn hex_dump(bytes: &[u8]) -> (dump: Vec<String>)
    ensures
        is_hex_dump(dump@, bytes@),
{
    let mut dump: Vec<String> = Vec::new();
    let mut done: usize = 0;
    while done < bytes.len()
        invariant
            done <= bytes@.len(),
            is_hex_dump(dump@, bytes@.take(done as int)),
        decreases bytes@.len() - done,
    {
        dump.push(hex_text(bytes[done]));
        done += 1;
    }
    assert(bytes@.take(done as int) =~= bytes@);
    dump
}

/// Inspects one captured chunk.
///
/// The chunk is appended to a fresh message. Where the message refuses it,
/// the inspection ends there. Otherwise the chunk is rendered in hexadecimal
/// and a string with a length prefix is read at the cursor, which finds the
/// empty string.
pub fn inspect_chunk(chunk: &[u8]) -> (inspection: Inspection)
    ensures
        inspection.describes(chunk@),
        inspection is Examined <==> inspectable(chunk@),
        inspection matches Inspection::Examined { text, .. } ==> text is Ok && text->Ok_0@
            == Seq::<char>::empty(),
{
    let mut message = NetworkMessage::new();
    match message.add_bytes(chunk) {
        Err(error) => Inspection::Rejected(error),
        Ok(()) => {
            let hex = hex_dump(chunk);
            let text = message.get_string(None);
            proof {
                lemma_captured_text_is_empty(chunk@);
            }
            Inspection::Examined { hex, text }
        },
    }
}

} // verus!
