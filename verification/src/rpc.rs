//! Simple RPC protocol for executing actions over one channel.
//!
//! A request is the name of an action and its input, each behind its length:
//! `name_len[u16] | name | input_len[u32] | input`. A response is the
//! output behind its length: `output_len[u32] | output`. Lengths are
//! big-endian. Names are UTF-8 of at most 255 bytes; inputs and outputs are
//! JSON of at most 8 MiB. This module frames and checks the bytes; what the
//! JSON says is up to the caller.

use crate::multiplex::buffer::bytes_mut_freeze;
use crate::multiplex::buffer::bytes_mut_put_slice;
use crate::multiplex::buffer::bytes_mut_with_capacity;
use crate::multiplex::buffer::bytes_view;
use crate::multiplex::wire::be_bytes_u16;
use crate::multiplex::wire::be_bytes_u32;
use crate::multiplex::wire::be_value_u16;
use crate::multiplex::wire::be_value_u32;
use crate::multiplex::wire::lemma_be_u16_value_of_bytes;
use crate::multiplex::wire::lemma_be_u32_value_of_bytes;
use crate::multiplex::wire::u16_from_be_bytes;
use crate::multiplex::wire::u16_to_be_bytes;
use crate::multiplex::wire::u32_from_be_bytes;
use crate::multiplex::wire::u32_to_be_bytes;
use bytes::Bytes;
use vstd::prelude::*;
use vstd::string::StringSliceAdditionalSpecFns;
use vstd::utf8::decode_utf8;
use vstd::utf8::valid_utf8;

verus! {

/// Maximum action name size (255 bytes).
pub const MAX_ACTION_NAME_SIZE: u16 = 255;

/// Maximum action input size (8 MiB).
pub const MAX_INPUT_SIZE: u32 = 8 * 1024 * 1024;

/// Maximum action output size (8 MiB).
pub const MAX_OUTPUT_SIZE: u32 = 8 * 1024 * 1024;

/// `std::io::Error`: why reading from or writing to a channel failed.
/// Nothing is known of a value but that it can be handed on.
#[verifier::external_type_specification]
#[verifier::external_body]
pub struct ExIoError(std::io::Error);

/// `std::string::FromUtf8Error`: why bytes are no UTF-8. Nothing is known of
/// a value but that it can be handed on.
#[verifier::external_type_specification]
#[verifier::external_body]
pub struct ExFromUtf8Error(std::string::FromUtf8Error);

/// `serde_json::Error`: why a value could not be written as JSON or read
/// from it. Nothing is known of a value but that it can be handed on.
#[verifier::external_type_specification]
#[verifier::external_body]
pub struct ExJsonError(serde_json::Error);

/// Error executing an action over a transport.
#[derive(Debug)]
pub enum ExecuteError {
    /// Error reading from the transport.
    Read(std::io::Error),
    /// Error writing to the transport.
    Write(std::io::Error),
    /// Malformed output.
    MalformedOutput(serde_json::Error),
    /// Output exceeds maximum size.
    OutputTooLarge(u32),
}

/// Serialized action.
#[derive(Debug)]
pub struct SerializedAction {
    /// Action name.
    pub name: String,
    /// Action input.
    pub input: Vec<u8>,
}

/// Error reading an action.
#[derive(Debug)]
pub enum ReadError {
    /// Error reading from the transport.
    Read(std::io::Error),
    /// Action name is not valid UTF-8.
    InvalidActionName(std::string::FromUtf8Error),
    /// Action name exceeds maximum size.
    ActionNameTooLarge(u16),
    /// Action input exceeds maximum size.
    ActionInputTooLarge(u32),
}

/// The bytes of a request on the channel.
pub open spec fn request_bytes(name: Seq<u8>, input: Seq<u8>) -> Seq<u8> {
    be_bytes_u16(name.len() as u16) + name + be_bytes_u32(input.len() as u32) + input
}

/// The bytes of a response on the channel.
pub open spec fn response_bytes(output: Seq<u8>) -> Seq<u8> {
    be_bytes_u32(output.len() as u32) + output
}

/// The request for the action of the given name with the given serialized
/// input, in one buffer.
pub fn encode_action(name: &str, input: &[u8]) -> (request: Bytes)
    requires
        name.spec_bytes().len() <= MAX_ACTION_NAME_SIZE,
        input@.len() <= MAX_INPUT_SIZE,
    ensures
        bytes_view(request) == request_bytes(name.spec_bytes(), input@),
{
    let name = name.as_bytes();
    let mut buffer = bytes_mut_with_capacity(0);
    bytes_mut_put_slice(&mut buffer, u16_to_be_bytes(name.len() as u16).as_slice());
    bytes_mut_put_slice(&mut buffer, name);
    bytes_mut_put_slice(&mut buffer, u32_to_be_bytes(input.len() as u32).as_slice());
    bytes_mut_put_slice(&mut buffer, input);
    bytes_mut_freeze(buffer)
}

/// The length prefix of a response with an output of the given size.
pub fn encode_output_size(size: usize) -> (header: [u8; 4])
    requires
        size <= MAX_OUTPUT_SIZE,
    ensures
        header@ == be_bytes_u32(size as u32),
{
    u32_to_be_bytes(size as u32)
}

/// The size of the output that follows the length prefix of a response. An
/// output of more than 8 MiB is refused.
pub fn decode_output_size(header: [u8; 4]) -> (size: Result<usize, ExecuteError>)
    ensures
        be_value_u32(header@) <= MAX_OUTPUT_SIZE ==> size is Ok && size->Ok_0 == be_value_u32(
            header@,
        ),
        be_value_u32(header@) > MAX_OUTPUT_SIZE ==> (size matches Err(
            ExecuteError::OutputTooLarge(refused),
        ) && refused == be_value_u32(header@)),
{
    let output_size = u32_from_be_bytes(header.as_slice());
    if output_size > MAX_OUTPUT_SIZE {
        return Err(ExecuteError::OutputTooLarge(output_size));
    }
    Ok(output_size as usize)
}

/// `String::from_utf8`: the string that the bytes encode, where they are
/// valid UTF-8, and an error where they are not.
#[verifier::external_body]
fn string_from_utf8(bytes: Vec<u8>) -> (decoded: Result<String, std::string::FromUtf8Error>)
    ensures
        valid_utf8(bytes@) ==> decoded is Ok && decoded->Ok_0@ == decode_utf8(bytes@),
        !valid_utf8(bytes@) ==> decoded is Err,
{
    String::from_utf8(bytes)
}

/// How far the reading of a request has come, as plain values.
pub ghost enum ReaderView {
    /// The length of the name is read next.
    NameSize,
    /// The name, of the given length, is read next.
    Name { name_size: u16 },
    /// The length of the input is read next.
    InputSize { name: Seq<char> },
    /// The input, of the given length, is read next.
    Input { name: Seq<char>, input_size: u32 },
    /// The request is complete.
    Done { name: Seq<char>, input: Seq<u8> },
}

/// Why a request is refused.
pub ghost enum Refusal {
    /// The name is longer than 255 bytes.
    ActionNameTooLarge(u16),
    /// The name is not valid UTF-8.
    InvalidActionName,
    /// The input is longer than 8 MiB.
    ActionInputTooLarge(u32),
}

impl ReaderView {
    /// The number of bytes that are read next.
    pub open spec fn wanted(self) -> nat {
        match self {
            ReaderView::NameSize => 2,
            ReaderView::Name { name_size } => name_size as nat,
            ReaderView::InputSize { .. } => 4,
            ReaderView::Input { input_size, .. } => input_size as nat,
            ReaderView::Done { .. } => 0,
        }
    }

    /// What comes of the bytes that were read: the next state, or the reason
    /// why the request is refused.
    pub open spec fn fed(self, bytes: Seq<u8>) -> Result<ReaderView, Refusal> {
        match self {
            ReaderView::NameSize => if be_value_u16(bytes) > MAX_ACTION_NAME_SIZE {
                Err(Refusal::ActionNameTooLarge(be_value_u16(bytes)))
            } else {
                Ok(ReaderView::Name { name_size: be_value_u16(bytes) })
            },
            ReaderView::Name { .. } => if valid_utf8(bytes) {
                Ok(ReaderView::InputSize { name: decode_utf8(bytes) })
            } else {
                Err(Refusal::InvalidActionName)
            },
            ReaderView::InputSize { name } => if be_value_u32(bytes) > MAX_INPUT_SIZE {
                Err(Refusal::ActionInputTooLarge(be_value_u32(bytes)))
            } else {
                Ok(ReaderView::Input { name, input_size: be_value_u32(bytes) })
            },
            ReaderView::Input { name, .. } => Ok(ReaderView::Done { name, input: bytes }),
            ReaderView::Done { .. } => Ok(self),
        }
    }
}

/// Reader of one request, piece by piece: it says how many bytes it wants
/// next, and takes them in.
pub enum ActionReader {
    /// The length of the name is read next.
    NameSize,
    /// The name is read next.
    Name {
        /// Length of the name in bytes.
        name_size: u16,
    },
    /// The length of the input is read next.
    InputSize {
        /// The name that was read.
        name: String,
    },
    /// The input is read next.
    Input {
        /// The name that was read.
        name: String,
        /// Length of the input in bytes.
        input_size: u32,
    },
    /// The request is complete.
    Done(SerializedAction),
}

impl View for ActionReader {
    type V = ReaderView;

    open spec fn view(&self) -> ReaderView {
        match self {
            ActionReader::NameSize => ReaderView::NameSize,
            ActionReader::Name { name_size } => ReaderView::Name { name_size: *name_size },
            ActionReader::InputSize { name } => ReaderView::InputSize { name: name@ },
            ActionReader::Input { name, input_size } => ReaderView::Input {
                name: name@,
                input_size: *input_size,
            },
            ActionReader::Done(action) => ReaderView::Done {
                name: action.name@,
                input: action.input@,
            },
        }
    }
}

impl ActionReader {
    /// A reader at the start of a request.
    pub fn new() -> (reader: ActionReader)
        ensures
            reader@ == ReaderView::NameSize,
    {
        ActionReader::NameSize
    }

    /// The number of bytes to read from the channel and feed next.
    pub fn wanted(&self) -> (wanted: usize)
        ensures
            wanted == self@.wanted(),
    {
        match self {
            ActionReader::NameSize => 2,
            ActionReader::Name { name_size } => *name_size as usize,
            ActionReader::InputSize { .. } => 4,
            ActionReader::Input { input_size, .. } => *input_size as usize,
            ActionReader::Done(_) => 0,
        }
    }

    /// Take in the bytes that were read from the channel.
    ///
    /// A name of more than 255 bytes, a name that is not valid UTF-8 and an
    /// input of more than 8 MiB are refused, each as soon as it shows.
    pub fn feed(self, bytes: Vec<u8>) -> (fed: Result<ActionReader, ReadError>)
        requires
            bytes@.len() == self@.wanted(),
        ensures
            match self@.fed(bytes@) {
                Ok(next) => fed is Ok && fed->Ok_0@ == next,
                Err(Refusal::ActionNameTooLarge(size)) => fed matches Err(
                    ReadError::ActionNameTooLarge(refused),
                ) && refused == size,
                Err(Refusal::InvalidActionName) => fed matches Err(
                    ReadError::InvalidActionName(_),
                ),
                Err(Refusal::ActionInputTooLarge(size)) => fed matches Err(
                    ReadError::ActionInputTooLarge(refused),
                ) && refused == size,
            },
    {
        match self {
            ActionReader::NameSize => {
                let name_size = u16_from_be_bytes(bytes.as_slice());
                if name_size > MAX_ACTION_NAME_SIZE {
                    return Err(ReadError::ActionNameTooLarge(name_size));
                }
                Ok(ActionReader::Name { name_size })
            },
            ActionReader::Name { .. } => match string_from_utf8(bytes) {
                Ok(name) => Ok(ActionReader::InputSize { name }),
                Err(error) => Err(ReadError::InvalidActionName(error)),
            },
            ActionReader::InputSize { name } => {
                let input_size = u32_from_be_bytes(bytes.as_slice());
                if input_size > MAX_INPUT_SIZE {
                    return Err(ReadError::ActionInputTooLarge(input_size));
                }
                Ok(ActionReader::Input { name, input_size })
            },
            ActionReader::Input { name, .. } => Ok(
                ActionReader::Done(SerializedAction { name, input: bytes }),
            ),
            ActionReader::Done(action) => Ok(ActionReader::Done(action)),
        }
    }

    /// The request, once it is complete.
    pub fn finish(self) -> (action: Option<SerializedAction>)
        ensures
            match self@ {
                ReaderView::Done { name, input } => action is Some && action->0.name@ == name
                    && action->0.input@ == input,
                _ => action is None,
            },
    {
        match self {
            ActionReader::Done(action) => Some(action),
            _ => None,
        }
    }
}

/// Reading undoes writing. A request with a name of at most 255 bytes of
/// valid UTF-8 and an input of at most 8 MiB, read in the pieces that the
/// reader asks for, comes out as the same name and the same input.
pub proof fn lemma_read_written_request(name: Seq<u8>, input: Seq<u8>)
    requires
        name.len() <= MAX_ACTION_NAME_SIZE,
        valid_utf8(name),
        input.len() <= MAX_INPUT_SIZE,
    ensures
        ({
            let bytes = request_bytes(name, input);
            let at_name = ReaderView::NameSize.fed(bytes.subrange(0, 2));
            let at_input_size = at_name->Ok_0.fed(bytes.subrange(2, 2 + name.len() as int));
            let at_input = at_input_size->Ok_0.fed(
                bytes.subrange(2 + name.len() as int, 6 + name.len() as int),
            );
            let done = at_input->Ok_0.fed(
                bytes.subrange(6 + name.len() as int, bytes.len() as int),
            );
            &&& bytes.len() == 6 + name.len() + input.len()
            &&& at_name == Ok::<ReaderView, Refusal>(
                ReaderView::Name { name_size: name.len() as u16 },
            )
            &&& at_input_size == Ok::<ReaderView, Refusal>(
                ReaderView::InputSize { name: decode_utf8(name) },
            )
            &&& at_input == Ok::<ReaderView, Refusal>(
                ReaderView::Input { name: decode_utf8(name), input_size: input.len() as u32 },
            )
            &&& done == Ok::<ReaderView, Refusal>(
                ReaderView::Done { name: decode_utf8(name), input },
            )
        }),
{
    let bytes = request_bytes(name, input);
    lemma_be_u16_value_of_bytes(name.len() as u16);
    lemma_be_u32_value_of_bytes(input.len() as u32);
    assert(bytes.subrange(0, 2) =~= be_bytes_u16(name.len() as u16));
    assert(bytes.subrange(2, 2 + name.len() as int) =~= name);
    assert(bytes.subrange(2 + name.len() as int, 6 + name.len() as int) =~= be_bytes_u32(
        input.len() as u32,
    ));
    assert(bytes.subrange(6 + name.len() as int, bytes.len() as int) =~= input);
}

/// The length prefix of a response says how long the output is, for every
/// output of at most 8 MiB.
pub proof fn lemma_read_written_output_size(output: Seq<u8>)
    requires
        output.len() <= MAX_OUTPUT_SIZE,
    ensures
        be_value_u32(response_bytes(output).subrange(0, 4)) == output.len(),
        response_bytes(output).skip(4) == output,
{
    lemma_be_u32_value_of_bytes(output.len() as u32);
    assert(response_bytes(output).subrange(0, 4) =~= be_bytes_u32(output.len() as u32));
    assert(response_bytes(output).skip(4) =~= output);
}

} // verus!
