//! What holds of the codec as a whole: decoding undoes encoding, a message
//! cut short is incomplete, and wrong bytes are invalid.

use vstd::prelude::*;
use vstd::utf8::*;
use crate::character::character_data::class_type::ClassType;
use crate::character::character_data::race_kind::RaceKind;
use crate::character::character_data::CharacterData;
use crate::error::{DecodeError, Invalid};
use crate::message::character_name::{
    lemma_alpha_run,
    lemma_alpha_run_bounds,
    lemma_ascii_text,
    lemma_name_bytes,
    spec_character_name,
};
use crate::message::data::character_data::spec_payload;
use crate::message::data::data_size::spec_data_size;
use crate::message::data::info_type::{spec_info_type, InfoType};
use crate::message::data::{spec_data, spec_response, MessageData};
use crate::message::message_type::{spec_message_type, spec_tag_bytes, MessageType};
use crate::message::{
    name_of_letters,
    spec_data_bytes,
    spec_encode,
    spec_header,
    spec_payload_bytes,
    well_formed,
    MessageView,
};
use crate::spec_decode;
use crate::stream::{
    agree,
    alpha_run,
    le_u16_bytes,
    lemma_le_u16_bytes_of_value,
    lemma_le_u16_round_trip,
};

verus! {

/// Reading the tag and the byte of a message type gives the message type
/// back, and leaves what follows.
pub proof fn lemma_message_type_round_trip(message_type: MessageType, rest: Seq<u8>)
    ensures
        spec_message_type(spec_tag_bytes() + seq![message_type.spec_discriminant()] + rest) == Ok::<
            (Seq<u8>, MessageType),
            DecodeError,
        >((rest, message_type)),
{
    let input = spec_tag_bytes() + seq![message_type.spec_discriminant()] + rest;
    MessageType::lemma_discriminant_bijection(message_type, 0);
    assert(input.skip(5).skip(1) =~= rest);
}

/// Reading the bytes of a name of ASCII letters and its terminator gives the
/// name back, and leaves what follows.
pub proof fn lemma_character_name_round_trip(name: Seq<char>, rest: Seq<u8>)
    requires
        name_of_letters(name),
    ensures
        spec_character_name(encode_utf8(name) + seq![0u8] + rest) == Ok::<
            (Seq<u8>, Seq<char>),
            DecodeError,
        >((rest, name)),
{
    let bytes = encode_utf8(name);
    let input = bytes + seq![0u8] + rest;
    let n: int = bytes.len() as int;
    lemma_name_bytes(name);
    lemma_alpha_run(input, n);
    assert(input.skip(n + 1) =~= rest);
    assert(input.take(n) =~= bytes);
}

/// Reading the wire bytes of an attribute as the payload of its info type
/// gives the attribute back, and leaves what follows.
pub proof fn lemma_payload_round_trip(data: CharacterData, rest: Seq<u8>)
    ensures
        spec_payload(data.spec_info_type(), data.wire_bytes() + rest) == Ok::<
            (Seq<u8>, CharacterData),
            DecodeError,
        >((rest, data)),
{
    let input = data.wire_bytes() + rest;
    let size: int = data.spec_info_type().spec_payload_size() as int;
    data.lemma_wire_size();
    assert(input.skip(size) =~= rest);
    match data {
        CharacterData::AGE(age) => {
            lemma_le_u16_round_trip(age);
        },
        CharacterData::CLASS(class) => {
            ClassType::lemma_discriminant_bijection(class, 0);
        },
        CharacterData::RACE(race) => {
            RaceKind::lemma_discriminant_bijection(race, 0);
        },
        _ => {},
    }
}

/// Reading the data of a well-formed message gives it back, and leaves what
/// follows.
pub proof fn lemma_data_round_trip(m: MessageView, rest: Seq<u8>)
    requires
        well_formed(m),
    ensures
        spec_data(spec_data_bytes(m) + rest, m.message_type) == Ok::<
            (Seq<u8>, MessageData),
            DecodeError,
        >(
            (rest, MessageData { info_type: m.info_type, data_size: m.data_size, data: m.data }),
        ),
{
    let payload = spec_payload_bytes(m.data);
    let input = spec_data_bytes(m) + rest;
    InfoType::lemma_discriminant_bijection(m.info_type, 0);
    lemma_le_u16_round_trip(m.data_size);
    let after_type = input.skip(1);
    let after_size = after_type.skip(2);
    assert(after_size =~= payload + rest);
    if let Some(data) = m.data {
        lemma_payload_round_trip(data, rest);
    }
}

/// In a well-formed message the payload size is the number of bytes that the
/// payload takes on the wire, and it is zero exactly when there is no
/// payload.
pub proof fn lemma_data_size_is_payload_length(m: MessageView)
    requires
        well_formed(m),
    ensures
        m.data_size == spec_payload_bytes(m.data).len(),
        m.data_size == 0 <==> m.data is None,
{
    if let Some(data) = m.data {
        data.lemma_wire_size();
    }
}

/// Decoding undoes encoding: the wire form of a well-formed message, with any
/// bytes behind it, decodes to that message and those bytes. Decoded alone,
/// it leaves no bytes over.
pub proof fn lemma_decode_encode(m: MessageView, rest: Seq<u8>)
    requires
        well_formed(m),
    ensures
        spec_decode(spec_encode(m) + rest) == Ok::<(Seq<u8>, MessageView), DecodeError>((rest, m)),
        spec_decode(spec_encode(m)) == Ok::<(Seq<u8>, MessageView), DecodeError>(
            (Seq::<u8>::empty(), m),
        ),
{
    lemma_decode_encode_with_rest(m, rest);
    lemma_decode_encode_with_rest(m, Seq::<u8>::empty());
}

proof fn lemma_decode_encode_with_rest(m: MessageView, rest: Seq<u8>)
    requires
        well_formed(m),
    ensures
        spec_decode(spec_encode(m) + rest) == Ok::<(Seq<u8>, MessageView), DecodeError>((rest, m)),
{
    let data = spec_data_bytes(m) + rest;
    assert(spec_encode(m) + rest =~= spec_header(m.message_type, m.character_name) + data);
    lemma_decode_after_header(m.message_type, m.character_name, data);
    lemma_data_round_trip(m, rest);
}

/// Behind a header with a name of ASCII letters, the data decides: the
/// message decodes exactly when its data does, with the same bytes left over
/// and the same error.
pub proof fn lemma_decode_after_header(message_type: MessageType, name: Seq<char>, data: Seq<u8>)
    requires
        name_of_letters(name),
    ensures
        spec_decode(spec_header(message_type, name) + data) == match spec_data(data, message_type) {
            Ok((rest, read)) => Ok(
                (
                    rest,
                    MessageView {
                        message_type,
                        character_name: name,
                        info_type: read.info_type,
                        data_size: read.data_size,
                        data: read.data,
                    },
                ),
            ),
            Err(error) => Err(error),
        },
{
    let named = encode_utf8(name) + seq![0u8] + data;
    let input = spec_tag_bytes() + seq![message_type.spec_discriminant()] + named;
    assert(spec_header(message_type, name) + data =~= input);
    lemma_message_type_round_trip(message_type, named);
    lemma_character_name_round_trip(name, data);
}

/// A buffer of five or more bytes that does not start with the tag is
/// invalid, not incomplete.
pub proof fn lemma_tag_rejected(input: Seq<u8>)
    requires
        input.len() >= 5,
        input.take(5) != spec_tag_bytes(),
    ensures
        spec_decode(input) == Err::<(Seq<u8>, MessageView), DecodeError>(
            DecodeError::Invalid(Invalid::Tag),
        ),
{
    if agree(input, spec_tag_bytes()) {
        assert(input.take(5) =~= spec_tag_bytes());
    }
}

/// Behind the tag, a byte other than `0xAA` and `0xBB` is invalid as a
/// message type.
pub proof fn lemma_message_type_rejected(byte: u8, rest: Seq<u8>)
    requires
        byte != 0xAA,
        byte != 0xBB,
    ensures
        spec_decode(spec_tag_bytes() + seq![byte] + rest) == Err::<
            (Seq<u8>, MessageView),
            DecodeError,
        >(DecodeError::Invalid(Invalid::MessageType(byte))),
{
}

/// Behind a header, a byte outside `1..=6` is invalid as an info type,
/// whatever the message type.
pub proof fn lemma_info_type_rejected(
    message_type: MessageType,
    name: Seq<char>,
    byte: u8,
    rest: Seq<u8>,
)
    requires
        name_of_letters(name),
        !(1 <= byte <= 6),
    ensures
        spec_decode(spec_header(message_type, name) + (seq![byte] + rest)) == Err::<
            (Seq<u8>, MessageView),
            DecodeError,
        >(DecodeError::Invalid(Invalid::InfoType(byte))),
{
    lemma_decode_after_header(message_type, name, seq![byte] + rest);
}

/// A request that declares a payload size other than zero is invalid.
pub proof fn lemma_request_size_rejected(
    name: Seq<char>,
    info_type: InfoType,
    data_size: u16,
    rest: Seq<u8>,
)
    requires
        name_of_letters(name),
        data_size != 0,
    ensures
        spec_decode(
            spec_header(MessageType::REQUEST, name) + (seq![info_type.spec_discriminant()]
                + le_u16_bytes(data_size) + rest),
        ) == Err::<(Seq<u8>, MessageView), DecodeError>(
            DecodeError::Invalid(Invalid::RequestSize(data_size)),
        ),
{
    let data = seq![info_type.spec_discriminant()] + le_u16_bytes(data_size) + rest;
    lemma_decode_after_header(MessageType::REQUEST, name, data);
    InfoType::lemma_discriminant_bijection(info_type, 0);
    lemma_le_u16_round_trip(data_size);
}

/// A response that declares a payload size other than the one its info type
/// has is invalid: a STATS response must declare 6 bytes, and 6 bytes can be
/// declared by no other.
pub proof fn lemma_response_size_rejected(
    name: Seq<char>,
    info_type: InfoType,
    data_size: u16,
    rest: Seq<u8>,
)
    requires
        name_of_letters(name),
        data_size != info_type.spec_payload_size(),
    ensures
        spec_decode(
            spec_header(MessageType::RESPONSE, name) + (seq![info_type.spec_discriminant()]
                + le_u16_bytes(data_size) + rest),
        ) == Err::<(Seq<u8>, MessageView), DecodeError>(
            DecodeError::Invalid(
                Invalid::ResponseSize {
                    info_type,
                    payload_size: info_type.spec_payload_size(),
                    data_size,
                },
            ),
        ),
        info_type.spec_payload_size() == 6 <==> info_type == InfoType::STATS,
{
    let data = seq![info_type.spec_discriminant()] + le_u16_bytes(data_size) + rest;
    lemma_decode_after_header(MessageType::RESPONSE, name, data);
    InfoType::lemma_discriminant_bijection(info_type, 0);
    lemma_le_u16_round_trip(data_size);
}

/// The six kinds of response exclude one another, so trying them in any
/// order reads what the info type picks: where one kind reads the data, the
/// data of a response is what it read, and every other kind rejects the info
/// type.
pub proof fn lemma_response_kinds_are_exclusive(i: Seq<u8>, kind: InfoType, other: InfoType)
    requires
        spec_response(kind, i) is Ok,
        other != kind,
    ensures
        spec_data(i, MessageType::RESPONSE) == spec_response(kind, i),
        spec_response(other, i) == Err::<(Seq<u8>, MessageData), DecodeError>(
            DecodeError::Invalid(Invalid::UnexpectedInfoType { expected: other, found: kind }),
        ),
{
}

/// The data of a well-formed message with bytes missing at its end is
/// incomplete.
pub proof fn lemma_data_truncated(m: MessageView, k: int)
    requires
        well_formed(m),
        0 <= k < spec_data_bytes(m).len(),
    ensures
        spec_data(spec_data_bytes(m).take(k), m.message_type) matches Err(error)
            && error is Incomplete,
{
    InfoType::lemma_discriminant_bijection(m.info_type, 0);
    lemma_le_u16_round_trip(m.data_size);
    if let Some(data) = m.data {
        data.lemma_wire_size();
    }
}

/// A well-formed message with bytes missing at its end is incomplete: every
/// proper prefix of its wire form asks for more bytes.
pub proof fn lemma_truncated(m: MessageView, n: int)
    requires
        well_formed(m),
        0 <= n < spec_encode(m).len(),
    ensures
        spec_decode(spec_encode(m).take(n)) matches Err(error) && error is Incomplete,
{
    let whole = spec_encode(m);
    let cut = whole.take(n);
    let name = encode_utf8(m.character_name);
    let len: int = name.len() as int;
    lemma_name_bytes(m.character_name);
    if 6 <= n <= 6 + len {
        MessageType::lemma_discriminant_bijection(m.message_type, 0);
        let after_type = cut.skip(5).skip(1);
        lemma_alpha_run(after_type, after_type.len() as int);
    } else if n > 6 + len {
        let k: int = n - 7 - len;
        assert(cut =~= spec_header(m.message_type, m.character_name) + spec_data_bytes(m).take(k));
        lemma_decode_after_header(m.message_type, m.character_name, spec_data_bytes(m).take(k));
        lemma_data_truncated(m, k);
    }
}

/// A well-formed message without its last byte is incomplete.
pub proof fn lemma_last_byte_removed(m: MessageView)
    requires
        well_formed(m),
    ensures
        spec_decode(spec_encode(m).drop_last()) matches Err(error) && error is Incomplete,
{
    let whole = spec_encode(m);
    lemma_truncated(m, whole.len() - 1);
}

/// The wire bytes of the attribute read from a payload are that payload.
pub proof fn lemma_payload_sound(info_type: InfoType, i: Seq<u8>)
    ensures
        spec_payload(info_type, i) matches Ok((rest, data)) ==> data.spec_info_type() == info_type
            && i == data.wire_bytes() + rest,
{
    if let Ok((rest, data)) = spec_payload(info_type, i) {
        let size: int = info_type.spec_payload_size() as int;
        let bytes = i.take(size);
        match info_type {
            InfoType::AGE => {
                lemma_le_u16_bytes_of_value(bytes[0], bytes[1]);
            },
            InfoType::CLASS => {
                ClassType::lemma_discriminant_bijection(data->CLASS_0, bytes[0]);
            },
            InfoType::RACE => {
                RaceKind::lemma_discriminant_bijection(data->RACE_0, bytes[0]);
            },
            _ => {},
        }
    }
}

/// A tag and message type that are read stand at the front of the input.
pub proof fn lemma_message_type_sound(i: Seq<u8>)
    ensures
        spec_message_type(i) matches Ok((rest, message_type)) ==> i == spec_tag_bytes()
            + seq![message_type.spec_discriminant()] + rest,
{
    if let Ok((rest, message_type)) = spec_message_type(i) {
        MessageType::lemma_discriminant_bijection(message_type, i[5]);
    }
}

/// A name that is read is a non-empty run of ASCII letters, and its bytes
/// and terminator stand at the front of the input.
pub proof fn lemma_character_name_sound(i: Seq<u8>)
    ensures
        spec_character_name(i) matches Ok((rest, name)) ==> {
            &&& name_of_letters(name)
            &&& i == encode_utf8(name) + seq![0u8] + rest
        },
{
    if let Ok((rest, name)) = spec_character_name(i) {
        let n: int = alpha_run(i) as int;
        let letters = i.take(n);
        lemma_alpha_run_bounds(i);
        lemma_ascii_text(letters);
    }
}

/// Data that is read is what the message type allows, and its bytes stand at
/// the front of the input.
pub proof fn lemma_data_sound(i: Seq<u8>, message_type: MessageType)
    ensures
        spec_data(i, message_type) matches Ok((rest, read)) ==> {
            &&& i == seq![read.info_type.spec_discriminant()] + le_u16_bytes(read.data_size)
                + spec_payload_bytes(read.data) + rest
            &&& match message_type {
                MessageType::REQUEST => read.data is None && read.data_size == 0,
                MessageType::RESPONSE => {
                    &&& read.data matches Some(data)
                    &&& data.spec_info_type() == read.info_type
                    &&& read.data_size == read.info_type.spec_payload_size()
                },
            }
        },
{
    if let Ok((rest, read)) = spec_data(i, message_type) {
        InfoType::lemma_discriminant_bijection(read.info_type, i[0]);
        let after_info = i.skip(1);
        lemma_le_u16_bytes_of_value(after_info[0], after_info[1]);
        let after_size = after_info.skip(2);
        if message_type == MessageType::RESPONSE {
            lemma_payload_sound(read.info_type, after_size);
        }
    }
}

/// Joining a header, a name and data in groups or in one row gives the same
/// bytes.
proof fn lemma_regroup(
    a: Seq<u8>,
    b: Seq<u8>,
    c: Seq<u8>,
    d: Seq<u8>,
    e: Seq<u8>,
    f: Seq<u8>,
    g: Seq<u8>,
    rest: Seq<u8>,
)
    ensures
        a + b + (c + d + (e + f + g + rest)) == (a + b + c + d) + (e + f + g) + rest,
{
}

/// Whatever decodes is the wire form of a well-formed message: the message
/// read is well formed, and the input is its wire form with the bytes left
/// over behind it.
pub proof fn lemma_decode_sound(input: Seq<u8>)
    ensures
        spec_decode(input) matches Ok((rest, m)) ==> well_formed(m) && input == spec_encode(m)
            + rest,
{
    let first = spec_message_type(input);
    if let Ok((after_type, message_type)) = first {
        let second = spec_character_name(after_type);
        if let Ok((after_name, name)) = second {
            let third = spec_data(after_name, message_type);
            if let Ok((rest, read)) = third {
                lemma_message_type_sound(input);
                lemma_character_name_sound(after_type);
                lemma_data_sound(after_name, message_type);
                lemma_regroup(
                    spec_tag_bytes(),
                    seq![message_type.spec_discriminant()],
                    encode_utf8(name),
                    seq![0u8],
                    seq![read.info_type.spec_discriminant()],
                    le_u16_bytes(read.data_size),
                    spec_payload_bytes(read.data),
                    rest,
                );
            }
        }
    }
}

/// A result that more bytes cannot change: `after`, read from the same input
/// with `more` behind it, is the value read `before` with `more` behind what
/// was left over, or the same invalid bytes. Of an incomplete result nothing
/// is said.
pub open spec fn settled<T>(
    before: Result<(Seq<u8>, T), DecodeError>,
    after: Result<(Seq<u8>, T), DecodeError>,
    more: Seq<u8>,
) -> bool {
    match before {
        Ok((rest, value)) => after == Ok::<(Seq<u8>, T), DecodeError>((rest + more, value)),
        Err(DecodeError::Invalid(invalid)) => after == Err::<(Seq<u8>, T), DecodeError>(
            DecodeError::Invalid(invalid),
        ),
        Err(DecodeError::Incomplete(_)) => true,
    }
}

/// More bytes do not change a tag and message type that were read or
/// rejected.
pub proof fn lemma_message_type_settled(i: Seq<u8>, more: Seq<u8>)
    ensures
        settled(spec_message_type(i), spec_message_type(i + more), more),
{
    let longer = i + more;
    if !agree(i, spec_tag_bytes()) {
        let k = choose|k: int| 0 <= k < i.len() && k < 5 && i[k] != spec_tag_bytes()[k];
    } else if i.len() >= 6 {
        assert(longer.skip(5).skip(1) =~= i.skip(5).skip(1) + more);
    }
}

/// More bytes do not change a name that was read or rejected.
pub proof fn lemma_character_name_settled(i: Seq<u8>, more: Seq<u8>)
    ensures
        settled(spec_character_name(i), spec_character_name(i + more), more),
{
    let longer = i + more;
    let n: int = alpha_run(i) as int;
    lemma_alpha_run_bounds(i);
    if n < i.len() {
        lemma_alpha_run(longer, n);
        assert(longer.skip(n + 1) =~= i.skip(n + 1) + more);
        assert(longer.take(n) =~= i.take(n));
    }
}

/// More bytes do not change an info type that was read or rejected.
pub proof fn lemma_info_type_settled(i: Seq<u8>, more: Seq<u8>)
    ensures
        settled(spec_info_type(i), spec_info_type(i + more), more),
{
    let longer = i + more;
    if i.len() >= 1 {
        assert(longer.skip(1) =~= i.skip(1) + more);
    }
}

/// More bytes do not change a payload size that was read.
pub proof fn lemma_data_size_settled(i: Seq<u8>, more: Seq<u8>)
    ensures
        settled(spec_data_size(i), spec_data_size(i + more), more),
{
    let longer = i + more;
    if i.len() >= 2 {
        assert(longer.skip(2) =~= i.skip(2) + more);
    }
}

/// More bytes do not change a payload that was read or rejected.
pub proof fn lemma_payload_settled(info_type: InfoType, i: Seq<u8>, more: Seq<u8>)
    ensures
        settled(spec_payload(info_type, i), spec_payload(info_type, i + more), more),
{
    let longer = i + more;
    let size: int = info_type.spec_payload_size() as int;
    if i.len() >= size {
        assert(longer.skip(size) =~= i.skip(size) + more);
    }
}

/// More bytes do not change data that was read or rejected.
pub proof fn lemma_data_settled(i: Seq<u8>, message_type: MessageType, more: Seq<u8>)
    ensures
        settled(spec_data(i, message_type), spec_data(i + more, message_type), more),
{
    lemma_info_type_settled(i, more);
    if let Ok((after_type, info_type)) = spec_info_type(i) {
        lemma_data_size_settled(after_type, more);
        if let Ok((after_size, _)) = spec_data_size(after_type) {
            lemma_payload_settled(info_type, after_size, more);
        }
    }
}

/// Once a buffer has decoded or has been found invalid, more bytes behind it
/// change nothing: the same message is read, with the new bytes behind those
/// left over, or the same bytes are invalid for the same reason. Only an
/// incomplete buffer can still become something else.
pub proof fn lemma_decode_settled(input: Seq<u8>, more: Seq<u8>)
    ensures
        settled(spec_decode(input), spec_decode(input + more), more),
{
    lemma_message_type_settled(input, more);
    if let Ok((after_type, message_type)) = spec_message_type(input) {
        lemma_character_name_settled(after_type, more);
        if let Ok((after_name, _)) = spec_character_name(after_type) {
            lemma_data_settled(after_name, message_type, more);
        }
    }
}

} // verus!
