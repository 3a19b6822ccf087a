//! Typed interaction model and the structural decoder from the JSON payload.
//! The decoder classifies the payload by its `type` tag before reading any
//! other field; handler-specific fields exist only on the variant that owns
//! them, so no handler can read a field of the wrong interaction kind.

use vstd::prelude::*;
use crate::json::{JsonValue, get_field, int_field, json_of, str_field, obj_get};
use crate::text::{is_dec_u64, dec_val, parse_u64_dec};

verus! {

/// A named option inside a subcommand; only string values are interpreted.
#[derive(Debug)]
pub enum SubValue {
    Text(String),
    Unsupported,
}

/// One named option of a subcommand.
#[derive(Debug)]
pub struct SubOption {
    pub name: String,
    pub value: SubValue,
}

/// The value of a top-level command option: a plain string, a subcommand
/// with its own named options, or anything else.
#[derive(Debug)]
pub enum OptionValue {
    Text(String),
    SubCommand(Vec<SubOption>),
    Unsupported,
}

/// One top-level command option.
#[derive(Debug)]
pub struct CommandOption {
    pub name: String,
    pub value: OptionValue,
}

/// A command invocation: its name and its ordered options.
#[derive(Debug)]
pub struct CommandData {
    pub name: String,
    pub options: Vec<CommandOption>,
}

/// A decoded interaction.
#[derive(Debug)]
pub enum Interaction {
    Ping,
    Command { id: u64, token: String, data: CommandData },
    Component { id: u64, token: String, custom_id: String, message_id: Option<u64> },
    Other,
}

/// Why a payload of a known interaction kind could not be decoded. Every
/// variant maps to a rejected request; none aborts the process.
#[derive(Debug, Clone, Copy, PartialEq, Eq, Structural)]
pub enum DecodeError {
    MissingType,
    BadId,
    MissingToken,
    MissingData,
    MissingName,
    MissingCustomId,
}

pub enum SubValueView {
    Text(Seq<char>),
    Unsupported,
}

pub struct SubOptionView {
    pub name: Seq<char>,
    pub value: SubValueView,
}

pub enum OptionValueView {
    Text(Seq<char>),
    SubCommand(Seq<SubOptionView>),
    Unsupported,
}

pub struct CommandOptionView {
    pub name: Seq<char>,
    pub value: OptionValueView,
}

pub struct CommandDataView {
    pub name: Seq<char>,
    pub options: Seq<CommandOptionView>,
}

pub enum InteractionView {
    Ping,
    Command { id: u64, token: Seq<char>, data: CommandDataView },
    Component { id: u64, token: Seq<char>, custom_id: Seq<char>, message_id: Option<u64> },
    Other,
}


/// The views of a subcommand option list, element for element.
pub open spec fn sub_list_view(s: Seq<SubOption>) -> Seq<SubOptionView> {
    s.map_values(|o: SubOption| o@)
}

/// The views of a command option list, element for element.
pub open spec fn option_list_view(s: Seq<CommandOption>) -> Seq<CommandOptionView> {
    s.map_values(|o: CommandOption| o@)
}

/// The decoded subcommand options of a JSON array, element for element.
pub open spec fn decode_subs_spec(items: Seq<JsonValue>) -> Seq<SubOptionView> {
    items.map_values(|x: JsonValue| decode_sub_spec(x))
}

/// The decoded command options of a JSON array, element for element.
pub open spec fn decode_options_spec(items: Seq<JsonValue>) -> Seq<CommandOptionView> {
    items.map_values(|x: JsonValue| decode_option_spec(x))
}

impl View for SubOption {
    type V = SubOptionView;

    open spec fn view(&self) -> SubOptionView {
        SubOptionView {
            name: self.name@,
            value: match self.value {
                SubValue::Text(s) => SubValueView::Text(s@),
                SubValue::Unsupported => SubValueView::Unsupported,
            },
        }
    }
}

impl View for CommandOption {
    type V = CommandOptionView;

    open spec fn view(&self) -> CommandOptionView {
        CommandOptionView {
            name: self.name@,
            value: match self.value {
                OptionValue::Text(s) => OptionValueView::Text(s@),
                OptionValue::SubCommand(subs) => OptionValueView::SubCommand(sub_list_view(subs@)),
                OptionValue::Unsupported => OptionValueView::Unsupported,
            },
        }
    }
}

impl View for CommandData {
    type V = CommandDataView;

    open spec fn view(&self) -> CommandDataView {
        CommandDataView {
            name: self.name@,
            options: option_list_view(self.options@),
        }
    }
}

impl View for Interaction {
    type V = InteractionView;

    open spec fn view(&self) -> InteractionView {
        match self {
            Interaction::Ping => InteractionView::Ping,
            Interaction::Command { id, token, data } => InteractionView::Command {
                id: *id,
                token: token@,
                data: data@,
            },
            Interaction::Component { id, token, custom_id, message_id } => {
                InteractionView::Component {
                    id: *id,
                    token: token@,
                    custom_id: custom_id@,
                    message_id: *message_id,
                }
            },
            Interaction::Other => InteractionView::Other,
        }
    }
}

/// The interaction identifier: the decimal numeral under `id`.
pub open spec fn id_of(v: JsonValue) -> Result<u64, DecodeError> {
    match str_field(v, "id"@) {
        Some(s) => if is_dec_u64(s) {
            Ok(dec_val(s) as u64)
        } else {
            Err(DecodeError::BadId)
        },
        None => Err(DecodeError::BadId),
    }
}

/// The continuation token: the string under `token`.
pub open spec fn token_of(v: JsonValue) -> Option<Seq<char>> {
    str_field(v, "token"@)
}

/// One decoded subcommand option; a malformed entry keeps whatever name it
/// has (or none) and an `Unsupported` value, which no handler interprets.
pub open spec fn decode_sub_spec(v: JsonValue) -> SubOptionView {
    SubOptionView {
        name: match str_field(v, "name"@) {
            Some(s) => s,
            None => Seq::empty(),
        },
        value: match str_field(v, "value"@) {
            Some(s) => SubValueView::Text(s),
            None => SubValueView::Unsupported,
        },
    }
}

/// One decoded top-level option: tag 1 is a subcommand whose entries come
/// from its `options` array, tag 3 a plain string value; anything else is
/// kept only by name.
pub open spec fn decode_option_spec(v: JsonValue) -> CommandOptionView {
    CommandOptionView {
        name: match str_field(v, "name"@) {
            Some(s) => s,
            None => Seq::empty(),
        },
        value: match int_field(v, "type"@) {
            Some(t) => if t == 1 {
                OptionValueView::SubCommand(
                    match get_field(v, "options"@) {
                        Some(JsonValue::Arr(a)) => decode_subs_spec(a@),
                        _ => Seq::empty(),
                    },
                )
            } else if t == 3 {
                match str_field(v, "value"@) {
                    Some(s) => OptionValueView::Text(s),
                    None => OptionValueView::Unsupported,
                }
            } else {
                OptionValueView::Unsupported
            },
            None => OptionValueView::Unsupported,
        },
    }
}

/// The decoded option sequence of a command's `data` object; a missing or
/// non-array `options` field reads as no options.
pub open spec fn options_of(data: JsonValue) -> Seq<CommandOptionView> {
    match get_field(data, "options"@) {
        Some(JsonValue::Arr(a)) => decode_options_spec(a@),
        _ => Seq::empty(),
    }
}

/// A decoded application command: identifier, token, command name, options.
pub open spec fn decode_command_spec(v: JsonValue) -> Result<InteractionView, DecodeError> {
    match id_of(v) {
        Err(e) => Err(e),
        Ok(id) => match token_of(v) {
            None => Err(DecodeError::MissingToken),
            Some(token) => match get_field(v, "data"@) {
                None => Err(DecodeError::MissingData),
                Some(data) => match str_field(data, "name"@) {
                    None => Err(DecodeError::MissingName),
                    Some(name) => Ok(
                        InteractionView::Command {
                            id,
                            token,
                            data: CommandDataView { name, options: options_of(data) },
                        },
                    ),
                },
            },
        },
    }
}

/// The identifier of the original message, when the payload carries one.
pub open spec fn message_id_of(v: JsonValue) -> Result<Option<u64>, DecodeError> {
    match get_field(v, "message"@) {
        None => Ok(None),
        Some(m) => match str_field(m, "id"@) {
            Some(s) => if is_dec_u64(s) {
                Ok(Some(dec_val(s) as u64))
            } else {
                Err(DecodeError::BadId)
            },
            None => Err(DecodeError::BadId),
        },
    }
}

/// A decoded message-component interaction: identifier, token, the custom
/// id of the pressed component, and the original message if attached.
pub open spec fn decode_component_spec(v: JsonValue) -> Result<InteractionView, DecodeError> {
    match id_of(v) {
        Err(e) => Err(e),
        Ok(id) => match token_of(v) {
            None => Err(DecodeError::MissingToken),
            Some(token) => match get_field(v, "data"@) {
                None => Err(DecodeError::MissingCustomId),
                Some(data) => match str_field(data, "custom_id"@) {
                    None => Err(DecodeError::MissingCustomId),
                    Some(custom_id) => match message_id_of(v) {
                        Err(e) => Err(e),
                        Ok(message_id) => Ok(
                            InteractionView::Component { id, token, custom_id, message_id },
                        ),
                    },
                },
            },
        },
    }
}

/// The decoded interaction for a parsed payload: tag 1 is Ping before any
/// other field is read, tag 2 an application command, tag 3 a message
/// component; any other tag decodes to `Other`. A payload without an
/// integer `type` is rejected.
pub open spec fn decode_spec(v: JsonValue) -> Result<InteractionView, DecodeError> {
    match int_field(v, "type"@) {
        Some(t) => if t == 1 {
            Ok(InteractionView::Ping)
        } else if t == 2 {
            decode_command_spec(v)
        } else if t == 3 {
            decode_component_spec(v)
        } else {
            Ok(InteractionView::Other)
        },
        None => Err(DecodeError::MissingType),
    }
}

/// The view of a decode result.
pub open spec fn decode_result_view(r: Result<Interaction, DecodeError>) -> Result<
    InteractionView,
    DecodeError,
> {
    match r {
        Ok(i) => Ok(i@),
        Err(e) => Err(e),
    }
}

fn decode_sub(v: &JsonValue) -> (r: SubOption)
    ensures
        r@ == decode_sub_spec(*v),
{
    let name: String = match obj_get(v, "name") {
        Some(JsonValue::Str(s)) => s.clone(),
        _ => String::new(),
    };
    let value: SubValue = match obj_get(v, "value") {
        Some(JsonValue::Str(s)) => SubValue::Text(s.clone()),
        _ => SubValue::Unsupported,
    };
    SubOption { name, value }
}

fn decode_sub_list(items: &Vec<JsonValue>) -> (r: Vec<SubOption>)
    ensures
        sub_list_view(r@) == decode_subs_spec(items@),
{
    let mut out: Vec<SubOption> = Vec::new();
    let n: usize = items.len();
    let mut i: usize = 0;
    while i < n
        invariant
            n == items@.len(),
            i <= n,
            out@.len() == i,
            forall|j: int| 0 <= j < i ==> #[trigger] out@[j]@ == decode_sub_spec(items@[j]),
        decreases n - i,
    {
        let s = decode_sub(&items[i]);
        out.push(s);
        i = i + 1;
    }
    proof {
        assert(sub_list_view(out@) =~= decode_subs_spec(items@));
    }
    out
}

fn decode_option(v: &JsonValue) -> (r: CommandOption)
    ensures
        r@ == decode_option_spec(*v),
{
    let name: String = match obj_get(v, "name") {
        Some(JsonValue::Str(s)) => s.clone(),
        _ => String::new(),
    };
    let value: OptionValue = match obj_get(v, "type") {
        Some(tv) => match tv {
            JsonValue::Int(t) => {
                proof {
                    assert(*tv is Int && tv->Int_0 == *t);
                }
                if *t == 1 {
                    let subs: Vec<SubOption> = match obj_get(v, "options") {
                        Some(ov) => match ov {
                            JsonValue::Arr(a) => {
                                proof {
                                    assert(*ov is Arr && ov->Arr_0 == *a);
                                }
                                decode_sub_list(a)
                            },
                            _ => Vec::new(),
                        },
                        None => Vec::new(),
                    };
                    proof {
                        assert(sub_list_view(Seq::<SubOption>::empty()) =~= Seq::<
                            SubOptionView,
                        >::empty());
                    }
                    OptionValue::SubCommand(subs)
                } else if *t == 3 {
                    match obj_get(v, "value") {
                        Some(JsonValue::Str(s)) => OptionValue::Text(s.clone()),
                        _ => OptionValue::Unsupported,
                    }
                } else {
                    OptionValue::Unsupported
                }
            },
            _ => OptionValue::Unsupported,
        },
        None => OptionValue::Unsupported,
    };
    CommandOption { name, value }
}

fn decode_option_list(items: &Vec<JsonValue>) -> (r: Vec<CommandOption>)
    ensures
        option_list_view(r@) == decode_options_spec(items@),
{
    let mut out: Vec<CommandOption> = Vec::new();
    let n: usize = items.len();
    let mut i: usize = 0;
    while i < n
        invariant
            n == items@.len(),
            i <= n,
            out@.len() == i,
            forall|j: int| 0 <= j < i ==> #[trigger] out@[j]@ == decode_option_spec(items@[j]),
        decreases n - i,
    {
        let o = decode_option(&items[i]);
        out.push(o);
        i = i + 1;
    }
    proof {
        assert(option_list_view(out@) =~= decode_options_spec(items@));
    }
    out
}

fn decode_id(v: &JsonValue) -> (r: Result<u64, DecodeError>)
    ensures
        r == id_of(*v),
{
    match obj_get(v, "id") {
        Some(JsonValue::Str(s)) => match parse_u64_dec(s.as_str()) {
            Some(n) => Ok(n),
            None => Err(DecodeError::BadId),
        },
        _ => Err(DecodeError::BadId),
    }
}

fn decode_token(v: &JsonValue) -> (r: Option<String>)
    ensures
        match r {
            Some(s) => token_of(*v) == Some(s@),
            None => token_of(*v) is None,
        },
{
    match obj_get(v, "token") {
        Some(JsonValue::Str(s)) => Some(s.clone()),
        _ => None,
    }
}

fn decode_command(v: &JsonValue) -> (r: Result<Interaction, DecodeError>)
    ensures
        decode_result_view(r) == decode_command_spec(*v),
{
    let id: u64 = match decode_id(v) {
        Ok(n) => n,
        Err(e) => {
            return Err(e);
        },
    };
    let token: String = match decode_token(v) {
        Some(s) => s,
        None => {
            return Err(DecodeError::MissingToken);
        },
    };
    let data: &JsonValue = match obj_get(v, "data") {
        Some(d) => d,
        None => {
            return Err(DecodeError::MissingData);
        },
    };
    let name: String = match obj_get(data, "name") {
        Some(JsonValue::Str(s)) => s.clone(),
        _ => {
            return Err(DecodeError::MissingName);
        },
    };
    let options: Vec<CommandOption> = match obj_get(data, "options") {
        Some(ov) => match ov {
            JsonValue::Arr(a) => {
                proof {
                    assert(*ov is Arr && ov->Arr_0 == *a);
                }
                decode_option_list(a)
            },
            _ => Vec::new(),
        },
        None => Vec::new(),
    };
    proof {
        assert(option_list_view(Seq::<CommandOption>::empty()) =~= Seq::<
            CommandOptionView,
        >::empty());
    }
    Ok(Interaction::Command { id, token, data: CommandData { name, options } })
}

fn decode_message_id(v: &JsonValue) -> (r: Result<Option<u64>, DecodeError>)
    ensures
        r == message_id_of(*v),
{
    match obj_get(v, "message") {
        None => Ok(None),
        Some(m) => match obj_get(m, "id") {
            Some(JsonValue::Str(s)) => match parse_u64_dec(s.as_str()) {
                Some(n) => Ok(Some(n)),
                None => Err(DecodeError::BadId),
            },
            _ => Err(DecodeError::BadId),
        },
    }
}

fn decode_component(v: &JsonValue) -> (r: Result<Interaction, DecodeError>)
    ensures
        decode_result_view(r) == decode_component_spec(*v),
{
    let id: u64 = match decode_id(v) {
        Ok(n) => n,
        Err(e) => {
            return Err(e);
        },
    };
    let token: String = match decode_token(v) {
        Some(s) => s,
        None => {
            return Err(DecodeError::MissingToken);
        },
    };
    let data: &JsonValue = match obj_get(v, "data") {
        Some(d) => d,
        None => {
            return Err(DecodeError::MissingCustomId);
        },
    };
    let custom_id: String = match obj_get(data, "custom_id") {
        Some(JsonValue::Str(s)) => s.clone(),
        _ => {
            return Err(DecodeError::MissingCustomId);
        },
    };
    let message_id: Option<u64> = match decode_message_id(v) {
        Ok(m) => m,
        Err(e) => {
            return Err(e);
        },
    };
    Ok(Interaction::Component { id, token, custom_id, message_id })
}

/// Decodes one parsed payload into the typed interaction model; the result
/// is exactly `decode_spec` of the payload.
pub fn decode_interaction(v: &JsonValue) -> (r: Result<Interaction, DecodeError>)
    ensures
        decode_result_view(r) == decode_spec(*v),
{
    let t: i64 = match obj_get(v, "type") {
        Some(JsonValue::Int(t)) => *t,
        _ => {
            return Err(DecodeError::MissingType);
        },
    };
    if t == 1 {
        Ok(Interaction::Ping)
    } else if t == 2 {
        decode_command(v)
    } else if t == 3 {
        decode_component(v)
    } else {
        Ok(Interaction::Other)
    }
}

/// Parsing and decoding are functions of the raw body bytes alone: two
/// parses of the same raw body yield the same payload value, and two
/// decodings of it yield structurally equal interactions.
pub proof fn lemma_decode_bytes_deterministic(
    bytes: Seq<u8>,
    v1: JsonValue,
    v2: JsonValue,
    r1: Result<Interaction, DecodeError>,
    r2: Result<Interaction, DecodeError>,
)
    requires
        json_of(bytes) == Some(v1),
        json_of(bytes) == Some(v2),
        decode_result_view(r1) == decode_spec(v1),
        decode_result_view(r2) == decode_spec(v2),
    ensures
        v1 == v2,
        decode_result_view(r1) == decode_result_view(r2),
{
}

} // verus!
