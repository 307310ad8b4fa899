//! Line-oriented recursive-descent parser from schema text to a `ProtoFile`.
use vstd::prelude::*;
use crate::ast::{
    texts, DmxpMessageOptions, DmxpMessageOptionsModel, DmxpServiceOptions,
    DmxpServiceOptionsModel, EnumValue, EnumValueModel, Field, FieldLabel, FieldModel, FieldType,
    FieldTypeModel, Method, MethodModel, ProtoFile, ProtoFileModel,
};
use crate::builder::{
    add_enum_value_m, add_field_m, add_method_m, empty_builder, end_enum_m, end_message_m,
    end_service_m, message_options_of, service_options_of, set_dmxp_message_options_m,
    set_dmxp_service_options_m, set_package_m, set_syntax_m, start_enum_m, start_message_m,
    start_service_m, AstBuilder, BuilderModel,
};
use crate::classify::{
    extract_bool, extract_bool_value, extract_literal, extract_literal_value, extract_number_value,
    extract_u32, field_line, is_field_line,
};
use crate::pattern::{captures_of, captures_view, compile_pattern, first_captures, pattern_compiles};
use crate::text::{
    chars_of, contains, contains_str, count_char, count_exec, find, find_exec,
    is_whitespace, parse_i32, parse_i32_spec, parse_u32, parse_u32_spec, same, slice, split_lines,
    split_words, starts_with, starts_with_str, string_of, trim, trim_end_char, trim_end_matches,
    trim_matches, trim_char, trim_ws, views, words, lines, is_ws,
};

verus! {

/// Shape of a method line: `rpc Name(Input) returns (Output)`.
pub const RPC_PATTERN: &'static str = "^rpc\\s+([A-Za-z_]\\w*)\\s*\\(\\s*([A-Za-z_]\\w*)\\s*\\)\\s*returns\\s*\\(\\s*([A-Za-z_]\\w*)\\s*\\)";

/// Structural errors; each aborts the whole parse.
#[derive(Debug)]
pub enum ParseError {
    /// The input ended inside a message, service or enum body.
    UnterminatedBlock,
    /// A field line with too few words for its layout (the line).
    MalformedField(String),
    /// A field line whose number is empty (the line).
    EmptyFieldNumber(String),
    /// A field number that is not a 32-bit integer (the number's text).
    InvalidFieldNumber(String),
    /// A method line not of the shape `rpc Name(In) returns (Out)` (the line).
    InvalidRpc(String),
    /// An enum value whose number is not a 32-bit integer (the number's text).
    InvalidEnumNumber(String),
    /// The method-line pattern did not compile.
    InvalidPattern,
}

pub enum ParseErrorModel {
    UnterminatedBlock,
    MalformedField(Seq<char>),
    EmptyFieldNumber(Seq<char>),
    InvalidFieldNumber(Seq<char>),
    InvalidRpc(Seq<char>),
    InvalidEnumNumber(Seq<char>),
    InvalidPattern,
}

impl ParseError {
    pub open spec fn model(&self) -> ParseErrorModel {
        match self {
            ParseError::UnterminatedBlock => ParseErrorModel::UnterminatedBlock,
            ParseError::MalformedField(s) => ParseErrorModel::MalformedField(s@),
            ParseError::EmptyFieldNumber(s) => ParseErrorModel::EmptyFieldNumber(s@),
            ParseError::InvalidFieldNumber(s) => ParseErrorModel::InvalidFieldNumber(s@),
            ParseError::InvalidRpc(s) => ParseErrorModel::InvalidRpc(s@),
            ParseError::InvalidEnumNumber(s) => ParseErrorModel::InvalidEnumNumber(s@),
            ParseError::InvalidPattern => ParseErrorModel::InvalidPattern,
        }
    }
}

/// Outcome of parsing a block: how many lines past its start the parse
/// stopped, and the builder then.
pub type Step = Result<(nat, BuilderModel), ParseErrorModel>;

pub open spec fn shift_by(d: nat, r: Step) -> Step {
    match r {
        Ok((k, b)) => Ok((k + d, b)),
        Err(e) => Err(e),
    }
}

pub open spec fn skippable(line: Seq<char>) -> bool {
    line.len() == 0 || starts_with(line, "//"@)
}

/// The text after the keyword `kw` at the start of `line`.
pub open spec fn after(line: Seq<char>, kw: Seq<char>) -> Seq<char> {
    line.subrange(kw.len() as int, line.len() as int)
}

/// Name declared by `kw Name {`: the first word after the keyword, without
/// trailing braces.
pub open spec fn decl_name(line: Seq<char>, kw: Seq<char>) -> Option<Seq<char>> {
    let w = words(after(line, kw));
    if starts_with(line, kw) && w.len() > 0 {
        Some(trim_end_char(w[0], '{'))
    } else {
        None
    }
}

/// `s` with every leading blank or `=` removed.
pub open spec fn trim_start_assign(s: Seq<char>) -> Seq<char>
    decreases s.len(),
{
    if s.len() > 0 && (is_ws(s[0]) || s[0] == '=') {
        trim_start_assign(s.drop_first())
    } else {
        s
    }
}

/// `syntax = "label";` sets the syntax label, unless the label is empty.
pub open spec fn syntax_step(line: Seq<char>, b: BuilderModel) -> BuilderModel {
    let label = trim_char(trim(trim_end_char(trim_start_assign(after(line, "syntax"@)), ';')), '"');
    if label.len() > 0 {
        set_syntax_m(b, label)
    } else {
        b
    }
}

/// `package name;` sets the package; without the final `;` nothing happens.
pub open spec fn package_step(line: Seq<char>, b: BuilderModel) -> BuilderModel {
    let rest = after(line, "package"@);
    if rest.len() > 0 && rest.last() == ';' {
        set_package_m(b, trim(rest.drop_last()))
    } else {
        b
    }
}

/// The sub-field of a message's channel binding that an option line sets.
#[derive(Debug, Clone, Copy, PartialEq, Eq, Structural)]
pub enum MessageOptionKey {
    Channel,
    Persistent,
    BufferSize,
    WalEnabled,
    SwapEnabled,
    Priority,
}

/// Decodes the key of a message option line; the first key that the line
/// mentions wins, in this order.
pub open spec fn message_option_key(line: Seq<char>) -> Option<MessageOptionKey> {
    if contains(line, "dmxp_channel"@) {
        Some(MessageOptionKey::Channel)
    } else if contains(line, "dmxp_persistent"@) {
        Some(MessageOptionKey::Persistent)
    } else if contains(line, "dmxp_buffer_size"@) {
        Some(MessageOptionKey::BufferSize)
    } else if contains(line, "dmxp_wal_enabled"@) {
        Some(MessageOptionKey::WalEnabled)
    } else if contains(line, "dmxp_swap_enabled"@) {
        Some(MessageOptionKey::SwapEnabled)
    } else if contains(line, "dmxp_priority"@) {
        Some(MessageOptionKey::Priority)
    } else {
        None
    }
}

pub open spec fn no_message_options() -> DmxpMessageOptionsModel {
    DmxpMessageOptionsModel {
        channel: None,
        persistent: None,
        buffer_size: None,
        wal_enabled: None,
        swap_enabled: None,
        priority: None,
    }
}

/// Merges one option line into a message's channel binding: the sub-field
/// that the line's key names is set when its value reads as the right type;
/// every other sub-field is kept.
pub open spec fn merge_message_option(
    o: DmxpMessageOptionsModel,
    line: Seq<char>,
) -> DmxpMessageOptionsModel {
    match message_option_key(line) {
        Some(MessageOptionKey::Channel) => match extract_literal(line, "dmxp_channel"@) {
            Some(v) => DmxpMessageOptionsModel { channel: Some(v), ..o },
            None => o,
        },
        Some(MessageOptionKey::Persistent) => match extract_bool(line, "dmxp_persistent"@) {
            Some(v) => DmxpMessageOptionsModel { persistent: Some(v), ..o },
            None => o,
        },
        Some(MessageOptionKey::BufferSize) => match extract_u32(line, "dmxp_buffer_size"@) {
            Some(v) => DmxpMessageOptionsModel { buffer_size: Some(v), ..o },
            None => o,
        },
        Some(MessageOptionKey::WalEnabled) => match extract_bool(line, "dmxp_wal_enabled"@) {
            Some(v) => DmxpMessageOptionsModel { wal_enabled: Some(v), ..o },
            None => o,
        },
        Some(MessageOptionKey::SwapEnabled) => match extract_bool(line, "dmxp_swap_enabled"@) {
            Some(v) => DmxpMessageOptionsModel { swap_enabled: Some(v), ..o },
            None => o,
        },
        Some(MessageOptionKey::Priority) => match extract_u32(line, "dmxp_priority"@) {
            Some(v) => DmxpMessageOptionsModel { priority: Some(v), ..o },
            None => o,
        },
        None => o,
    }
}

/// An option line in a message body: lines that mention `dmxp_` give the
/// open message a channel binding (an empty one if it had none) and merge
/// into it; other lines are ignored.
pub open spec fn message_option_step(line: Seq<char>, b: BuilderModel) -> BuilderModel {
    if contains(line, "dmxp_"@) {
        let o = match message_options_of(b) {
            Some(o) => o,
            None => no_message_options(),
        };
        set_dmxp_message_options_m(b, merge_message_option(o, line))
    } else {
        b
    }
}

/// Field type named by a type word: a scalar keyword, or else a reference
/// to a user-defined message.
pub open spec fn scalar_type(t: Seq<char>) -> FieldTypeModel {
    if t == "double"@ {
        FieldTypeModel::Double
    } else if t == "float"@ {
        FieldTypeModel::Float
    } else if t == "int32"@ {
        FieldTypeModel::Int32
    } else if t == "int64"@ {
        FieldTypeModel::Int64
    } else if t == "uint32"@ {
        FieldTypeModel::Uint32
    } else if t == "uint64"@ {
        FieldTypeModel::Uint64
    } else if t == "sint32"@ {
        FieldTypeModel::Sint32
    } else if t == "sint64"@ {
        FieldTypeModel::Sint64
    } else if t == "fixed32"@ {
        FieldTypeModel::Fixed32
    } else if t == "fixed64"@ {
        FieldTypeModel::Fixed64
    } else if t == "sfixed32"@ {
        FieldTypeModel::Sfixed32
    } else if t == "sfixed64"@ {
        FieldTypeModel::Sfixed64
    } else if t == "bool"@ {
        FieldTypeModel::Bool
    } else if t == "string"@ {
        FieldTypeModel::String
    } else if t == "bytes"@ {
        FieldTypeModel::Bytes
    } else {
        FieldTypeModel::Message(t)
    }
}

/// The field that a field line declares, or the error it raises.
pub open spec fn field_of(line: Seq<char>) -> Option<Result<FieldModel, ParseErrorModel>> {
    let p = words(line);
    if p.len() < 3 {
        None
    } else if p[0] == "repeated"@ && p.len() < 5 {
        Some(Err(ParseErrorModel::MalformedField(line)))
    } else if p[0] != "repeated"@ && p.len() < 4 {
        Some(Err(ParseErrorModel::MalformedField(line)))
    } else {
        let rep = p[0] == "repeated"@;
        let ty = if rep { p[1] } else { p[0] };
        let name = if rep { p[2] } else { p[1] };
        let num = trim_end_char(if rep { p[4] } else { p[3] }, ';');
        if num.len() == 0 {
            Some(Err(ParseErrorModel::EmptyFieldNumber(line)))
        } else {
            match parse_i32_spec(num) {
                None => Some(Err(ParseErrorModel::InvalidFieldNumber(num))),
                Some(n) => Some(
                    Ok(
                        FieldModel {
                            name,
                            field_type: scalar_type(ty),
                            number: n,
                            label: if rep {
                                FieldLabel::Repeated
                            } else {
                                FieldLabel::Optional
                            },
                            options: Seq::empty(),
                            default_value: None,
                        },
                    ),
                ),
            }
        }
    }
}

pub open spec fn field_step(line: Seq<char>, b: BuilderModel) -> Result<BuilderModel, ParseErrorModel> {
    match field_of(line) {
        None => Ok(b),
        Some(Err(e)) => Err(e),
        Some(Ok(f)) => Ok(add_field_m(b, f)),
    }
}

pub open spec fn service_options_or_empty(b: BuilderModel) -> DmxpServiceOptionsModel {
    match service_options_of(b) {
        Some(o) => o,
        None => DmxpServiceOptionsModel { channels: Seq::empty(), timeout_ms: None, retry_count: None },
    }
}

/// An option line in a service body. A `dmxp_channels` value is appended to
/// the service's channel list; `dmxp_timeout_ms` and `dmxp_retry_count`
/// values that read as numbers are set. The three are independent.
pub open spec fn service_option_step(line: Seq<char>, b: BuilderModel) -> BuilderModel {
    let b1 = match extract_literal(line, "dmxp_channels"@) {
        Some(c) => {
            let o = service_options_or_empty(b);
            set_dmxp_service_options_m(b, DmxpServiceOptionsModel { channels: o.channels.push(c), ..o })
        },
        None => b,
    };
    let b2 = match extract_literal(line, "dmxp_timeout_ms"@) {
        Some(t) => match parse_u32_spec(t) {
            Some(v) => set_dmxp_service_options_m(
                b1,
                DmxpServiceOptionsModel { timeout_ms: Some(v), ..service_options_or_empty(b1) },
            ),
            None => b1,
        },
        None => b1,
    };
    match extract_literal(line, "dmxp_retry_count"@) {
        Some(t) => match parse_u32_spec(t) {
            Some(v) => set_dmxp_service_options_m(
                b2,
                DmxpServiceOptionsModel { retry_count: Some(v), ..service_options_or_empty(b2) },
            ),
            None => b2,
        },
        None => b2,
    }
}

/// A method line with any `//` comment cut off, then trailing `;` and blanks.
pub open spec fn method_text(line: Seq<char>) -> Seq<char> {
    let cut = match find(line, "//"@) {
        Some(i) => line.subrange(0, i),
        None => line,
    };
    trim(trim_end_char(cut, ';'))
}

/// The method that the captures of a method line give: groups 1 to 3 are
/// its name, input and output type.
pub open spec fn method_of_captures(
    caps: Option<Seq<Option<Seq<char>>>>,
    text: Seq<char>,
) -> Result<MethodModel, ParseErrorModel> {
    match caps {
        Some(c) => if c.len() >= 4 && c[1] is Some && c[2] is Some && c[3] is Some {
            Ok(
                MethodModel {
                    name: c[1]->0,
                    input_type: c[2]->0,
                    output_type: c[3]->0,
                    options: Seq::empty(),
                    dmxp_options: None,
                },
            )
        } else {
            Err(ParseErrorModel::InvalidRpc(text))
        },
        None => Err(ParseErrorModel::InvalidRpc(text)),
    }
}

/// A line starting with `rpc` in a service body.
pub open spec fn method_step(line: Seq<char>, b: BuilderModel) -> Result<BuilderModel, ParseErrorModel> {
    let t = method_text(line);
    if !starts_with(t, "rpc "@) {
        Ok(b)
    } else if !pattern_compiles(RPC_PATTERN@) {
        Err(ParseErrorModel::InvalidPattern)
    } else {
        match method_of_captures(first_captures(RPC_PATTERN@, t), t) {
            Ok(m) => Ok(add_method_m(b, m)),
            Err(e) => Err(e),
        }
    }
}

/// An enum value line `NAME = number;`: split at the first `=`, the left
/// side is the name and the right side, without its trailing `;`, must read
/// as a 32-bit integer.
pub open spec fn enum_value_step(line: Seq<char>, b: BuilderModel) -> Result<BuilderModel, ParseErrorModel> {
    match find(line, "="@) {
        Some(i) => {
            let name = trim(line.subrange(0, i));
            let num = trim(trim_end_char(line.subrange(i + 1, line.len() as int), ';'));
            match parse_i32_spec(num) {
                Some(n) => Ok(
                    add_enum_value_m(b, EnumValueModel { name, number: n, options: Seq::empty() }),
                ),
                None => Err(ParseErrorModel::InvalidEnumNumber(num)),
            }
        },
        None => Ok(b),
    }
}

pub open spec fn sat_add(a: nat, b: nat) -> nat {
    if a + b > usize::MAX {
        usize::MAX as nat
    } else {
        a + b
    }
}

/// Brace depth after a line, or `None` when the line closes the body.
pub open spec fn depth_after(depth: nat, line: Seq<char>) -> Option<nat> {
    let d = sat_add(depth, count_char(line, '{'));
    let closes = count_char(line, '}');
    if closes > 0 && d <= closes {
        None
    } else if closes > 0 {
        Some((d - closes) as nat)
    } else {
        Some(d)
    }
}

pub open spec fn line_at(lines: Seq<Seq<char>>, i: int) -> Seq<char> {
    trim(lines[i])
}

/// A message declared on line `i`: its body follows until its lone `}`.
pub open spec fn message_block(lines: Seq<Seq<char>>, i: int, b: BuilderModel) -> Step
    decreases lines.len() - i, 0nat,
{
    if i < 0 || i >= lines.len() {
        Ok((0, b))
    } else {
        match decl_name(line_at(lines, i), "message "@) {
            None => Ok((0, b)),
            Some(name) => match message_body(lines, i + 1, start_message_m(b, name)) {
                Ok((k, b2)) => Ok((k + 1, end_message_m(b2))),
                Err(e) => Err(e),
            },
        }
    }
}

/// A message body from line `s` on; stops at a line that is exactly `}`.
pub open spec fn message_body(lines: Seq<Seq<char>>, s: int, b: BuilderModel) -> Step
    decreases lines.len() - s, 1nat,
{
    if s < 0 || s >= lines.len() {
        Err(ParseErrorModel::UnterminatedBlock)
    } else {
        let line = line_at(lines, s);
        if skippable(line) {
            shift_by(1, message_body(lines, s + 1, b))
        } else if line == "}"@ {
            Ok((0, b))
        } else if starts_with(line, "message "@) {
            match message_block(lines, s, b) {
                Ok((n, b1)) => if s + n + 1 <= lines.len() {
                    shift_by(n + 1, message_body(lines, s + n + 1, b1))
                } else {
                    Err(ParseErrorModel::UnterminatedBlock)
                },
                Err(e) => Err(e),
            }
        } else if starts_with(line, "enum "@) {
            match enum_block(lines, s, b) {
                Ok((n, b1)) => if s + n + 1 <= lines.len() {
                    shift_by(n + 1, message_body(lines, s + n + 1, b1))
                } else {
                    Err(ParseErrorModel::UnterminatedBlock)
                },
                Err(e) => Err(e),
            }
        } else if starts_with(line, "option "@) {
            shift_by(1, message_body(lines, s + 1, message_option_step(line, b)))
        } else if field_line(line) {
            match field_step(line, b) {
                Ok(b1) => shift_by(1, message_body(lines, s + 1, b1)),
                Err(e) => Err(e),
            }
        } else {
            shift_by(1, message_body(lines, s + 1, b))
        }
    }
}

/// An enum declared on line `i`.
pub open spec fn enum_block(lines: Seq<Seq<char>>, i: int, b: BuilderModel) -> Step
    decreases lines.len() - i, 0nat,
{
    if i < 0 || i >= lines.len() {
        Ok((0, b))
    } else {
        match decl_name(line_at(lines, i), "enum "@) {
            None => Ok((0, b)),
            Some(name) => match enum_body(lines, i + 1, 1, start_enum_m(b, name)) {
                Ok((k, b2)) => Ok((k + 1, end_enum_m(b2))),
                Err(e) => Err(e),
            },
        }
    }
}

/// An enum body from line `s` on, at brace depth `depth`; stops at the line
/// whose `}` closes it.
pub open spec fn enum_body(lines: Seq<Seq<char>>, s: int, depth: nat, b: BuilderModel) -> Step
    decreases lines.len() - s, 1nat,
{
    if s < 0 || s >= lines.len() {
        Err(ParseErrorModel::UnterminatedBlock)
    } else {
        let line = line_at(lines, s);
        if skippable(line) {
            shift_by(1, enum_body(lines, s + 1, depth, b))
        } else {
            match depth_after(depth, line) {
                None => Ok((0, b)),
                Some(d) => if contains(line, "="@) && !starts_with(line, "option"@) {
                    match enum_value_step(line, b) {
                        Ok(b1) => shift_by(1, enum_body(lines, s + 1, d, b1)),
                        Err(e) => Err(e),
                    }
                } else {
                    shift_by(1, enum_body(lines, s + 1, d, b))
                },
            }
        }
    }
}

/// A service declared on line `i`.
pub open spec fn service_block(lines: Seq<Seq<char>>, i: int, b: BuilderModel) -> Step
    decreases lines.len() - i, 0nat,
{
    if i < 0 || i >= lines.len() {
        Ok((0, b))
    } else {
        match decl_name(line_at(lines, i), "service "@) {
            None => Ok((0, b)),
            Some(name) => match service_body(lines, i + 1, 1, start_service_m(b, name)) {
                Ok((k, b2)) => Ok((k + 1, end_service_m(b2))),
                Err(e) => Err(e),
            },
        }
    }
}

/// A service body from line `s` on, at brace depth `depth`.
pub open spec fn service_body(lines: Seq<Seq<char>>, s: int, depth: nat, b: BuilderModel) -> Step
    decreases lines.len() - s, 1nat,
{
    if s < 0 || s >= lines.len() {
        Err(ParseErrorModel::UnterminatedBlock)
    } else {
        let line = line_at(lines, s);
        if skippable(line) {
            shift_by(1, service_body(lines, s + 1, depth, b))
        } else {
            match depth_after(depth, line) {
                None => Ok((0, b)),
                Some(d) => if starts_with(line, "option"@) {
                    shift_by(1, service_body(lines, s + 1, d, service_option_step(line, b)))
                } else if starts_with(line, "rpc"@) {
                    match method_step(line, b) {
                        Ok(b1) => shift_by(1, service_body(lines, s + 1, d, b1)),
                        Err(e) => Err(e),
                    }
                } else {
                    shift_by(1, service_body(lines, s + 1, d, b))
                },
            }
        }
    }
}

/// The top level from line `i` on. Unrecognized lines are skipped.
pub open spec fn top_level(lines: Seq<Seq<char>>, i: int, b: BuilderModel) -> Result<BuilderModel, ParseErrorModel>
    decreases lines.len() - i, 2nat,
{
    if i < 0 || i >= lines.len() {
        Ok(b)
    } else {
        let line = line_at(lines, i);
        if skippable(line) {
            top_level(lines, i + 1, b)
        } else if starts_with(line, "syntax"@) {
            top_level(lines, i + 1, syntax_step(line, b))
        } else if starts_with(line, "package"@) {
            top_level(lines, i + 1, package_step(line, b))
        } else if starts_with(line, "message "@) {
            match message_block(lines, i, b) {
                Ok((n, b1)) => if i + n + 1 <= lines.len() {
                    top_level(lines, i + n + 1, b1)
                } else {
                    Ok(b1)
                },
                Err(e) => Err(e),
            }
        } else if starts_with(line, "service "@) {
            match service_block(lines, i, b) {
                Ok((n, b1)) => if i + n + 1 <= lines.len() {
                    top_level(lines, i + n + 1, b1)
                } else {
                    Ok(b1)
                },
                Err(e) => Err(e),
            }
        } else if starts_with(line, "enum "@) {
            match enum_block(lines, i, b) {
                Ok((n, b1)) => if i + n + 1 <= lines.len() {
                    top_level(lines, i + n + 1, b1)
                } else {
                    Ok(b1)
                },
                Err(e) => Err(e),
            }
        } else {
            top_level(lines, i + 1, b)
        }
    }
}

/// What parsing these lines gives: the file, or the first structural error.
pub open spec fn parse_lines(lines: Seq<Seq<char>>) -> Result<ProtoFileModel, ParseErrorModel> {
    match top_level(lines, 0, empty_builder()) {
        Ok(b) => Ok(b.file),
        Err(e) => Err(e),
    }
}

/// What parsing a schema text gives.
pub open spec fn parse_text(content: Seq<char>) -> Result<ProtoFileModel, ParseErrorModel> {
    parse_lines(lines(content))
}

pub open spec fn step_outcome(
    r: Result<(), ParseError>,
    start: int,
    end: int,
    b: BuilderModel,
    expected: Step,
) -> bool {
    match expected {
        Ok((k, bm)) => r is Ok && end == start + k && b == bm,
        Err(e) => r matches Err(x) && x.model() == e,
    }
}

pub open spec fn line_outcome(
    r: Result<(), ParseError>,
    b: BuilderModel,
    expected: Result<BuilderModel, ParseErrorModel>,
) -> bool {
    match expected {
        Ok(bm) => r is Ok && b == bm,
        Err(e) => r matches Err(x) && x.model() == e,
    }
}

proof fn lemma_shift_shift(a: nat, c: nat, r: Step)
    ensures
        shift_by(a, shift_by(c, r)) == shift_by(a + c, r),
{
}

/// Parses a schema text into a file.
pub fn parse_proto_source(content: String) -> (r: Result<ProtoFile, ParseError>)
    ensures
        match parse_text(content@) {
            Ok(f) => r matches Ok(x) && x.model() == f,
            Err(e) => r matches Err(x) && x.model() == e,
        },
{
    let mut parser = ProtoParser::new(content);
    parser.parse()
}

/// Parser state: the schema text, its lines, and the line being read.
#[derive(Debug)]
pub struct ProtoParser {
    pub content: String,
    pub position: usize,
    pub lines: Vec<String>,
    pub current_line: usize,
}

impl ProtoParser {
    /// The lines, as character sequences.
    pub open spec fn line_texts(&self) -> Seq<Seq<char>> {
        texts(self.lines@)
    }

    /// The parts a parse never changes.
    pub open spec fn same_source(&self, other: &ProtoParser) -> bool {
        self.lines@ == other.lines@ && self.content == other.content && self.position
            == other.position
    }

    /// Holds `content`, split into lines as `str::lines` splits it.
    pub fn new(content: String) -> (r: Self)
        ensures
            r.content == content,
            r.position == 0,
            r.current_line == 0,
            r.line_texts() == lines(content@),
    {
        let chars = chars_of(content.as_str());
        let split = split_lines(&chars);
        let mut out: Vec<String> = Vec::new();
        let mut i: usize = 0;
        while i < split.len()
            invariant
                i <= split.len(),
                texts(out@) == views(split@).subrange(0, i as int),
            decreases split.len() - i,
        {
            assert(views(split@)[i as int] == split@[i as int]@);
            let ghost before = out@;
            let s = string_of(&split[i]);
            out.push(s);
            assert(texts(out@) =~= texts(before).push(s@));
            i = i + 1;
            assert(texts(out@) =~= views(split@).subrange(0, i as int));
        }
        assert(views(split@).subrange(0, split.len() as int) =~= views(split@));
        ProtoParser { content, position: 0, lines: out, current_line: 0 }
    }

    /// The current line, trimmed.
    fn line(&self) -> (r: Vec<char>)
        requires
            self.current_line < self.lines.len(),
        ensures
            r@ == line_at(self.line_texts(), self.current_line as int),
    {
        trim_ws(&chars_of(self.lines[self.current_line].as_str()))
    }

    /// Parses all lines into a file, from the first line on.
    pub fn parse(&mut self) -> (r: Result<ProtoFile, ParseError>)
        ensures
            final(self).same_source(old(self)),
            match parse_lines(old(self).line_texts()) {
                Ok(f) => r matches Ok(x) && x.model() == f,
                Err(e) => r matches Err(x) && x.model() == e,
            },
    {
        let mut builder = AstBuilder::new();
        self.current_line = 0;
        let ghost l = self.line_texts();
        while self.current_line < self.lines.len()
            invariant
                self.same_source(old(self)),
                l == self.line_texts(),
                self.current_line <= self.lines.len(),
                top_level(l, 0, empty_builder()) == top_level(
                    l,
                    self.current_line as int,
                    builder.model(),
                ),
            decreases self.lines.len() - self.current_line,
        {
            let line = self.line();
            if line.len() == 0 || starts_with_str(&line, "//") {
                self.current_line = self.current_line + 1;
                continue;
            }
            if starts_with_str(&line, "syntax") {
                self.parse_syntax(&mut builder);
            } else if starts_with_str(&line, "package") {
                self.parse_package(&mut builder);
            } else if starts_with_str(&line, "message ") {
                match self.parse_message(&mut builder) {
                    Ok(()) => {},
                    Err(e) => return Err(e),
                }
            } else if starts_with_str(&line, "service ") {
                match self.parse_service(&mut builder) {
                    Ok(()) => {},
                    Err(e) => return Err(e),
                }
            } else if starts_with_str(&line, "enum ") {
                match self.parse_enum(&mut builder) {
                    Ok(()) => {},
                    Err(e) => return Err(e),
                }
            }
            self.current_line = self.current_line + 1;
        }
        Ok(builder.build())
    }

    fn parse_syntax(&self, builder: &mut AstBuilder)
        requires
            self.current_line < self.lines.len(),
            starts_with(line_at(self.line_texts(), self.current_line as int), "syntax"@),
        ensures
            final(builder).model() == syntax_step(
                line_at(self.line_texts(), self.current_line as int),
                old(builder).model(),
            ),
    {
        let line = self.line();
        let rest = after_keyword(&line, "syntax");
        let mut a: usize = 0;
        assert(rest@.subrange(0, rest.len() as int) =~= rest@);
        while a < rest.len() && (is_whitespace(rest[a]) || rest[a] == '=')
            invariant
                a <= rest.len(),
                trim_start_assign(rest@) == trim_start_assign(
                    rest@.subrange(a as int, rest.len() as int),
                ),
            decreases rest.len() - a,
        {
            assert(rest@.subrange(a as int, rest.len() as int).drop_first() =~= rest@.subrange(
                a + 1,
                rest.len() as int,
            ));
            a = a + 1;
        }
        let v = slice(&rest, a, rest.len());
        let v = trim_end_matches(&v, ';');
        let v = trim_ws(&v);
        let v = trim_matches(&v, '"');
        if v.len() > 0 {
            builder.set_syntax(string_of(&v));
        }
    }

    fn parse_package(&self, builder: &mut AstBuilder)
        requires
            self.current_line < self.lines.len(),
            starts_with(line_at(self.line_texts(), self.current_line as int), "package"@),
        ensures
            final(builder).model() == package_step(
                line_at(self.line_texts(), self.current_line as int),
                old(builder).model(),
            ),
    {
        let line = self.line();
        let rest = after_keyword(&line, "package");
        if rest.len() > 0 && rest[rest.len() - 1] == ';' {
            let name = slice(&rest, 0, rest.len() - 1);
            assert(name@ =~= rest@.drop_last());
            builder.set_package(string_of(&trim_ws(&name)));
        }
    }

    /// Parses the message declared on the current line, up to its closing line.
    fn parse_message(&mut self, builder: &mut AstBuilder) -> (r: Result<(), ParseError>)
        requires
            old(self).current_line < old(self).lines.len(),
        ensures
            final(self).same_source(old(self)),
            step_outcome(
                r,
                old(self).current_line as int,
                final(self).current_line as int,
                final(builder).model(),
                message_block(
                    old(self).line_texts(),
                    old(self).current_line as int,
                    old(builder).model(),
                ),
            ),
            r is Ok ==> final(self).current_line < final(self).lines.len(),
        decreases old(self).lines.len() - old(self).current_line, 0nat,
    {
        let line = self.line();
        match declared_name(&line, "message ") {
            None => Ok(()),
            Some(name) => {
                builder.start_message(string_of(&name));
                self.current_line = self.current_line + 1;
                match self.parse_message_body(builder) {
                    Ok(()) => {
                        builder.end_message();
                        Ok(())
                    },
                    Err(e) => Err(e),
                }
            },
        }
    }

    /// Parses a message body from the current line up to its lone `}`.
    fn parse_message_body(&mut self, builder: &mut AstBuilder) -> (r: Result<(), ParseError>)
        requires
            old(self).current_line <= old(self).lines.len(),
        ensures
            final(self).same_source(old(self)),
            step_outcome(
                r,
                old(self).current_line as int,
                final(self).current_line as int,
                final(builder).model(),
                message_body(
                    old(self).line_texts(),
                    old(self).current_line as int,
                    old(builder).model(),
                ),
            ),
            r is Ok ==> final(self).current_line < final(self).lines.len(),
        decreases old(self).lines.len() - old(self).current_line, 1nat,
    {
        let ghost l = self.line_texts();
        let ghost start = self.current_line as int;
        let ghost b0 = builder.model();
        while self.current_line < self.lines.len()
            invariant
                self.same_source(old(self)),
                l == self.line_texts(),
                l == old(self).line_texts(),
                start == old(self).current_line,
                b0 == old(builder).model(),
                start <= self.current_line <= self.lines.len(),
                message_body(l, start, b0) == shift_by(
                    (self.current_line - start) as nat,
                    message_body(l, self.current_line as int, builder.model()),
                ),
            decreases self.lines.len() - self.current_line,
        {
            let ghost cur = self.current_line as int;
            let ghost bc = builder.model();
            let line = self.line();
            if line.len() == 0 || starts_with_str(&line, "//") {
                proof {
                    lemma_shift_shift((cur - start) as nat, 1, message_body(l, cur + 1, bc));
                }
                self.current_line = self.current_line + 1;
                continue;
            }
            if same(&line, &chars_of("}")) {
                return Ok(());
            }
            if starts_with_str(&line, "message ") {
                match self.parse_message(builder) {
                    Ok(()) => {},
                    Err(e) => return Err(e),
                }
            } else if starts_with_str(&line, "enum ") {
                match self.parse_enum(builder) {
                    Ok(()) => {},
                    Err(e) => return Err(e),
                }
            } else if starts_with_str(&line, "option ") {
                self.parse_message_option(builder);
            } else if is_field_line(&line) {
                match self.parse_field(builder) {
                    Ok(()) => {},
                    Err(e) => return Err(e),
                }
            }
            proof {
                let n = (self.current_line - cur) as nat;
                lemma_shift_shift(
                    (cur - start) as nat,
                    n + 1,
                    message_body(l, self.current_line + 1, builder.model()),
                );
            }
            self.current_line = self.current_line + 1;
        }
        Err(ParseError::UnterminatedBlock)
    }

    fn parse_message_option(&self, builder: &mut AstBuilder)
        requires
            self.current_line < self.lines.len(),
        ensures
            final(builder).model() == message_option_step(
                line_at(self.line_texts(), self.current_line as int),
                old(builder).model(),
            ),
    {
        let line = self.line();
        if contains_str(&line, "dmxp_") {
            let mut o = match builder.take_dmxp_message_options() {
                Some(o) => o,
                None => no_message_options_exec(),
            };
            merge_message_option_exec(&mut o, &line);
            builder.set_dmxp_message_options(o);
        }
    }

    fn parse_field(&self, builder: &mut AstBuilder) -> (r: Result<(), ParseError>)
        requires
            self.current_line < self.lines.len(),
        ensures
            line_outcome(
                r,
                final(builder).model(),
                field_step(line_at(self.line_texts(), self.current_line as int), old(builder).model()),
            ),
    {
        let line = self.line();
        match field_of_line(&line) {
            None => Ok(()),
            Some(Err(e)) => Err(e),
            Some(Ok(f)) => {
                builder.add_field(f);
                Ok(())
            },
        }
    }

    /// The field type that a type word names.
    pub fn parse_field_type(&self, type_str: &str) -> (r: FieldType)
        ensures
            r.model() == scalar_type(type_str@),
    {
        field_type_of(&chars_of(type_str))
    }

    /// Parses the service declared on the current line, up to its closing line.
    fn parse_service(&mut self, builder: &mut AstBuilder) -> (r: Result<(), ParseError>)
        requires
            old(self).current_line < old(self).lines.len(),
        ensures
            final(self).same_source(old(self)),
            step_outcome(
                r,
                old(self).current_line as int,
                final(self).current_line as int,
                final(builder).model(),
                service_block(
                    old(self).line_texts(),
                    old(self).current_line as int,
                    old(builder).model(),
                ),
            ),
            r is Ok ==> final(self).current_line < final(self).lines.len(),
    {
        let line = self.line();
        match declared_name(&line, "service ") {
            None => Ok(()),
            Some(name) => {
                builder.start_service(string_of(&name));
                self.current_line = self.current_line + 1;
                match self.parse_service_body(builder) {
                    Ok(()) => {
                        builder.end_service();
                        Ok(())
                    },
                    Err(e) => Err(e),
                }
            },
        }
    }

    /// Parses a service body from the current line up to the line whose `}`
    /// closes it.
    fn parse_service_body(&mut self, builder: &mut AstBuilder) -> (r: Result<(), ParseError>)
        requires
            old(self).current_line <= old(self).lines.len(),
        ensures
            final(self).same_source(old(self)),
            step_outcome(
                r,
                old(self).current_line as int,
                final(self).current_line as int,
                final(builder).model(),
                service_body(
                    old(self).line_texts(),
                    old(self).current_line as int,
                    1,
                    old(builder).model(),
                ),
            ),
            r is Ok ==> final(self).current_line < final(self).lines.len(),
    {
        let ghost l = self.line_texts();
        let ghost start = self.current_line as int;
        let ghost b0 = builder.model();
        let mut depth: usize = 1;
        while self.current_line < self.lines.len()
            invariant
                self.same_source(old(self)),
                l == self.line_texts(),
                l == old(self).line_texts(),
                start == old(self).current_line,
                b0 == old(builder).model(),
                start <= self.current_line <= self.lines.len(),
                service_body(l, start, 1, b0) == shift_by(
                    (self.current_line - start) as nat,
                    service_body(l, self.current_line as int, depth as nat, builder.model()),
                ),
            decreases self.lines.len() - self.current_line,
        {
            let ghost cur = self.current_line as int;
            let ghost bc = builder.model();
            let ghost dc = depth as nat;
            let line = self.line();
            if line.len() == 0 || starts_with_str(&line, "//") {
                proof {
                    lemma_shift_shift((cur - start) as nat, 1, service_body(l, cur + 1, dc, bc));
                }
                self.current_line = self.current_line + 1;
                continue;
            }
            match next_depth(depth, &line) {
                None => return Ok(()),
                Some(d) => {
                    depth = d;
                },
            }
            if starts_with_str(&line, "option") {
                self.parse_service_option(builder);
            } else if starts_with_str(&line, "rpc") {
                match self.parse_method(builder) {
                    Ok(()) => {},
                    Err(e) => return Err(e),
                }
            }
            proof {
                lemma_shift_shift(
                    (cur - start) as nat,
                    1,
                    service_body(l, cur + 1, depth as nat, builder.model()),
                );
            }
            self.current_line = self.current_line + 1;
        }
        Err(ParseError::UnterminatedBlock)
    }

    fn parse_service_option(&self, builder: &mut AstBuilder)
        requires
            self.current_line < self.lines.len(),
        ensures
            final(builder).model() == service_option_step(
                line_at(self.line_texts(), self.current_line as int),
                old(builder).model(),
            ),
    {
        let line = self.line();
        if let Some(c) = extract_literal_value(&line, "dmxp_channels") {
            let mut o = match builder.take_dmxp_service_options() {
                Some(o) => o,
                None => no_service_options_exec(),
            };
            let ghost before = o;
            o.channels.push(string_of(&c));
            assert(texts(o.channels@) =~= texts(before.channels@).push(c@));
            builder.set_dmxp_service_options(o);
        }
        if let Some(t) = extract_literal_value(&line, "dmxp_timeout_ms") {
            if let Some(v) = parse_u32(&t) {
                let mut o = match builder.take_dmxp_service_options() {
                    Some(o) => o,
                    None => no_service_options_exec(),
                };
                o.timeout_ms = Some(v);
                builder.set_dmxp_service_options(o);
            }
        }
        if let Some(t) = extract_literal_value(&line, "dmxp_retry_count") {
            if let Some(v) = parse_u32(&t) {
                let mut o = match builder.take_dmxp_service_options() {
                    Some(o) => o,
                    None => no_service_options_exec(),
                };
                o.retry_count = Some(v);
                builder.set_dmxp_service_options(o);
            }
        }
    }

    fn parse_method(&self, builder: &mut AstBuilder) -> (r: Result<(), ParseError>)
        requires
            self.current_line < self.lines.len(),
        ensures
            line_outcome(
                r,
                final(builder).model(),
                method_step(line_at(self.line_texts(), self.current_line as int), old(builder).model()),
            ),
    {
        let line = self.line();
        let t = method_text_exec(&line);
        if !starts_with_str(&t, "rpc ") {
            return Ok(());
        }
        let text = string_of(&t);
        let p = match compile_pattern(RPC_PATTERN) {
            Ok(p) => p,
            Err(_) => return Err(ParseError::InvalidPattern),
        };
        let caps = captures_of(&p, text.as_str());
        match method_from_captures(caps, text.as_str()) {
            Ok(m) => {
                builder.add_method(m);
                Ok(())
            },
            Err(e) => Err(e),
        }
    }

    /// Parses the enum declared on the current line, up to its closing line.
    fn parse_enum(&mut self, builder: &mut AstBuilder) -> (r: Result<(), ParseError>)
        requires
            old(self).current_line < old(self).lines.len(),
        ensures
            final(self).same_source(old(self)),
            step_outcome(
                r,
                old(self).current_line as int,
                final(self).current_line as int,
                final(builder).model(),
                enum_block(
                    old(self).line_texts(),
                    old(self).current_line as int,
                    old(builder).model(),
                ),
            ),
            r is Ok ==> final(self).current_line < final(self).lines.len(),
    {
        let line = self.line();
        match declared_name(&line, "enum ") {
            None => Ok(()),
            Some(name) => {
                builder.start_enum(string_of(&name));
                self.current_line = self.current_line + 1;
                match self.parse_enum_body(builder) {
                    Ok(()) => {
                        builder.end_enum();
                        Ok(())
                    },
                    Err(e) => Err(e),
                }
            },
        }
    }

    /// Parses an enum body from the current line up to the line whose `}`
    /// closes it.
    fn parse_enum_body(&mut self, builder: &mut AstBuilder) -> (r: Result<(), ParseError>)
        requires
            old(self).current_line <= old(self).lines.len(),
        ensures
            final(self).same_source(old(self)),
            step_outcome(
                r,
                old(self).current_line as int,
                final(self).current_line as int,
                final(builder).model(),
                enum_body(
                    old(self).line_texts(),
                    old(self).current_line as int,
                    1,
                    old(builder).model(),
                ),
            ),
            r is Ok ==> final(self).current_line < final(self).lines.len(),
    {
        let ghost l = self.line_texts();
        let ghost start = self.current_line as int;
        let ghost b0 = builder.model();
        let mut depth: usize = 1;
        while self.current_line < self.lines.len()
            invariant
                self.same_source(old(self)),
                l == self.line_texts(),
                l == old(self).line_texts(),
                start == old(self).current_line,
                b0 == old(builder).model(),
                start <= self.current_line <= self.lines.len(),
                enum_body(l, start, 1, b0) == shift_by(
                    (self.current_line - start) as nat,
                    enum_body(l, self.current_line as int, depth as nat, builder.model()),
                ),
            decreases self.lines.len() - self.current_line,
        {
            let ghost cur = self.current_line as int;
            let ghost bc = builder.model();
            let ghost dc = depth as nat;
            let line = self.line();
            if line.len() == 0 || starts_with_str(&line, "//") {
                proof {
                    lemma_shift_shift((cur - start) as nat, 1, enum_body(l, cur + 1, dc, bc));
                }
                self.current_line = self.current_line + 1;
                continue;
            }
            match next_depth(depth, &line) {
                None => return Ok(()),
                Some(d) => {
                    depth = d;
                },
            }
            if contains_str(&line, "=") && !starts_with_str(&line, "option") {
                match self.parse_enum_value(builder) {
                    Ok(()) => {},
                    Err(e) => return Err(e),
                }
            }
            proof {
                lemma_shift_shift(
                    (cur - start) as nat,
                    1,
                    enum_body(l, cur + 1, depth as nat, builder.model()),
                );
            }
            self.current_line = self.current_line + 1;
        }
        Err(ParseError::UnterminatedBlock)
    }

    fn parse_enum_value(&self, builder: &mut AstBuilder) -> (r: Result<(), ParseError>)
        requires
            self.current_line < self.lines.len(),
        ensures
            line_outcome(
                r,
                final(builder).model(),
                enum_value_step(line_at(self.line_texts(), self.current_line as int), old(builder).model()),
            ),
    {
        let line = self.line();
        let eq = chars_of("=");
        proof {
            reveal_strlit("=");
        }
        assert(eq@.len() == 1);
        match find_exec(&line, &eq) {
            None => Ok(()),
            Some(i) => {
                assert(line@.len() == line.len());
                assert(i + 1 <= line.len());
                let name = trim_ws(&slice(&line, 0, i));
                let num = trim_ws(&trim_end_matches(&slice(&line, i + 1, line.len()), ';'));
                match parse_i32(&num) {
                    Some(n) => {
                        let v = EnumValue { name: string_of(&name), number: n, options: Vec::new() };
                        assert(v.model().options =~= Seq::<crate::ast::ProtoOptionModel>::empty());
                        builder.add_enum_value(v);
                        Ok(())
                    },
                    None => Err(ParseError::InvalidEnumNumber(string_of(&num))),
                }
            },
        }
    }
}

/// The text after the keyword `kw` at the start of `line`.
fn after_keyword(line: &Vec<char>, kw: &str) -> (r: Vec<char>)
    requires
        starts_with(line@, kw@),
    ensures
        r@ == after(line@, kw@),
{
    let k = chars_of(kw);
    slice(line, k.len(), line.len())
}

fn declared_name(line: &Vec<char>, kw: &str) -> (r: Option<Vec<char>>)
    ensures
        match decl_name(line@, kw@) {
            Some(n) => r matches Some(x) && x@ == n,
            None => r is None,
        },
{
    if !starts_with_str(line, kw) {
        return None;
    }
    let rest = after_keyword(line, kw);
    let w = split_words(&rest);
    assert(views(w@).len() == w.len());
    if w.len() == 0 {
        return None;
    }
    assert(views(w@)[0] == w@[0]@);
    Some(trim_end_matches(&w[0], '{'))
}

/// Brace depth after `line`, or `None` when the line closes the body.
fn next_depth(depth: usize, line: &Vec<char>) -> (r: Option<usize>)
    ensures
        match depth_after(depth as nat, line@) {
            Some(d) => r == Some(d as usize),
            None => r is None,
        },
{
    let opens = count_exec(line, '{');
    let closes = count_exec(line, '}');
    let d: usize = if opens > usize::MAX - depth {
        usize::MAX
    } else {
        depth + opens
    };
    if closes > 0 && d <= closes {
        None
    } else if closes > 0 {
        Some(d - closes)
    } else {
        Some(d)
    }
}

pub fn decode_message_option_key(line: &Vec<char>) -> (r: Option<MessageOptionKey>)
    ensures
        r == message_option_key(line@),
{
    if contains_str(line, "dmxp_channel") {
        Some(MessageOptionKey::Channel)
    } else if contains_str(line, "dmxp_persistent") {
        Some(MessageOptionKey::Persistent)
    } else if contains_str(line, "dmxp_buffer_size") {
        Some(MessageOptionKey::BufferSize)
    } else if contains_str(line, "dmxp_wal_enabled") {
        Some(MessageOptionKey::WalEnabled)
    } else if contains_str(line, "dmxp_swap_enabled") {
        Some(MessageOptionKey::SwapEnabled)
    } else if contains_str(line, "dmxp_priority") {
        Some(MessageOptionKey::Priority)
    } else {
        None
    }
}

fn no_message_options_exec() -> (r: DmxpMessageOptions)
    ensures
        r.model() == no_message_options(),
{
    DmxpMessageOptions {
        channel: None,
        persistent: None,
        buffer_size: None,
        wal_enabled: None,
        swap_enabled: None,
        priority: None,
    }
}

fn no_service_options_exec() -> (r: DmxpServiceOptions)
    ensures
        r.model() == (DmxpServiceOptionsModel {
            channels: Seq::empty(),
            timeout_ms: None,
            retry_count: None,
        }),
{
    let r = DmxpServiceOptions { channels: Vec::new(), timeout_ms: None, retry_count: None };
    assert(texts(r.channels@) =~= Seq::<Seq<char>>::empty());
    r
}

/// Merges one option line into a message's channel binding.
pub fn merge_message_option_exec(o: &mut DmxpMessageOptions, line: &Vec<char>)
    ensures
        final(o).model() == merge_message_option(old(o).model(), line@),
{
    match decode_message_option_key(line) {
        Some(MessageOptionKey::Channel) => {
            if let Some(v) = extract_literal_value(line, "dmxp_channel") {
                o.channel = Some(string_of(&v));
            }
        },
        Some(MessageOptionKey::Persistent) => {
            if let Some(v) = extract_bool_value(line, "dmxp_persistent") {
                o.persistent = Some(v);
            }
        },
        Some(MessageOptionKey::BufferSize) => {
            if let Some(v) = extract_number_value(line, "dmxp_buffer_size") {
                o.buffer_size = Some(v);
            }
        },
        Some(MessageOptionKey::WalEnabled) => {
            if let Some(v) = extract_bool_value(line, "dmxp_wal_enabled") {
                o.wal_enabled = Some(v);
            }
        },
        Some(MessageOptionKey::SwapEnabled) => {
            if let Some(v) = extract_bool_value(line, "dmxp_swap_enabled") {
                o.swap_enabled = Some(v);
            }
        },
        Some(MessageOptionKey::Priority) => {
            if let Some(v) = extract_number_value(line, "dmxp_priority") {
                o.priority = Some(v);
            }
        },
        None => {},
    }
}

fn word_is(w: &Vec<char>, k: &str) -> (r: bool)
    ensures
        r == (w@ == k@),
{
    same(w, &chars_of(k))
}

pub fn field_type_of(t: &Vec<char>) -> (r: FieldType)
    ensures
        r.model() == scalar_type(t@),
{
    if word_is(t, "double") {
        FieldType::Double
    } else if word_is(t, "float") {
        FieldType::Float
    } else if word_is(t, "int32") {
        FieldType::Int32
    } else if word_is(t, "int64") {
        FieldType::Int64
    } else if word_is(t, "uint32") {
        FieldType::Uint32
    } else if word_is(t, "uint64") {
        FieldType::Uint64
    } else if word_is(t, "sint32") {
        FieldType::Sint32
    } else if word_is(t, "sint64") {
        FieldType::Sint64
    } else if word_is(t, "fixed32") {
        FieldType::Fixed32
    } else if word_is(t, "fixed64") {
        FieldType::Fixed64
    } else if word_is(t, "sfixed32") {
        FieldType::Sfixed32
    } else if word_is(t, "sfixed64") {
        FieldType::Sfixed64
    } else if word_is(t, "bool") {
        FieldType::Bool
    } else if word_is(t, "string") {
        FieldType::String
    } else if word_is(t, "bytes") {
        FieldType::Bytes
    } else {
        FieldType::Message(string_of(t))
    }
}

/// The field that a field line declares, or the error it raises; `None`
/// for a line of fewer than three words.
pub fn field_of_line(line: &Vec<char>) -> (r: Option<Result<Field, ParseError>>)
    ensures
        match field_of(line@) {
            None => r is None,
            Some(Ok(f)) => r matches Some(Ok(x)) && x.model() == f,
            Some(Err(e)) => r matches Some(Err(x)) && x.model() == e,
        },
{
    let p = split_words(line);
    assert(views(p@).len() == p.len());
    if p.len() < 3 {
        return None;
    }
    assert(views(p@)[0] == p@[0]@);
    let rep = word_is(&p[0], "repeated");
    if rep && p.len() < 5 {
        return Some(Err(ParseError::MalformedField(string_of(line))));
    }
    if !rep && p.len() < 4 {
        return Some(Err(ParseError::MalformedField(string_of(line))));
    }
    let (ti, ni, ki): (usize, usize, usize) = if rep {
        (1, 2, 4)
    } else {
        (0, 1, 3)
    };
    assert(views(p@)[ti as int] == p@[ti as int]@);
    assert(views(p@)[ni as int] == p@[ni as int]@);
    assert(views(p@)[ki as int] == p@[ki as int]@);
    let num = trim_end_matches(&p[ki], ';');
    if num.len() == 0 {
        return Some(Err(ParseError::EmptyFieldNumber(string_of(line))));
    }
    match parse_i32(&num) {
        None => Some(Err(ParseError::InvalidFieldNumber(string_of(&num)))),
        Some(n) => {
            let f = Field {
                name: string_of(&p[ni]),
                field_type: field_type_of(&p[ti]),
                number: n,
                label: if rep {
                    FieldLabel::Repeated
                } else {
                    FieldLabel::Optional
                },
                options: Vec::new(),
                default_value: None,
            };
            assert(f.model().options =~= Seq::<crate::ast::ProtoOptionModel>::empty());
            Some(Ok(f))
        },
    }
}

fn method_text_exec(line: &Vec<char>) -> (r: Vec<char>)
    ensures
        r@ == method_text(line@),
{
    let cut = match find_exec(line, &chars_of("//")) {
        Some(i) => slice(line, 0, i),
        None => slice(line, 0, line.len()),
    };
    assert(line@.subrange(0, line.len() as int) =~= line@);
    trim_ws(&trim_end_matches(&cut, ';'))
}

/// The method that the captures of a method line give: groups 1 to 3 are
/// its name, input type and output type; anything else is an invalid
/// method line.
pub fn method_from_captures(caps: Option<Vec<Option<String>>>, text: &str) -> (r: Result<
    Method,
    ParseError,
>)
    ensures
        match method_of_captures(captures_view(caps), text@) {
            Ok(m) => r matches Ok(x) && x.model() == m,
            Err(e) => r matches Err(x) && x.model() == e,
        },
{
    match caps {
        Some(mut c) => {
            if c.len() >= 4 {
                let ghost whole = c;
                let ghost full = c@;
                c.truncate(4);
                let out = c.pop();
                let input = c.pop();
                let name = c.pop();
                assert(out == Some(full[3]));
                assert(input == Some(full[2]));
                assert(name == Some(full[1]));
                let ghost cv = captures_view(Some(whole))->0;
                assert(cv.len() == full.len());
                assert(full[1] is Some ==> cv[1] == Some(full[1]->0@));
                assert(full[2] is Some ==> cv[2] == Some(full[2]->0@));
                assert(full[3] is Some ==> cv[3] == Some(full[3]->0@));
                assert(full[1] is None ==> cv[1] is None);
                assert(full[2] is None ==> cv[2] is None);
                assert(full[3] is None ==> cv[3] is None);
                match (name, input, out) {
                    (Some(Some(n)), Some(Some(i)), Some(Some(o))) => {
                        let m = Method {
                            name: n,
                            input_type: i,
                            output_type: o,
                            options: Vec::new(),
                            dmxp_options: None,
                        };
                        assert(m.model().options =~= Seq::<crate::ast::ProtoOptionModel>::empty());
                        Ok(m)
                    },
                    _ => Err(ParseError::InvalidRpc(text.to_owned())),
                }
            } else {
                Err(ParseError::InvalidRpc(text.to_owned()))
            }
        },
        None => Err(ParseError::InvalidRpc(text.to_owned())),
    }
}

} // verus!
