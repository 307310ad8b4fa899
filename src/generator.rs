//! Code generation from a `ProtoFile` into declarations of a target language.
use vstd::prelude::*;
use crate::ast::{
    bound_channel, Enum, EnumValue, Field, FieldLabel, FieldType, FieldTypeModel, Message,
    Method, ProtoFile, Service,
};

verus! {

/// Target languages.
#[derive(Debug, Clone, Copy, PartialEq, Eq, Structural)]
pub enum Language {
    Rust,
    Go,
}

/// Settings of a generator run.
#[derive(Debug)]
pub struct GeneratorOptions {
    /// Whether channel publish/subscribe bindings and channel comments are emitted.
    pub include_dmxp: bool,
    /// Whether asynchronous patterns are wanted.
    pub use_async: bool,
    /// Package name to use instead of the schema's own.
    pub package_override: Option<String>,
    /// Imports added after the header.
    pub extra_imports: Vec<String>,
}

impl GeneratorOptions {
    pub open spec fn is_default(&self) -> bool {
        &&& self.include_dmxp
        &&& self.use_async
        &&& self.package_override is None
        &&& self.extra_imports@.len() == 0
    }
}

impl Default for GeneratorOptions {
    fn default() -> (r: Self)
        ensures
            r.is_default(),
    {
        GeneratorOptions {
            include_dmxp: true,
            use_async: true,
            package_override: None,
            extra_imports: Vec::new(),
        }
    }
}

/// Name for what `char::to_uppercase` yields for a character.
pub uninterp spec fn upper_of(c: char) -> Seq<char>;

/// Relies on `char::to_uppercase`: the characters of the upper-case mapping
/// of `c`.
#[verifier::external_body]
fn to_upper(c: char) -> (r: Vec<char>)
    ensures
        r@ == upper_of(c),
{
    c.to_uppercase().collect()
}

fn text(s: &str) -> (r: String)
    ensures
        r@ == s@,
{
    s.to_owned()
}

pub open spec fn rust_type(t: FieldTypeModel) -> Seq<char>
    decreases t,
{
    match t {
        FieldTypeModel::Double => "f64"@,
        FieldTypeModel::Float => "f32"@,
        FieldTypeModel::Int32 => "i32"@,
        FieldTypeModel::Int64 => "i64"@,
        FieldTypeModel::Uint32 => "u32"@,
        FieldTypeModel::Uint64 => "u64"@,
        FieldTypeModel::Sint32 => "i32"@,
        FieldTypeModel::Sint64 => "i64"@,
        FieldTypeModel::Fixed32 => "u32"@,
        FieldTypeModel::Fixed64 => "u64"@,
        FieldTypeModel::Sfixed32 => "i32"@,
        FieldTypeModel::Sfixed64 => "i64"@,
        FieldTypeModel::Bool => "bool"@,
        FieldTypeModel::String => "String"@,
        FieldTypeModel::Bytes => "Vec<u8>"@,
        FieldTypeModel::Message(n) => n,
        FieldTypeModel::Enum(n) => n,
        FieldTypeModel::MapType(k, v) => "HashMap<"@ + rust_type(*k) + ", "@ + rust_type(*v)
            + ">"@,
    }
}

pub open spec fn go_type(t: FieldTypeModel) -> Seq<char>
    decreases t,
{
    match t {
        FieldTypeModel::Double => "float64"@,
        FieldTypeModel::Float => "float32"@,
        FieldTypeModel::Int32 => "int32"@,
        FieldTypeModel::Int64 => "int64"@,
        FieldTypeModel::Uint32 => "uint32"@,
        FieldTypeModel::Uint64 => "uint64"@,
        FieldTypeModel::Sint32 => "int32"@,
        FieldTypeModel::Sint64 => "int64"@,
        FieldTypeModel::Fixed32 => "uint32"@,
        FieldTypeModel::Fixed64 => "uint64"@,
        FieldTypeModel::Sfixed32 => "int32"@,
        FieldTypeModel::Sfixed64 => "int64"@,
        FieldTypeModel::Bool => "bool"@,
        FieldTypeModel::String => "string"@,
        FieldTypeModel::Bytes => "[]byte"@,
        FieldTypeModel::Message(n) => "*"@ + n,
        FieldTypeModel::Enum(n) => n,
        FieldTypeModel::MapType(k, v) => "map["@ + go_type(*k) + "]"@ + go_type(*v),
    }
}

pub open spec fn target_type(t: FieldTypeModel, lang: Language) -> Seq<char> {
    match lang {
        Language::Rust => rust_type(t),
        Language::Go => go_type(t),
    }
}

/// How a target opens the wrapper of a label: a nullable wrapper for
/// optional, a sequence for repeated, nothing for required.
pub open spec fn label_prefix(label: FieldLabel, lang: Language) -> Seq<char> {
    match (lang, label) {
        (Language::Rust, FieldLabel::Optional) => "Option<"@,
        (Language::Rust, FieldLabel::Required) => ""@,
        (Language::Rust, FieldLabel::Repeated) => "Vec<"@,
        (Language::Go, FieldLabel::Optional) => "*"@,
        (Language::Go, FieldLabel::Required) => ""@,
        (Language::Go, FieldLabel::Repeated) => "[]"@,
    }
}

/// How a target closes the wrapper of a label.
pub open spec fn label_suffix(label: FieldLabel, lang: Language) -> Seq<char> {
    match (lang, label) {
        (Language::Rust, FieldLabel::Optional) => ">"@,
        (Language::Rust, FieldLabel::Repeated) => ">"@,
        _ => ""@,
    }
}

/// Upper-cased words of the first `n` characters of `s`, with the `_`
/// between them dropped, and whether a word starts next.
pub open spec fn pascal_state(s: Seq<char>, n: int) -> (Seq<char>, bool)
    decreases n,
{
    if n <= 0 {
        (Seq::empty(), true)
    } else {
        let (out, at_start) = pascal_state(s, n - 1);
        let c = s[n - 1];
        if c == '_' {
            (out, true)
        } else if at_start {
            (out + upper_of(c), false)
        } else {
            (out.push(c), false)
        }
    }
}

/// `s` split at `_`, each word with its first character upper-cased, joined.
pub open spec fn pascal(s: Seq<char>) -> Seq<char> {
    pascal_state(s, s.len() as int).0
}

/// A member's name in a target: as declared for Rust, PascalCase for Go.
pub open spec fn field_identifier(name: Seq<char>, lang: Language) -> Seq<char> {
    match lang {
        Language::Rust => name,
        Language::Go => pascal(name),
    }
}

pub open spec fn digit_char(d: int) -> char {
    if d == 0 {
        '0'
    } else if d == 1 {
        '1'
    } else if d == 2 {
        '2'
    } else if d == 3 {
        '3'
    } else if d == 4 {
        '4'
    } else if d == 5 {
        '5'
    } else if d == 6 {
        '6'
    } else if d == 7 {
        '7'
    } else if d == 8 {
        '8'
    } else {
        '9'
    }
}

pub open spec fn nat_text(n: nat) -> Seq<char>
    decreases n,
{
    if n < 10 {
        seq![digit_char(n as int)]
    } else {
        nat_text(n / 10).push(digit_char((n % 10) as int))
    }
}

/// Decimal text of an integer.
pub open spec fn int_text(n: int) -> Seq<char> {
    if n < 0 {
        "-"@ + nat_text((-n) as nat)
    } else {
        nat_text(n as nat)
    }
}

pub open spec fn member_line(f: Field, lang: Language) -> Seq<char> {
    let ty = label_prefix(f.label, lang) + target_type(f.field_type.model(), lang) + label_suffix(
        f.label,
        lang,
    );
    match lang {
        Language::Rust => "    pub "@ + f.name@ + ": "@ + ty + ",\n"@,
        Language::Go => "    "@ + pascal(f.name@) + " "@ + ty + "\n"@,
    }
}

pub open spec fn members(fs: Seq<Field>, lang: Language) -> Seq<char>
    decreases fs.len(),
{
    if fs.len() == 0 {
        Seq::empty()
    } else {
        members(fs.drop_last(), lang) + member_line(fs.last(), lang)
    }
}

pub const RUST_PUBLISH_HEAD: &'static str = "\nimpl ";
pub const RUST_PUBLISH_OPEN: &'static str = " {\n    pub fn publish(&self, publisher: &dmxp::Publisher) -> Result<(), dmxp::Error> {\n        publisher.publish(\"";
pub const RUST_SUBSCRIBE_OPEN: &'static str = "\", self)\n    }\n\n    pub fn subscribe(callback: impl Fn(";
pub const RUST_SUBSCRIBE_CALL: &'static str = ") -> Result<(), dmxp::Error> + Send + Sync + 'static) -> Result<(), dmxp::Error> {\n        dmxp::subscribe(\"";
pub const RUST_SUBSCRIBE_CLOSE: &'static str = "\", callback)\n    }\n}\n";
pub const GO_PUBLISH_HEAD: &'static str = "\nfunc (m *";
pub const GO_PUBLISH_OPEN: &'static str = ") Publish(publisher *dmxp.Publisher) error {\n    return publisher.Publish(\"";
pub const GO_SUBSCRIBE_HEAD: &'static str = "\", m)\n}\n\nfunc Subscribe";
pub const GO_SUBSCRIBE_ARG: &'static str = "(callback func(*";
pub const GO_SUBSCRIBE_CALL: &'static str = ") error) error {\n    return dmxp.Subscribe(\"";
pub const GO_SUBSCRIBE_CLOSE: &'static str = "\", callback)\n}\n";

/// Publish and subscribe stubs for a message bound to `channel`.
pub open spec fn channel_binding(name: Seq<char>, channel: Seq<char>, lang: Language) -> Seq<char> {
    match lang {
        Language::Rust => RUST_PUBLISH_HEAD@ + name + RUST_PUBLISH_OPEN@ + channel
            + RUST_SUBSCRIBE_OPEN@ + name + RUST_SUBSCRIBE_CALL@ + channel + RUST_SUBSCRIBE_CLOSE@,
        Language::Go => GO_PUBLISH_HEAD@ + name + GO_PUBLISH_OPEN@ + channel + GO_SUBSCRIBE_HEAD@
            + name + GO_SUBSCRIBE_ARG@ + name + GO_SUBSCRIBE_CALL@ + channel + GO_SUBSCRIBE_CLOSE@,
    }
}

/// The binding code of a message: empty unless it is bound to a channel.
pub open spec fn dmxp_code(m: Message, lang: Language) -> Seq<char> {
    match bound_channel(m) {
        Some(c) => channel_binding(m.name@, c, lang),
        None => Seq::empty(),
    }
}

pub open spec fn enum_value_line(e: Seq<char>, v: EnumValue, lang: Language) -> Seq<char> {
    match lang {
        Language::Rust => "    "@ + v.name@ + " = "@ + int_text(v.number as int) + ",\n"@,
        Language::Go => "    "@ + e + "_"@ + v.name@ + " "@ + e + " = "@ + int_text(v.number as int)
            + "\n"@,
    }
}

pub open spec fn enum_values(e: Seq<char>, vs: Seq<EnumValue>, lang: Language) -> Seq<char>
    decreases vs.len(),
{
    if vs.len() == 0 {
        Seq::empty()
    } else {
        enum_values(e, vs.drop_last(), lang) + enum_value_line(e, vs.last(), lang)
    }
}

/// An enum as a closed set of named integer constants.
pub open spec fn enum_decl(e: Enum, lang: Language) -> Seq<char> {
    match lang {
        Language::Rust => "#[derive(Debug, Clone, Copy, PartialEq, Eq)]\npub enum "@ + e.name@
            + " {\n"@ + enum_values(e.name@, e.values@, lang) + "}\n\n"@,
        Language::Go => "type "@ + e.name@ + " int32\n\nconst (\n"@ + enum_values(
            e.name@,
            e.values@,
            lang,
        ) + ")\n\n"@,
    }
}

pub open spec fn enum_decls(es: Seq<Enum>, lang: Language) -> Seq<char>
    decreases es.len(),
{
    if es.len() == 0 {
        Seq::empty()
    } else {
        enum_decls(es.drop_last(), lang) + enum_decl(es.last(), lang)
    }
}

/// A message as an aggregate type whose members follow its fields in order,
/// then its channel binding, then its nested messages and enums.
pub open spec fn struct_head(name: Seq<char>, lang: Language) -> Seq<char> {
    match lang {
        Language::Rust => "#[derive(Debug, Clone)]\npub struct "@ + name + " {\n"@,
        Language::Go => "type "@ + name + " struct {\n"@,
    }
}

/// A message's own declaration: its members, then its channel binding.
pub open spec fn struct_decl(m: Message, lang: Language, dmxp: bool) -> Seq<char> {
    struct_head(m.name@, lang) + members(m.fields@, lang) + "}\n"@ + (if dmxp {
        dmxp_code(m, lang)
    } else {
        Seq::empty()
    }) + "\n"@
}

pub open spec fn message_decl(m: Message, lang: Language, dmxp: bool) -> Seq<char>
    decreases m, 0nat,
{
    struct_decl(m, lang, dmxp) + message_decls(m.nested_messages@, lang, dmxp) + enum_decls(
        m.nested_enums@,
        lang,
    )
}

pub open spec fn message_decls(ms: Seq<Message>, lang: Language, dmxp: bool) -> Seq<char>
    decreases ms, 1nat,
{
    if ms.len() == 0 {
        Seq::empty()
    } else {
        message_decls(ms.subrange(0, ms.len() - 1), lang, dmxp) + message_decl(
            ms[ms.len() - 1],
            lang,
            dmxp,
        )
    }
}

pub open spec fn method_line(md: Method, lang: Language) -> Seq<char> {
    match lang {
        Language::Rust => "    fn "@ + md.name@ + "(&self, request: "@ + md.input_type@ + ") -> "@
            + md.output_type@ + ";\n"@,
        Language::Go => "    "@ + md.name@ + "(request *"@ + md.input_type@ + ") (*"@
            + md.output_type@ + ", error)\n"@,
    }
}

pub open spec fn method_lines(ms: Seq<Method>, lang: Language) -> Seq<char>
    decreases ms.len(),
{
    if ms.len() == 0 {
        Seq::empty()
    } else {
        method_lines(ms.drop_last(), lang) + method_line(ms.last(), lang)
    }
}

pub open spec fn channel_comments(cs: Seq<String>) -> Seq<char>
    decreases cs.len(),
{
    if cs.len() == 0 {
        Seq::empty()
    } else {
        channel_comments(cs.drop_last()) + "// channel: "@ + cs.last()@ + "\n"@
    }
}

/// A service's channels, as comments.
pub open spec fn service_channels(s: Service, dmxp: bool) -> Seq<char> {
    match s.dmxp_options {
        Some(o) => if dmxp {
            channel_comments(o.channels@)
        } else {
            Seq::empty()
        },
        None => Seq::empty(),
    }
}

/// A service as one callable signature per method.
pub open spec fn service_decl(s: Service, lang: Language, dmxp: bool) -> Seq<char> {
    service_channels(s, dmxp) + (match lang {
        Language::Rust => "pub trait "@ + s.name@ + " {\n"@,
        Language::Go => "type "@ + s.name@ + " interface {\n"@,
    }) + method_lines(s.methods@, lang) + "}\n\n"@
}

pub open spec fn service_decls(ss: Seq<Service>, lang: Language, dmxp: bool) -> Seq<char>
    decreases ss.len(),
{
    if ss.len() == 0 {
        Seq::empty()
    } else {
        service_decls(ss.drop_last(), lang, dmxp) + service_decl(ss.last(), lang, dmxp)
    }
}

pub open spec fn import_lines(imports: Seq<String>, lang: Language) -> Seq<char>
    decreases imports.len(),
{
    if imports.len() == 0 {
        Seq::empty()
    } else {
        import_lines(imports.drop_last(), lang) + (match lang {
            Language::Rust => "use "@ + imports.last()@ + ";\n"@,
            Language::Go => "import \""@ + imports.last()@ + "\"\n"@,
        })
    }
}

/// The package named in the output: the override if one is set.
pub open spec fn package_name(file: ProtoFile, options: GeneratorOptions) -> Seq<char> {
    match options.package_override {
        Some(p) => p@,
        None => file.package@,
    }
}

pub open spec fn header(file: ProtoFile, lang: Language, options: GeneratorOptions) -> Seq<char> {
    (match lang {
        Language::Rust => "// Package: "@ + package_name(file, options) + "\n"@,
        Language::Go => "package "@ + package_name(file, options) + "\n"@,
    }) + import_lines(options.extra_imports@, lang) + "\n"@
}

/// The whole generated text: header, messages, services, enums.
pub open spec fn generated(file: ProtoFile, lang: Language, options: GeneratorOptions) -> Seq<char> {
    header(file, lang, options) + message_decls(file.messages@, lang, options.include_dmxp)
        + service_decls(file.services@, lang, options.include_dmxp) + enum_decls(
        file.enums@,
        lang,
    )
}

pub fn convert_to_rust_type(field_type: &FieldType) -> (r: String)
    ensures
        r@ == rust_type(field_type.model()),
    decreases field_type,
{
    match field_type {
        FieldType::Double => text("f64"),
        FieldType::Float => text("f32"),
        FieldType::Int32 => text("i32"),
        FieldType::Int64 => text("i64"),
        FieldType::Uint32 => text("u32"),
        FieldType::Uint64 => text("u64"),
        FieldType::Sint32 => text("i32"),
        FieldType::Sint64 => text("i64"),
        FieldType::Fixed32 => text("u32"),
        FieldType::Fixed64 => text("u64"),
        FieldType::Sfixed32 => text("i32"),
        FieldType::Sfixed64 => text("i64"),
        FieldType::Bool => text("bool"),
        FieldType::String => text("String"),
        FieldType::Bytes => text("Vec<u8>"),
        FieldType::Message(name) => name.clone(),
        FieldType::Enum(name) => name.clone(),
        FieldType::MapType(k, v) => {
            let mut out = text("HashMap<");
            out.append(convert_to_rust_type(k).as_str());
            out.append(", ");
            out.append(convert_to_rust_type(v).as_str());
            out.append(">");
            out
        },
    }
}

pub fn convert_to_go_type(field_type: &FieldType) -> (r: String)
    ensures
        r@ == go_type(field_type.model()),
    decreases field_type,
{
    match field_type {
        FieldType::Double => text("float64"),
        FieldType::Float => text("float32"),
        FieldType::Int32 => text("int32"),
        FieldType::Int64 => text("int64"),
        FieldType::Uint32 => text("uint32"),
        FieldType::Uint64 => text("uint64"),
        FieldType::Sint32 => text("int32"),
        FieldType::Sint64 => text("int64"),
        FieldType::Fixed32 => text("uint32"),
        FieldType::Fixed64 => text("uint64"),
        FieldType::Sfixed32 => text("int32"),
        FieldType::Sfixed64 => text("int64"),
        FieldType::Bool => text("bool"),
        FieldType::String => text("string"),
        FieldType::Bytes => text("[]byte"),
        FieldType::Message(name) => {
            let mut out = text("*");
            out.append(name.as_str());
            out
        },
        FieldType::Enum(name) => name.clone(),
        FieldType::MapType(k, v) => {
            let mut out = text("map[");
            out.append(convert_to_go_type(k).as_str());
            out.append("]");
            out.append(convert_to_go_type(v).as_str());
            out
        },
    }
}

/// A field type as the target spells it.
pub fn convert_field_type(field_type: &FieldType, language: &Language) -> (r: String)
    ensures
        r@ == target_type(field_type.model(), *language),
{
    match language {
        Language::Rust => convert_to_rust_type(field_type),
        Language::Go => convert_to_go_type(field_type),
    }
}

/// The opening of the wrapper that a label takes in the target.
pub fn convert_field_label(label: &FieldLabel, language: &Language) -> (r: String)
    ensures
        r@ == label_prefix(*label, *language),
{
    match language {
        Language::Rust => match label {
            FieldLabel::Optional => text("Option<"),
            FieldLabel::Required => text(""),
            FieldLabel::Repeated => text("Vec<"),
        },
        Language::Go => match label {
            FieldLabel::Optional => text("*"),
            FieldLabel::Required => text(""),
            FieldLabel::Repeated => text("[]"),
        },
    }
}

/// The closing of the wrapper that a label takes in the target.
pub fn convert_field_label_end(label: &FieldLabel, language: &Language) -> (r: String)
    ensures
        r@ == label_suffix(*label, *language),
{
    match (language, label) {
        (Language::Rust, FieldLabel::Optional) => text(">"),
        (Language::Rust, FieldLabel::Repeated) => text(">"),
        _ => text(""),
    }
}

/// A field name in the target's casing.
pub fn convert_field_name(name: &str, language: &Language) -> (r: String)
    ensures
        r@ == field_identifier(name@, *language),
{
    match language {
        Language::Rust => text(name),
        Language::Go => to_pascal_case(name),
    }
}

/// `s` split at `_`, each word with its first character upper-cased, joined.
pub fn to_pascal_case(s: &str) -> (r: String)
    ensures
        r@ == pascal(s@),
{
    let cs = crate::text::chars_of(s);
    let mut out: Vec<char> = Vec::new();
    let mut at_start = true;
    let mut i: usize = 0;
    while i < cs.len()
        invariant
            i <= cs.len(),
            cs@ == s@,
            (out@, at_start) == pascal_state(s@, i as int),
        decreases cs.len() - i,
    {
        let c = cs[i];
        if c == '_' {
            at_start = true;
        } else if at_start {
            let up = to_upper(c);
            let mut j: usize = 0;
            let ghost base = out@;
            while j < up.len()
                invariant
                    j <= up.len(),
                    out@ == base + up@.subrange(0, j as int),
                decreases up.len() - j,
            {
                out.push(up[j]);
                j = j + 1;
                assert(out@ =~= base + up@.subrange(0, j as int));
            }
            assert(up@.subrange(0, up.len() as int) =~= up@);
            at_start = false;
        } else {
            out.push(c);
            at_start = false;
        }
        i = i + 1;
    }
    crate::text::string_of(&out)
}

/// Publish and subscribe stubs for a message bound to a channel; empty for
/// a message without one.
pub fn generate_dmxp_channel_code(message: &Message, language: &Language) -> (r: String)
    ensures
        r@ == dmxp_code(*message, *language),
{
    let mut out = String::new();
    push_dmxp_code(&mut out, message, *language);
    assert(out@ =~= dmxp_code(*message, *language));
    out
}

fn push_dmxp_code(out: &mut String, m: &Message, lang: Language)
    ensures
        final(out)@ == old(out)@ + dmxp_code(*m, lang),
{
    if let Some(o) = &m.dmxp_options {
        if let Some(c) = &o.channel {
            let name = m.name.as_str();
            let ch = c.as_str();
            match lang {
                Language::Rust => {
                    out.append(RUST_PUBLISH_HEAD);
                    out.append(name);
                    out.append(RUST_PUBLISH_OPEN);
                    out.append(ch);
                    out.append(RUST_SUBSCRIBE_OPEN);
                    out.append(name);
                    out.append(RUST_SUBSCRIBE_CALL);
                    out.append(ch);
                    out.append(RUST_SUBSCRIBE_CLOSE);
                },
                Language::Go => {
                    out.append(GO_PUBLISH_HEAD);
                    out.append(name);
                    out.append(GO_PUBLISH_OPEN);
                    out.append(ch);
                    out.append(GO_SUBSCRIBE_HEAD);
                    out.append(name);
                    out.append(GO_SUBSCRIBE_ARG);
                    out.append(name);
                    out.append(GO_SUBSCRIBE_CALL);
                    out.append(ch);
                    out.append(GO_SUBSCRIBE_CLOSE);
                },
            }
            assert(final(out)@ =~= old(out)@ + dmxp_code(*m, lang));
            return;
        }
    }
    assert(old(out)@ + Seq::<char>::empty() =~= old(out)@);
}

fn push_nat(out: &mut String, n: u64)
    ensures
        final(out)@ == old(out)@ + nat_text(n as nat),
    decreases n,
{
    if n >= 10 {
        push_nat(out, n / 10);
    }
    let d = n % 10;
    let c = if d == 0 {
        '0'
    } else if d == 1 {
        '1'
    } else if d == 2 {
        '2'
    } else if d == 3 {
        '3'
    } else if d == 4 {
        '4'
    } else if d == 5 {
        '5'
    } else if d == 6 {
        '6'
    } else if d == 7 {
        '7'
    } else if d == 8 {
        '8'
    } else {
        '9'
    };
    let v: Vec<char> = vec![c];
    assert(v@ =~= seq![digit_char(d as int)]);
    let t = crate::text::string_of(&v);
    out.append(t.as_str());
    assert(final(out)@ =~= old(out)@ + nat_text(n as nat));
}

fn push_int(out: &mut String, n: i32)
    ensures
        final(out)@ == old(out)@ + int_text(n as int),
{
    if n < 0 {
        out.append("-");
        let m: u64 = (0 - (n as i64)) as u64;
        push_nat(out, m);
    } else {
        push_nat(out, n as u64);
    }
    assert(final(out)@ =~= old(out)@ + int_text(n as int));
}

fn push_member(out: &mut String, f: &Field, lang: Language)
    ensures
        final(out)@ == old(out)@ + member_line(*f, lang),
{
    let open = convert_field_label(&f.label, &lang);
    let ty = convert_field_type(&f.field_type, &lang);
    let close = convert_field_label_end(&f.label, &lang);
    match lang {
        Language::Rust => {
            out.append("    pub ");
            out.append(f.name.as_str());
            out.append(": ");
        },
        Language::Go => {
            out.append("    ");
            out.append(to_pascal_case(f.name.as_str()).as_str());
            out.append(" ");
        },
    }
    out.append(open.as_str());
    out.append(ty.as_str());
    out.append(close.as_str());
    match lang {
        Language::Rust => out.append(",\n"),
        Language::Go => out.append("\n"),
    }
    assert(final(out)@ =~= old(out)@ + member_line(*f, lang));
}

fn push_members(out: &mut String, fs: &Vec<Field>, lang: Language)
    ensures
        final(out)@ == old(out)@ + members(fs@, lang),
{
    let mut i: usize = 0;
    while i < fs.len()
        invariant
            i <= fs.len(),
            out@ == old(out)@ + members(fs@.subrange(0, i as int), lang),
        decreases fs.len() - i,
    {
        push_member(out, &fs[i], lang);
        i = i + 1;
        assert(fs@.subrange(0, i as int).drop_last() =~= fs@.subrange(0, i - 1));
        assert(out@ =~= old(out)@ + members(fs@.subrange(0, i as int), lang));
    }
    assert(fs@.subrange(0, fs.len() as int) =~= fs@);
}

fn push_enum_value(out: &mut String, e: &str, v: &EnumValue, lang: Language)
    ensures
        final(out)@ == old(out)@ + enum_value_line(e@, *v, lang),
{
    out.append("    ");
    match lang {
        Language::Rust => {},
        Language::Go => {
            out.append(e);
            out.append("_");
        },
    }
    out.append(v.name.as_str());
    let ghost s1 = out@;
    match lang {
        Language::Rust => {},
        Language::Go => {
            out.append(" ");
            out.append(e);
        },
    }
    out.append(" = ");
    let ghost s2 = out@;
    push_int(out, v.number);
    let ghost s3 = out@;
    match lang {
        Language::Rust => out.append(",\n"),
        Language::Go => out.append("\n"),
    }
    assert(final(out)@ =~= old(out)@ + enum_value_line(e@, *v, lang));
}

fn push_enum_decl(out: &mut String, e: &Enum, lang: Language)
    ensures
        final(out)@ == old(out)@ + enum_decl(*e, lang),
{
    let name = e.name.as_str();
    match lang {
        Language::Rust => {
            out.append("#[derive(Debug, Clone, Copy, PartialEq, Eq)]\npub enum ");
            out.append(name);
            out.append(" {\n");
        },
        Language::Go => {
            out.append("type ");
            out.append(name);
            out.append(" int32\n\nconst (\n");
        },
    }
    let ghost mid = out@;
    let mut i: usize = 0;
    while i < e.values.len()
        invariant
            i <= e.values.len(),
            name@ == e.name@,
            out@ == mid + enum_values(e.name@, e.values@.subrange(0, i as int), lang),
        decreases e.values.len() - i,
    {
        push_enum_value(out, name, &e.values[i], lang);
        i = i + 1;
        assert(e.values@.subrange(0, i as int).drop_last() =~= e.values@.subrange(0, i - 1));
        assert(out@ =~= mid + enum_values(e.name@, e.values@.subrange(0, i as int), lang));
    }
    assert(e.values@.subrange(0, e.values.len() as int) =~= e.values@);
    match lang {
        Language::Rust => out.append("}\n\n"),
        Language::Go => out.append(")\n\n"),
    }
    assert(final(out)@ =~= old(out)@ + enum_decl(*e, lang));
}

fn push_enum_decls(out: &mut String, es: &Vec<Enum>, lang: Language)
    ensures
        final(out)@ == old(out)@ + enum_decls(es@, lang),
{
    let mut i: usize = 0;
    while i < es.len()
        invariant
            i <= es.len(),
            out@ == old(out)@ + enum_decls(es@.subrange(0, i as int), lang),
        decreases es.len() - i,
    {
        push_enum_decl(out, &es[i], lang);
        i = i + 1;
        assert(es@.subrange(0, i as int).drop_last() =~= es@.subrange(0, i - 1));
        assert(out@ =~= old(out)@ + enum_decls(es@.subrange(0, i as int), lang));
    }
    assert(es@.subrange(0, es.len() as int) =~= es@);
}

fn push_struct_decl(out: &mut String, m: &Message, lang: Language, dmxp: bool)
    ensures
        final(out)@ == old(out)@ + struct_decl(*m, lang, dmxp),
{
    match lang {
        Language::Rust => {
            out.append("#[derive(Debug, Clone)]\npub struct ");
            out.append(m.name.as_str());
            out.append(" {\n");
        },
        Language::Go => {
            out.append("type ");
            out.append(m.name.as_str());
            out.append(" struct {\n");
        },
    }
    let ghost s1 = out@;
    push_members(out, &m.fields, lang);
    out.append("}\n");
    let ghost s2 = out@;
    if dmxp {
        push_dmxp_code(out, m, lang);
    } else {
        assert(out@ =~= s2 + Seq::<char>::empty());
    }
    out.append("\n");
    assert(s1 =~= old(out)@ + struct_head(m.name@, lang));
    assert(final(out)@ =~= old(out)@ + struct_decl(*m, lang, dmxp));
}

fn push_message_decl(out: &mut String, m: &Message, lang: Language, dmxp: bool)
    ensures
        final(out)@ == old(out)@ + message_decl(*m, lang, dmxp),
    decreases m, 0nat,
{
    push_struct_decl(out, m, lang, dmxp);
    let ghost s1 = out@;
    push_message_decls(out, &m.nested_messages, lang, dmxp);
    let ghost s2 = out@;
    push_enum_decls(out, &m.nested_enums, lang);
    assert(final(out)@ =~= old(out)@ + message_decl(*m, lang, dmxp));
}

fn push_message_decls(out: &mut String, ms: &Vec<Message>, lang: Language, dmxp: bool)
    ensures
        final(out)@ == old(out)@ + message_decls(ms@, lang, dmxp),
    decreases ms, 1nat,
{
    let mut i: usize = 0;
    while i < ms.len()
        invariant
            i <= ms.len(),
            out@ == old(out)@ + message_decls(ms@.subrange(0, i as int), lang, dmxp),
        decreases ms.len() - i,
    {
        push_message_decl(out, &ms[i], lang, dmxp);
        i = i + 1;
        let ghost sub = ms@.subrange(0, i as int);
        assert(sub.subrange(0, sub.len() - 1) =~= ms@.subrange(0, i - 1));
        assert(out@ =~= old(out)@ + message_decls(sub, lang, dmxp));
    }
    assert(ms@.subrange(0, ms.len() as int) =~= ms@);
}

fn push_service_decl(out: &mut String, sv: &Service, lang: Language, dmxp: bool)
    ensures
        final(out)@ == old(out)@ + service_decl(*sv, lang, dmxp),
{
    if dmxp {
        if let Some(o) = &sv.dmxp_options {
            let mut i: usize = 0;
            let ghost base = out@;
            while i < o.channels.len()
                invariant
                    i <= o.channels.len(),
                    out@ == base + channel_comments(o.channels@.subrange(0, i as int)),
                decreases o.channels.len() - i,
            {
                out.append("// channel: ");
                out.append(o.channels[i].as_str());
                out.append("\n");
                i = i + 1;
                assert(o.channels@.subrange(0, i as int).drop_last() =~= o.channels@.subrange(
                    0,
                    i - 1,
                ));
                assert(out@ =~= base + channel_comments(o.channels@.subrange(0, i as int)));
            }
            assert(o.channels@.subrange(0, o.channels.len() as int) =~= o.channels@);
        }
    }
    let ghost s1 = out@;
    assert(s1 =~= old(out)@ + service_channels(*sv, dmxp));
    match lang {
        Language::Rust => {
            out.append("pub trait ");
            out.append(sv.name.as_str());
            out.append(" {\n");
        },
        Language::Go => {
            out.append("type ");
            out.append(sv.name.as_str());
            out.append(" interface {\n");
        },
    }
    let ghost s2 = out@;
    let mut i: usize = 0;
    while i < sv.methods.len()
        invariant
            i <= sv.methods.len(),
            out@ == s2 + method_lines(sv.methods@.subrange(0, i as int), lang),
        decreases sv.methods.len() - i,
    {
        let md = &sv.methods[i];
        match lang {
            Language::Rust => {
                out.append("    fn ");
                out.append(md.name.as_str());
                out.append("(&self, request: ");
                out.append(md.input_type.as_str());
                out.append(") -> ");
                out.append(md.output_type.as_str());
                out.append(";\n");
            },
            Language::Go => {
                out.append("    ");
                out.append(md.name.as_str());
                out.append("(request *");
                out.append(md.input_type.as_str());
                out.append(") (*");
                out.append(md.output_type.as_str());
                out.append(", error)\n");
            },
        }
        i = i + 1;
        assert(sv.methods@.subrange(0, i as int).drop_last() =~= sv.methods@.subrange(0, i - 1));
        assert(out@ =~= s2 + method_lines(sv.methods@.subrange(0, i as int), lang));
    }
    assert(sv.methods@.subrange(0, sv.methods.len() as int) =~= sv.methods@);
    out.append("}\n\n");
    assert(final(out)@ =~= old(out)@ + service_decl(*sv, lang, dmxp));
}

fn push_service_decls(out: &mut String, ss: &Vec<Service>, lang: Language, dmxp: bool)
    ensures
        final(out)@ == old(out)@ + service_decls(ss@, lang, dmxp),
{
    let mut i: usize = 0;
    while i < ss.len()
        invariant
            i <= ss.len(),
            out@ == old(out)@ + service_decls(ss@.subrange(0, i as int), lang, dmxp),
        decreases ss.len() - i,
    {
        push_service_decl(out, &ss[i], lang, dmxp);
        i = i + 1;
        assert(ss@.subrange(0, i as int).drop_last() =~= ss@.subrange(0, i - 1));
        assert(out@ =~= old(out)@ + service_decls(ss@.subrange(0, i as int), lang, dmxp));
    }
    assert(ss@.subrange(0, ss.len() as int) =~= ss@);
}

fn push_header(out: &mut String, file: &ProtoFile, lang: Language, options: &GeneratorOptions)
    ensures
        final(out)@ == old(out)@ + header(*file, lang, *options),
{
    match lang {
        Language::Rust => out.append("// Package: "),
        Language::Go => out.append("package "),
    }
    match &options.package_override {
        Some(p) => out.append(p.as_str()),
        None => out.append(file.package.as_str()),
    }
    out.append("\n");
    let ghost s1 = out@;
    let mut i: usize = 0;
    while i < options.extra_imports.len()
        invariant
            i <= options.extra_imports.len(),
            out@ == s1 + import_lines(options.extra_imports@.subrange(0, i as int), lang),
        decreases options.extra_imports.len() - i,
    {
        match lang {
            Language::Rust => {
                out.append("use ");
                out.append(options.extra_imports[i].as_str());
                out.append(";\n");
            },
            Language::Go => {
                out.append("import \"");
                out.append(options.extra_imports[i].as_str());
                out.append("\"\n");
            },
        }
        i = i + 1;
        assert(options.extra_imports@.subrange(0, i as int).drop_last()
            =~= options.extra_imports@.subrange(0, i - 1));
        assert(out@ =~= s1 + import_lines(options.extra_imports@.subrange(0, i as int), lang));
    }
    assert(options.extra_imports@.subrange(0, options.extra_imports.len() as int)
        =~= options.extra_imports@);
    out.append("\n");
    assert(final(out)@ =~= old(out)@ + header(*file, lang, *options));
}

/// Generator for one target language.
pub struct TemplateGenerator {
    language: Language,
    options: GeneratorOptions,
}

impl TemplateGenerator {
    pub closed spec fn language(&self) -> Language {
        self.language
    }

    pub closed spec fn options(&self) -> GeneratorOptions {
        self.options
    }

    /// A generator for `language` with the default options.
    pub fn new(language: Language) -> (r: Self)
        ensures
            r.language() == language,
            r.options().is_default(),
    {
        TemplateGenerator { language, options: GeneratorOptions::default() }
    }

    pub fn new_with_options(language: Language, options: GeneratorOptions) -> (r: Self)
        ensures
            r.language() == language,
            r.options() == options,
    {
        TemplateGenerator { language, options }
    }

    /// The generated text for `proto_file`: header, then each top-level
    /// message (its nested messages and enums after it), then services, then
    /// enums. Generation never fails.
    pub fn generate(&self, proto_file: &ProtoFile) -> (r: String)
        ensures
            r@ == generated(*proto_file, self.language(), self.options()),
    {
        let lang = self.language;
        let dmxp = self.options.include_dmxp;
        let mut out = String::new();
        push_header(&mut out, proto_file, lang, &self.options);
        push_message_decls(&mut out, &proto_file.messages, lang, dmxp);
        push_service_decls(&mut out, &proto_file.services, lang, dmxp);
        push_enum_decls(&mut out, &proto_file.enums, lang);
        assert(out@ =~= generated(*proto_file, self.language(), self.options()));
        out
    }

    pub fn with_options(self, options: GeneratorOptions) -> (r: Self)
        ensures
            r.language() == self.language(),
            r.options() == options,
    {
        TemplateGenerator { language: self.language, options }
    }

    pub fn with_language(self, language: Language) -> (r: Self)
        ensures
            r.language() == language,
            r.options() == self.options(),
    {
        TemplateGenerator { language, options: self.options }
    }
}

/// A generator of text for one target from a parsed file.
pub trait CodeGenerator {
    fn generate(&self, proto_file: &ProtoFile) -> String;
}

impl CodeGenerator for TemplateGenerator {
    fn generate(&self, proto_file: &ProtoFile) -> String {
        TemplateGenerator::generate(self, proto_file)
    }
}

} // verus!
