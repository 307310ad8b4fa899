use vstd::prelude::*;

verus! {

/// Scalar, user-defined and map field types.
#[derive(Debug)]
pub enum FieldType {
    Double,
    Float,
    Int32,
    Int64,
    Uint32,
    Uint64,
    Sint32,
    Sint64,
    Fixed32,
    Fixed64,
    Sfixed32,
    Sfixed64,
    Bool,
    String,
    Bytes,
    Message(String),
    Enum(String),
    MapType(Box<FieldType>, Box<FieldType>),
}

/// Mathematical form of a `FieldType`: names become character sequences.
pub enum FieldTypeModel {
    Double,
    Float,
    Int32,
    Int64,
    Uint32,
    Uint64,
    Sint32,
    Sint64,
    Fixed32,
    Fixed64,
    Sfixed32,
    Sfixed64,
    Bool,
    String,
    Bytes,
    Message(Seq<char>),
    Enum(Seq<char>),
    MapType(Box<FieldTypeModel>, Box<FieldTypeModel>),
}

impl FieldType {
    pub open spec fn model(&self) -> FieldTypeModel
        decreases self,
    {
        match self {
            FieldType::Double => FieldTypeModel::Double,
            FieldType::Float => FieldTypeModel::Float,
            FieldType::Int32 => FieldTypeModel::Int32,
            FieldType::Int64 => FieldTypeModel::Int64,
            FieldType::Uint32 => FieldTypeModel::Uint32,
            FieldType::Uint64 => FieldTypeModel::Uint64,
            FieldType::Sint32 => FieldTypeModel::Sint32,
            FieldType::Sint64 => FieldTypeModel::Sint64,
            FieldType::Fixed32 => FieldTypeModel::Fixed32,
            FieldType::Fixed64 => FieldTypeModel::Fixed64,
            FieldType::Sfixed32 => FieldTypeModel::Sfixed32,
            FieldType::Sfixed64 => FieldTypeModel::Sfixed64,
            FieldType::Bool => FieldTypeModel::Bool,
            FieldType::String => FieldTypeModel::String,
            FieldType::Bytes => FieldTypeModel::Bytes,
            FieldType::Message(n) => FieldTypeModel::Message(n@),
            FieldType::Enum(n) => FieldTypeModel::Enum(n@),
            FieldType::MapType(k, v) => FieldTypeModel::MapType(Box::new(k.model()), Box::new(v.model())),
        }
    }
}

/// Label of a field: how many values it holds.
#[derive(Debug, Clone, Copy, PartialEq, Eq, Structural)]
pub enum FieldLabel {
    Optional,
    Required,
    Repeated,
}

/// Value of an option literal. A number is kept as the text it was written in.
#[derive(Debug)]
pub enum OptionValue {
    String(String),
    Number(String),
    Boolean(bool),
    Identifier(String),
}

pub enum OptionValueModel {
    String(Seq<char>),
    Number(Seq<char>),
    Boolean(bool),
    Identifier(Seq<char>),
}

impl OptionValue {
    pub open spec fn model(&self) -> OptionValueModel {
        match self {
            OptionValue::String(s) => OptionValueModel::String(s@),
            OptionValue::Number(s) => OptionValueModel::Number(s@),
            OptionValue::Boolean(b) => OptionValueModel::Boolean(*b),
            OptionValue::Identifier(s) => OptionValueModel::Identifier(s@),
        }
    }
}

/// A named option attached to a declaration.
#[derive(Debug)]
pub struct ProtoOption {
    pub name: String,
    pub value: OptionValue,
}

pub struct ProtoOptionModel {
    pub name: Seq<char>,
    pub value: OptionValueModel,
}

impl ProtoOption {
    pub open spec fn model(&self) -> ProtoOptionModel {
        ProtoOptionModel { name: self.name@, value: self.value.model() }
    }
}

pub open spec fn options_model(v: Seq<ProtoOption>) -> Seq<ProtoOptionModel> {
    v.map_values(|o: ProtoOption| o.model())
}

pub open spec fn opt_text(o: Option<String>) -> Option<Seq<char>> {
    match o {
        Some(s) => Some(s@),
        None => None,
    }
}

pub open spec fn texts(v: Seq<String>) -> Seq<Seq<char>> {
    v.map_values(|s: String| s@)
}

/// A field of a message.
#[derive(Debug)]
pub struct Field {
    pub name: String,
    pub field_type: FieldType,
    pub number: i32,
    pub label: FieldLabel,
    pub options: Vec<ProtoOption>,
    pub default_value: Option<OptionValue>,
}

pub struct FieldModel {
    pub name: Seq<char>,
    pub field_type: FieldTypeModel,
    pub number: i32,
    pub label: FieldLabel,
    pub options: Seq<ProtoOptionModel>,
    pub default_value: Option<OptionValueModel>,
}

impl Field {
    pub open spec fn model(&self) -> FieldModel {
        FieldModel {
            name: self.name@,
            field_type: self.field_type.model(),
            number: self.number,
            label: self.label,
            options: options_model(self.options@),
            default_value: match self.default_value {
                Some(v) => Some(v.model()),
                None => None,
            },
        }
    }
}

/// Channel metadata bound to a message. Every part is optional.
#[derive(Debug)]
pub struct DmxpMessageOptions {
    pub channel: Option<String>,
    pub persistent: Option<bool>,
    pub buffer_size: Option<u32>,
    pub wal_enabled: Option<bool>,
    pub swap_enabled: Option<bool>,
    pub priority: Option<u32>,
}

pub struct DmxpMessageOptionsModel {
    pub channel: Option<Seq<char>>,
    pub persistent: Option<bool>,
    pub buffer_size: Option<u32>,
    pub wal_enabled: Option<bool>,
    pub swap_enabled: Option<bool>,
    pub priority: Option<u32>,
}

impl DmxpMessageOptions {
    pub open spec fn model(&self) -> DmxpMessageOptionsModel {
        DmxpMessageOptionsModel {
            channel: opt_text(self.channel),
            persistent: self.persistent,
            buffer_size: self.buffer_size,
            wal_enabled: self.wal_enabled,
            swap_enabled: self.swap_enabled,
            priority: self.priority,
        }
    }
}

/// Channel metadata bound to a service.
#[derive(Debug)]
pub struct DmxpServiceOptions {
    pub channels: Vec<String>,
    pub timeout_ms: Option<u32>,
    pub retry_count: Option<u32>,
}

pub struct DmxpServiceOptionsModel {
    pub channels: Seq<Seq<char>>,
    pub timeout_ms: Option<u32>,
    pub retry_count: Option<u32>,
}

impl DmxpServiceOptions {
    pub open spec fn model(&self) -> DmxpServiceOptionsModel {
        DmxpServiceOptionsModel {
            channels: texts(self.channels@),
            timeout_ms: self.timeout_ms,
            retry_count: self.retry_count,
        }
    }
}

/// Channel metadata bound to a method.
#[derive(Debug)]
pub struct DmxpMethodOptions {
    pub channel: Option<String>,
    pub timeout_ms: Option<u32>,
    pub is_async: Option<bool>,
}

pub struct DmxpMethodOptionsModel {
    pub channel: Option<Seq<char>>,
    pub timeout_ms: Option<u32>,
    pub is_async: Option<bool>,
}

impl DmxpMethodOptions {
    pub open spec fn model(&self) -> DmxpMethodOptionsModel {
        DmxpMethodOptionsModel {
            channel: opt_text(self.channel),
            timeout_ms: self.timeout_ms,
            is_async: self.is_async,
        }
    }
}

/// A value of an enum.
#[derive(Debug)]
pub struct EnumValue {
    pub name: String,
    pub number: i32,
    pub options: Vec<ProtoOption>,
}

pub struct EnumValueModel {
    pub name: Seq<char>,
    pub number: i32,
    pub options: Seq<ProtoOptionModel>,
}

impl EnumValue {
    pub open spec fn model(&self) -> EnumValueModel {
        EnumValueModel { name: self.name@, number: self.number, options: options_model(self.options@) }
    }
}

/// An enum declaration.
#[derive(Debug)]
pub struct Enum {
    pub name: String,
    pub values: Vec<EnumValue>,
    pub options: Vec<ProtoOption>,
}

pub struct EnumModel {
    pub name: Seq<char>,
    pub values: Seq<EnumValueModel>,
    pub options: Seq<ProtoOptionModel>,
}

impl Enum {
    pub open spec fn model(&self) -> EnumModel {
        EnumModel {
            name: self.name@,
            values: self.values@.map_values(|v: EnumValue| v.model()),
            options: options_model(self.options@),
        }
    }
}

pub open spec fn enums_model(v: Seq<Enum>) -> Seq<EnumModel> {
    v.map_values(|e: Enum| e.model())
}

/// A message declaration, with the messages and enums declared inside it.
#[derive(Debug)]
pub struct Message {
    pub name: String,
    pub fields: Vec<Field>,
    pub nested_messages: Vec<Message>,
    pub nested_enums: Vec<Enum>,
    pub options: Vec<ProtoOption>,
    pub dmxp_options: Option<DmxpMessageOptions>,
}

pub struct MessageModel {
    pub name: Seq<char>,
    pub fields: Seq<FieldModel>,
    pub nested_messages: Seq<MessageModel>,
    pub nested_enums: Seq<EnumModel>,
    pub options: Seq<ProtoOptionModel>,
    pub dmxp_options: Option<DmxpMessageOptionsModel>,
}

impl Message {
    pub open spec fn model(&self) -> MessageModel
        decreases self,
    {
        MessageModel {
            name: self.name@,
            fields: self.fields@.map_values(|f: Field| f.model()),
            nested_messages: Seq::new(
                self.nested_messages.len() as nat,
                |i: int|
                    if 0 <= i < self.nested_messages.len() {
                        self.nested_messages[i].model()
                    } else {
                        arbitrary()
                    },
            ),
            nested_enums: enums_model(self.nested_enums@),
            options: options_model(self.options@),
            dmxp_options: match self.dmxp_options {
                Some(o) => Some(o.model()),
                None => None,
            },
        }
    }
}

pub open spec fn messages_model(v: Seq<Message>) -> Seq<MessageModel> {
    v.map_values(|m: Message| m.model())
}

/// A service method: one call from an input type to an output type.
#[derive(Debug)]
pub struct Method {
    pub name: String,
    pub input_type: String,
    pub output_type: String,
    pub options: Vec<ProtoOption>,
    pub dmxp_options: Option<DmxpMethodOptions>,
}

pub struct MethodModel {
    pub name: Seq<char>,
    pub input_type: Seq<char>,
    pub output_type: Seq<char>,
    pub options: Seq<ProtoOptionModel>,
    pub dmxp_options: Option<DmxpMethodOptionsModel>,
}

impl Method {
    pub open spec fn model(&self) -> MethodModel {
        MethodModel {
            name: self.name@,
            input_type: self.input_type@,
            output_type: self.output_type@,
            options: options_model(self.options@),
            dmxp_options: match self.dmxp_options {
                Some(o) => Some(o.model()),
                None => None,
            },
        }
    }
}

/// A service declaration.
#[derive(Debug)]
pub struct Service {
    pub name: String,
    pub methods: Vec<Method>,
    pub options: Vec<ProtoOption>,
    pub dmxp_options: Option<DmxpServiceOptions>,
}

pub struct ServiceModel {
    pub name: Seq<char>,
    pub methods: Seq<MethodModel>,
    pub options: Seq<ProtoOptionModel>,
    pub dmxp_options: Option<DmxpServiceOptionsModel>,
}

impl Service {
    pub open spec fn model(&self) -> ServiceModel {
        ServiceModel {
            name: self.name@,
            methods: self.methods@.map_values(|m: Method| m.model()),
            options: options_model(self.options@),
            dmxp_options: match self.dmxp_options {
                Some(o) => Some(o.model()),
                None => None,
            },
        }
    }
}

pub open spec fn services_model(v: Seq<Service>) -> Seq<ServiceModel> {
    v.map_values(|s: Service| s.model())
}

/// A file-level extension.
#[derive(Debug)]
pub struct Extension {
    pub name: String,
    pub field_type: FieldType,
    pub number: i32,
    pub options: Vec<ProtoOption>,
}

pub struct ExtensionModel {
    pub name: Seq<char>,
    pub field_type: FieldTypeModel,
    pub number: i32,
    pub options: Seq<ProtoOptionModel>,
}

impl Extension {
    pub open spec fn model(&self) -> ExtensionModel {
        ExtensionModel {
            name: self.name@,
            field_type: self.field_type.model(),
            number: self.number,
            options: options_model(self.options@),
        }
    }
}

/// Direction in which a channel carries messages.
#[derive(Debug, Clone, Copy, PartialEq, Eq, Structural)]
pub enum ChannelDirection {
    Publish,
    Subscribe,
    Bidirectional,
}

/// Delivery settings of an explicitly declared channel.
#[derive(Debug, Clone, Copy, PartialEq, Eq, Structural)]
pub struct DmxpChannelOptions {
    pub buffer_size: Option<u32>,
    pub persistent: Option<bool>,
    pub wal_enabled: Option<bool>,
    pub swap_enabled: Option<bool>,
    pub priority: Option<u32>,
    pub timeout_ms: Option<u32>,
}

/// An explicitly declared channel.
#[derive(Debug)]
pub struct DmxpChannel {
    pub name: String,
    pub message_type: String,
    pub direction: ChannelDirection,
    pub options: DmxpChannelOptions,
}

pub struct DmxpChannelModel {
    pub name: Seq<char>,
    pub message_type: Seq<char>,
    pub direction: ChannelDirection,
    pub options: DmxpChannelOptions,
}

impl DmxpChannel {
    pub open spec fn model(&self) -> DmxpChannelModel {
        DmxpChannelModel {
            name: self.name@,
            message_type: self.message_type@,
            direction: self.direction,
            options: self.options,
        }
    }
}

/// Root of the tree: everything declared in one schema.
#[derive(Debug)]
pub struct ProtoFile {
    pub syntax: String,
    pub package: String,
    pub options: Vec<ProtoOption>,
    pub messages: Vec<Message>,
    pub services: Vec<Service>,
    pub enums: Vec<Enum>,
    pub extensions: Vec<Extension>,
    pub dmxp_channels: Vec<DmxpChannel>,
}

pub struct ProtoFileModel {
    pub syntax: Seq<char>,
    pub package: Seq<char>,
    pub options: Seq<ProtoOptionModel>,
    pub messages: Seq<MessageModel>,
    pub services: Seq<ServiceModel>,
    pub enums: Seq<EnumModel>,
    pub extensions: Seq<ExtensionModel>,
    pub dmxp_channels: Seq<DmxpChannelModel>,
}

impl ProtoFile {
    pub open spec fn model(&self) -> ProtoFileModel {
        ProtoFileModel {
            syntax: self.syntax@,
            package: self.package@,
            options: options_model(self.options@),
            messages: messages_model(self.messages@),
            services: services_model(self.services@),
            enums: enums_model(self.enums@),
            extensions: self.extensions@.map_values(|e: Extension| e.model()),
            dmxp_channels: self.dmxp_channels@.map_values(|c: DmxpChannel| c.model()),
        }
    }
}

/// Index of the first item whose name is `name`.
pub open spec fn first_named(names: Seq<Seq<char>>, name: Seq<char>) -> Option<int> {
    if exists|i: int| 0 <= i < names.len() && names[i] == name {
        Some(
            choose|i: int|
                0 <= i < names.len() && names[i] == name && forall|j: int|
                    0 <= j < i ==> names[j] != name,
        )
    } else {
        None
    }
}

proof fn lemma_first_named(names: Seq<Seq<char>>, name: Seq<char>, i: int)
    requires
        0 <= i < names.len(),
        names[i] == name,
        forall|j: int| 0 <= j < i ==> names[j] != name,
    ensures
        first_named(names, name) == Some(i),
{
    let k = choose|k: int|
        0 <= k < names.len() && names[k] == name && forall|j: int| 0 <= j < k ==> names[j] != name;
    assert(0 <= k < names.len() && names[k] == name && forall|j: int|
        0 <= j < k ==> names[j] != name);
    if k < i {
        assert(names[k] != name);
    }
    if i < k {
        assert(names[i] != name);
    }
}

pub open spec fn message_names(v: Seq<Message>) -> Seq<Seq<char>> {
    v.map_values(|m: Message| m.name@)
}

pub open spec fn service_names(v: Seq<Service>) -> Seq<Seq<char>> {
    v.map_values(|m: Service| m.name@)
}

pub open spec fn enum_names(v: Seq<Enum>) -> Seq<Seq<char>> {
    v.map_values(|m: Enum| m.name@)
}

/// The channel that a message is bound to, if any.
pub open spec fn bound_channel(m: Message) -> Option<Seq<char>> {
    match m.dmxp_options {
        Some(o) => opt_text(o.channel),
        None => None,
    }
}

/// The channels a service is bound to; empty without a binding.
pub open spec fn service_channels_of(s: Service) -> Seq<Seq<char>> {
    match s.dmxp_options {
        Some(o) => texts(o.channels@),
        None => Seq::empty(),
    }
}

/// The messages that carry a channel binding, in order.
pub open spec fn with_message_binding(v: Seq<Message>) -> Seq<Message>
    decreases v.len(),
{
    if v.len() == 0 {
        Seq::empty()
    } else {
        let rest = with_message_binding(v.drop_last());
        if v.last().dmxp_options is Some {
            rest.push(v.last())
        } else {
            rest
        }
    }
}

/// The services that carry a channel binding, in order.
pub open spec fn with_service_binding(v: Seq<Service>) -> Seq<Service>
    decreases v.len(),
{
    if v.len() == 0 {
        Seq::empty()
    } else {
        let rest = with_service_binding(v.drop_last());
        if v.last().dmxp_options is Some {
            rest.push(v.last())
        } else {
            rest
        }
    }
}

impl ProtoFile {
    /// The first top-level message named `name`.
    pub fn find_message(&self, name: &str) -> (r: Option<&Message>)
        ensures
            match first_named(message_names(self.messages@), name@) {
                Some(i) => r == Some(&self.messages@[i]),
                None => r is None,
            },
    {
        let mut i: usize = 0;
        while i < self.messages.len()
            invariant
                i <= self.messages.len(),
                forall|j: int| 0 <= j < i ==> message_names(self.messages@)[j] != name@,
            decreases self.messages.len() - i,
        {
            if crate::text::text_eq(self.messages[i].name.as_str(), name) {
                proof {
                    lemma_first_named(message_names(self.messages@), name@, i as int);
                }
                return Some(&self.messages[i]);
            }
            i = i + 1;
        }
        None
    }

    /// The first service named `name`.
    pub fn find_service(&self, name: &str) -> (r: Option<&Service>)
        ensures
            match first_named(service_names(self.services@), name@) {
                Some(i) => r == Some(&self.services@[i]),
                None => r is None,
            },
    {
        let mut i: usize = 0;
        while i < self.services.len()
            invariant
                i <= self.services.len(),
                forall|j: int| 0 <= j < i ==> service_names(self.services@)[j] != name@,
            decreases self.services.len() - i,
        {
            if crate::text::text_eq(self.services[i].name.as_str(), name) {
                proof {
                    lemma_first_named(service_names(self.services@), name@, i as int);
                }
                return Some(&self.services[i]);
            }
            i = i + 1;
        }
        None
    }

    /// The first top-level enum named `name`.
    pub fn find_enum(&self, name: &str) -> (r: Option<&Enum>)
        ensures
            match first_named(enum_names(self.enums@), name@) {
                Some(i) => r == Some(&self.enums@[i]),
                None => r is None,
            },
    {
        let mut i: usize = 0;
        while i < self.enums.len()
            invariant
                i <= self.enums.len(),
                forall|j: int| 0 <= j < i ==> enum_names(self.enums@)[j] != name@,
            decreases self.enums.len() - i,
        {
            if crate::text::text_eq(self.enums[i].name.as_str(), name) {
                proof {
                    lemma_first_named(enum_names(self.enums@), name@, i as int);
                }
                return Some(&self.enums[i]);
            }
            i = i + 1;
        }
        None
    }

    /// The explicitly declared channels.
    pub fn get_dmxp_channels(&self) -> (r: &Vec<DmxpChannel>)
        ensures
            r == &self.dmxp_channels,
    {
        &self.dmxp_channels
    }

    /// The top-level messages that carry a channel binding, in order.
    pub fn get_dmxp_messages(&self) -> (r: Vec<&Message>)
        ensures
            r@.map_values(|m: &Message| *m) == with_message_binding(self.messages@),
    {
        let mut out: Vec<&Message> = Vec::new();
        let mut i: usize = 0;
        while i < self.messages.len()
            invariant
                i <= self.messages.len(),
                out@.map_values(|m: &Message| *m) == with_message_binding(
                    self.messages@.subrange(0, i as int),
                ),
            decreases self.messages.len() - i,
        {
            let ghost before = out@;
            if self.messages[i].dmxp_options.is_some() {
                out.push(&self.messages[i]);
            }
            i = i + 1;
            assert(self.messages@.subrange(0, i as int).drop_last() =~= self.messages@.subrange(
                0,
                i - 1,
            ));
            assert(out@.map_values(|m: &Message| *m) =~= with_message_binding(
                self.messages@.subrange(0, i as int),
            ));
        }
        assert(self.messages@.subrange(0, self.messages.len() as int) =~= self.messages@);
        out
    }

    /// The services that carry a channel binding, in order.
    pub fn get_dmxp_services(&self) -> (r: Vec<&Service>)
        ensures
            r@.map_values(|s: &Service| *s) == with_service_binding(self.services@),
    {
        let mut out: Vec<&Service> = Vec::new();
        let mut i: usize = 0;
        while i < self.services.len()
            invariant
                i <= self.services.len(),
                out@.map_values(|s: &Service| *s) == with_service_binding(
                    self.services@.subrange(0, i as int),
                ),
            decreases self.services.len() - i,
        {
            if self.services[i].dmxp_options.is_some() {
                out.push(&self.services[i]);
            }
            i = i + 1;
            assert(self.services@.subrange(0, i as int).drop_last() =~= self.services@.subrange(
                0,
                i - 1,
            ));
            assert(out@.map_values(|s: &Service| *s) =~= with_service_binding(
                self.services@.subrange(0, i as int),
            ));
        }
        assert(self.services@.subrange(0, self.services.len() as int) =~= self.services@);
        out
    }
}

impl Message {
    /// Whether the message is bound to a channel.
    pub fn has_dmxp_channel(&self) -> (r: bool)
        ensures
            r == bound_channel(*self) is Some,
    {
        match &self.dmxp_options {
            Some(o) => o.channel.is_some(),
            None => false,
        }
    }

    /// The channel the message is bound to.
    pub fn get_dmxp_channel(&self) -> (r: Option<&String>)
        ensures
            match bound_channel(*self) {
                Some(c) => r matches Some(x) && x@ == c,
                None => r is None,
            },
    {
        match &self.dmxp_options {
            Some(o) => o.channel.as_ref(),
            None => None,
        }
    }
}

impl Service {
    /// Whether the service is bound to at least one channel.
    pub fn has_dmxp_channels(&self) -> (r: bool)
        ensures
            r == (service_channels_of(*self).len() > 0),
    {
        match &self.dmxp_options {
            Some(o) => o.channels.len() > 0,
            None => false,
        }
    }

    /// The channels the service is bound to, in declaration order.
    pub fn get_dmxp_channels(&self) -> (r: Vec<&String>)
        ensures
            r@.map_values(|s: &String| s@) == service_channels_of(*self),
    {
        let mut out: Vec<&String> = Vec::new();
        match &self.dmxp_options {
            Some(o) => {
                let mut i: usize = 0;
                while i < o.channels.len()
                    invariant
                        i <= o.channels.len(),
                        out@.map_values(|s: &String| s@) == texts(o.channels@).subrange(
                            0,
                            i as int,
                        ),
                    decreases o.channels.len() - i,
                {
                    assert(texts(o.channels@)[i as int] == o.channels@[i as int]@);
                    let ghost before = out@;
                    out.push(&o.channels[i]);
                    assert(out@.map_values(|s: &String| s@) =~= before.map_values(|s: &String| s@).push(o.channels@[i as int]@));
                    i = i + 1;
                    assert(out@.map_values(|s: &String| s@) =~= texts(o.channels@).subrange(
                        0,
                        i as int,
                    ));
                }
                assert(texts(o.channels@).subrange(0, o.channels.len() as int) =~= texts(
                    o.channels@,
                ));
            },
            None => {
                assert(out@.map_values(|s: &String| s@) =~= Seq::<Seq<char>>::empty());
            },
        }
        out
    }
}

} // verus!
