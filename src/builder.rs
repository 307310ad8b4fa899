//! Incremental construction of a `ProtoFile`: open declarations wait on a
//! stack and are committed to their parent when closed.
use vstd::prelude::*;
use crate::ast::{
    messages_model, DmxpChannel, DmxpChannelModel, DmxpMessageOptions, DmxpMessageOptionsModel,
    DmxpServiceOptions, DmxpServiceOptionsModel, Enum, EnumModel, EnumValue, EnumValueModel,
    Extension, ExtensionModel, Field, FieldModel, Message, MessageModel, Method, MethodModel,
    ProtoFile, ProtoFileModel, ProtoOption, ProtoOptionModel, Service, ServiceModel,
};
use crate::text::chars_of;
use crate::text::string_of;

verus! {

/// Builder state: the file so far, the open message, service and enum, and
/// the messages that enclose the open message, outermost first.
pub struct AstBuilder {
    pub current_file: ProtoFile,
    pub current_message: Option<Message>,
    pub current_service: Option<Service>,
    pub current_enum: Option<Enum>,
    pub message_stack: Vec<Message>,
}

pub struct BuilderModel {
    pub file: ProtoFileModel,
    pub current_message: Option<MessageModel>,
    pub current_service: Option<ServiceModel>,
    pub current_enum: Option<EnumModel>,
    pub message_stack: Seq<MessageModel>,
}

pub open spec fn opt_message_model(m: Option<Message>) -> Option<MessageModel> {
    match m {
        Some(m) => Some(m.model()),
        None => None,
    }
}

impl AstBuilder {
    pub open spec fn model(&self) -> BuilderModel {
        BuilderModel {
            file: self.current_file.model(),
            current_message: opt_message_model(self.current_message),
            current_service: match self.current_service {
                Some(s) => Some(s.model()),
                None => None,
            },
            current_enum: match self.current_enum {
                Some(e) => Some(e.model()),
                None => None,
            },
            message_stack: messages_model(self.message_stack@),
        }
    }
}

pub open spec fn empty_file() -> ProtoFileModel {
    ProtoFileModel {
        syntax: "proto3"@,
        package: Seq::empty(),
        options: Seq::empty(),
        messages: Seq::empty(),
        services: Seq::empty(),
        enums: Seq::empty(),
        extensions: Seq::empty(),
        dmxp_channels: Seq::empty(),
    }
}

pub open spec fn empty_builder() -> BuilderModel {
    BuilderModel {
        file: empty_file(),
        current_message: None,
        current_service: None,
        current_enum: None,
        message_stack: Seq::empty(),
    }
}

pub open spec fn new_message(name: Seq<char>) -> MessageModel {
    MessageModel {
        name,
        fields: Seq::empty(),
        nested_messages: Seq::empty(),
        nested_enums: Seq::empty(),
        options: Seq::empty(),
        dmxp_options: None,
    }
}

pub open spec fn new_service(name: Seq<char>) -> ServiceModel {
    ServiceModel { name, methods: Seq::empty(), options: Seq::empty(), dmxp_options: None }
}

pub open spec fn new_enum(name: Seq<char>) -> EnumModel {
    EnumModel { name, values: Seq::empty(), options: Seq::empty() }
}

pub open spec fn set_syntax_m(b: BuilderModel, s: Seq<char>) -> BuilderModel {
    BuilderModel { file: ProtoFileModel { syntax: s, ..b.file }, ..b }
}

pub open spec fn set_package_m(b: BuilderModel, p: Seq<char>) -> BuilderModel {
    BuilderModel { file: ProtoFileModel { package: p, ..b.file }, ..b }
}

pub open spec fn add_option_m(b: BuilderModel, o: ProtoOptionModel) -> BuilderModel {
    BuilderModel { file: ProtoFileModel { options: b.file.options.push(o), ..b.file }, ..b }
}

/// Opening a message while another is open puts the open one on the stack.
pub open spec fn start_message_m(b: BuilderModel, name: Seq<char>) -> BuilderModel {
    BuilderModel {
        current_message: Some(new_message(name)),
        message_stack: match b.current_message {
            Some(m) => b.message_stack.push(m),
            None => b.message_stack,
        },
        ..b
    }
}

pub open spec fn with_nested_message(parent: MessageModel, m: MessageModel) -> MessageModel {
    MessageModel { nested_messages: parent.nested_messages.push(m), ..parent }
}

/// Closing a message commits it into the enclosing message, which becomes
/// the open one again, or into the file when nothing encloses it.
pub open spec fn end_message_m(b: BuilderModel) -> BuilderModel {
    match b.current_message {
        None => b,
        Some(m) => if b.message_stack.len() > 0 {
            BuilderModel {
                current_message: Some(with_nested_message(b.message_stack.last(), m)),
                message_stack: b.message_stack.drop_last(),
                ..b
            }
        } else {
            BuilderModel {
                file: ProtoFileModel { messages: b.file.messages.push(m), ..b.file },
                current_message: None,
                ..b
            }
        },
    }
}

/// Applies `f` to the open message; nothing happens when none is open.
pub open spec fn update_message(
    b: BuilderModel,
    f: spec_fn(MessageModel) -> MessageModel,
) -> BuilderModel {
    match b.current_message {
        Some(m) => BuilderModel { current_message: Some(f(m)), ..b },
        None => b,
    }
}

pub open spec fn add_field_m(b: BuilderModel, fd: FieldModel) -> BuilderModel {
    update_message(b, |m: MessageModel| MessageModel { fields: m.fields.push(fd), ..m })
}

pub open spec fn add_message_option_m(b: BuilderModel, o: ProtoOptionModel) -> BuilderModel {
    update_message(b, |m: MessageModel| MessageModel { options: m.options.push(o), ..m })
}

pub open spec fn set_dmxp_message_options_m(
    b: BuilderModel,
    o: DmxpMessageOptionsModel,
) -> BuilderModel {
    update_message(b, |m: MessageModel| MessageModel { dmxp_options: Some(o), ..m })
}

pub open spec fn start_service_m(b: BuilderModel, name: Seq<char>) -> BuilderModel {
    BuilderModel { current_service: Some(new_service(name)), ..b }
}

pub open spec fn end_service_m(b: BuilderModel) -> BuilderModel {
    match b.current_service {
        Some(s) => BuilderModel {
            file: ProtoFileModel { services: b.file.services.push(s), ..b.file },
            current_service: None,
            ..b
        },
        None => b,
    }
}

pub open spec fn update_service(
    b: BuilderModel,
    f: spec_fn(ServiceModel) -> ServiceModel,
) -> BuilderModel {
    match b.current_service {
        Some(s) => BuilderModel { current_service: Some(f(s)), ..b },
        None => b,
    }
}

pub open spec fn add_method_m(b: BuilderModel, md: MethodModel) -> BuilderModel {
    update_service(b, |s: ServiceModel| ServiceModel { methods: s.methods.push(md), ..s })
}

pub open spec fn add_service_option_m(b: BuilderModel, o: ProtoOptionModel) -> BuilderModel {
    update_service(b, |s: ServiceModel| ServiceModel { options: s.options.push(o), ..s })
}

pub open spec fn set_dmxp_service_options_m(
    b: BuilderModel,
    o: DmxpServiceOptionsModel,
) -> BuilderModel {
    update_service(b, |s: ServiceModel| ServiceModel { dmxp_options: Some(o), ..s })
}

/// Commits the open enum into the open message, or into the file when no
/// message is open.
pub open spec fn commit_enum_m(b: BuilderModel) -> BuilderModel {
    match b.current_enum {
        None => b,
        Some(e) => match b.current_message {
            Some(m) => BuilderModel {
                current_message: Some(MessageModel { nested_enums: m.nested_enums.push(e), ..m }),
                current_enum: None,
                ..b
            },
            None => BuilderModel {
                file: ProtoFileModel { enums: b.file.enums.push(e), ..b.file },
                current_enum: None,
                ..b
            },
        },
    }
}

/// Enums do not nest: opening one first commits the enum still open.
pub open spec fn start_enum_m(b: BuilderModel, name: Seq<char>) -> BuilderModel {
    BuilderModel { current_enum: Some(new_enum(name)), ..commit_enum_m(b) }
}

pub open spec fn end_enum_m(b: BuilderModel) -> BuilderModel {
    commit_enum_m(b)
}

pub open spec fn add_enum_value_m(b: BuilderModel, v: EnumValueModel) -> BuilderModel {
    match b.current_enum {
        Some(e) => BuilderModel {
            current_enum: Some(EnumModel { values: e.values.push(v), ..e }),
            ..b
        },
        None => b,
    }
}

pub open spec fn add_extension_m(b: BuilderModel, x: ExtensionModel) -> BuilderModel {
    BuilderModel { file: ProtoFileModel { extensions: b.file.extensions.push(x), ..b.file }, ..b }
}

pub open spec fn add_dmxp_channel_m(b: BuilderModel, c: DmxpChannelModel) -> BuilderModel {
    BuilderModel {
        file: ProtoFileModel { dmxp_channels: b.file.dmxp_channels.push(c), ..b.file },
        ..b
    }
}

/// The channel binding of the open message, if any.
pub open spec fn message_options_of(b: BuilderModel) -> Option<DmxpMessageOptionsModel> {
    match b.current_message {
        Some(m) => m.dmxp_options,
        None => None,
    }
}

/// The channel binding of the open service, if any.
pub open spec fn service_options_of(b: BuilderModel) -> Option<DmxpServiceOptionsModel> {
    match b.current_service {
        Some(s) => s.dmxp_options,
        None => None,
    }
}

proof fn lemma_push_nested(parent: Message, old_nested: Seq<Message>, m: Message)
    requires
        parent.nested_messages@ == old_nested.push(m),
    ensures
        parent.model().nested_messages == messages_model(old_nested).push(m.model()),
{
    assert(parent.model().nested_messages =~= messages_model(old_nested).push(m.model()));
}

impl AstBuilder {
    pub fn new() -> (r: Self)
        ensures
            r.model() == empty_builder(),
    {
        let r = AstBuilder {
            current_file: ProtoFile {
                syntax: string_of(&chars_of("proto3")),
                package: string_of(&Vec::new()),
                options: Vec::new(),
                messages: Vec::new(),
                services: Vec::new(),
                enums: Vec::new(),
                extensions: Vec::new(),
                dmxp_channels: Vec::new(),
            },
            current_message: None,
            current_service: None,
            current_enum: None,
            message_stack: Vec::new(),
        };
        assert(r.model().file.package =~= Seq::<char>::empty());
        assert(r.model().file.messages =~= Seq::<MessageModel>::empty());
        assert(r.model().file.services =~= Seq::<ServiceModel>::empty());
        assert(r.model().file.enums =~= Seq::<EnumModel>::empty());
        assert(r.model().file.options =~= Seq::<ProtoOptionModel>::empty());
        assert(r.model().file.extensions =~= Seq::<ExtensionModel>::empty());
        assert(r.model().file.dmxp_channels =~= Seq::<DmxpChannelModel>::empty());
        assert(r.model().message_stack =~= Seq::<MessageModel>::empty());
        r
    }

    pub fn set_syntax(&mut self, syntax: String)
        ensures
            final(self).model() == set_syntax_m(old(self).model(), syntax@),
    {
        self.current_file.syntax = syntax;
    }

    pub fn set_package(&mut self, package: String)
        ensures
            final(self).model() == set_package_m(old(self).model(), package@),
    {
        self.current_file.package = package;
    }

    pub fn add_option(&mut self, option: ProtoOption)
        ensures
            final(self).model() == add_option_m(old(self).model(), option.model()),
    {
        self.current_file.options.push(option);
        assert(self.model().file.options =~= old(self).model().file.options.push(option.model()));
    }

    pub fn start_message(&mut self, name: String)
        ensures
            final(self).model() == start_message_m(old(self).model(), name@),
    {
        if let Some(open) = self.current_message.take() {
            self.message_stack.push(open);
        }
        let m = Message {
            name,
            fields: Vec::new(),
            nested_messages: Vec::new(),
            nested_enums: Vec::new(),
            options: Vec::new(),
            dmxp_options: None,
        };
        assert(m.model().fields =~= Seq::<FieldModel>::empty());
        assert(m.model().nested_messages =~= Seq::<MessageModel>::empty());
        assert(m.model().nested_enums =~= Seq::<EnumModel>::empty());
        assert(m.model().options =~= Seq::<ProtoOptionModel>::empty());
        assert(m.model() == new_message(name@));
        self.current_message = Some(m);
        assert(self.model().message_stack =~= start_message_m(old(self).model(), name@).message_stack);
    }

    pub fn end_message(&mut self)
        ensures
            final(self).model() == end_message_m(old(self).model()),
    {
        if let Some(m) = self.current_message.take() {
            match self.message_stack.pop() {
                Some(mut parent) => {
                    let ghost before = parent;
                    parent.nested_messages.push(m);
                    proof {
                        lemma_push_nested(parent, before.nested_messages@, m);
                        assert(before.model() == old(self).model().message_stack.last());
                        assert(before.model().nested_messages =~= messages_model(
                            before.nested_messages@,
                        ));
                    }
                    assert(parent.model() == with_nested_message(before.model(), m.model()));
                    self.current_message = Some(parent);
                    assert(self.model().message_stack =~= old(
                        self,
                    ).model().message_stack.drop_last());
                },
                None => {
                    self.current_file.messages.push(m);
                    assert(self.model().file.messages =~= old(self).model().file.messages.push(
                        m.model(),
                    ));
                },
            }
        }
    }

    pub fn add_field(&mut self, field: Field)
        ensures
            final(self).model() == add_field_m(old(self).model(), field.model()),
    {
        if let Some(mut m) = self.current_message.take() {
            let ghost before = m;
            m.fields.push(field);
            assert(m.model().fields =~= before.model().fields.push(field.model()));
            assert(m.model().nested_messages =~= before.model().nested_messages);
            self.current_message = Some(m);
        }
    }

    pub fn add_message_option(&mut self, option: ProtoOption)
        ensures
            final(self).model() == add_message_option_m(old(self).model(), option.model()),
    {
        if let Some(mut m) = self.current_message.take() {
            let ghost before = m;
            m.options.push(option);
            assert(m.model().options =~= before.model().options.push(option.model()));
            assert(m.model().nested_messages =~= before.model().nested_messages);
            self.current_message = Some(m);
        }
    }

    pub fn set_dmxp_message_options(&mut self, options: DmxpMessageOptions)
        ensures
            final(self).model() == set_dmxp_message_options_m(old(self).model(), options.model()),
    {
        if let Some(mut m) = self.current_message.take() {
            let ghost before = m;
            m.dmxp_options = Some(options);
            assert(m.model().nested_messages =~= before.model().nested_messages);
            self.current_message = Some(m);
        }
    }

    /// The channel binding of the open message.
    pub fn get_dmxp_message_options(&self) -> (r: Option<&DmxpMessageOptions>)
        ensures
            match r {
                Some(o) => message_options_of(self.model()) == Some(o.model()),
                None => message_options_of(self.model()) is None,
            },
    {
        match &self.current_message {
            Some(m) => m.dmxp_options.as_ref(),
            None => None,
        }
    }

    /// Removes the channel binding of the open message and hands it over, so
    /// that it can be extended and set again.
    pub fn take_dmxp_message_options(&mut self) -> (r: Option<DmxpMessageOptions>)
        ensures
            match r {
                Some(o) => message_options_of(old(self).model()) == Some(o.model()),
                None => message_options_of(old(self).model()) is None,
            },
            final(self).current_message is Some <==> old(self).current_message is Some,
            forall|o: DmxpMessageOptionsModel|
                set_dmxp_message_options_m(final(self).model(), o) == set_dmxp_message_options_m(
                    old(self).model(),
                    o,
                ),
    {
        match self.current_message.take() {
            Some(mut m) => {
                let ghost before = m;
                let r = m.dmxp_options.take();
                assert(m.model().nested_messages =~= before.model().nested_messages);
                self.current_message = Some(m);
                r
            },
            None => None,
        }
    }

    pub fn start_service(&mut self, name: String)
        ensures
            final(self).model() == start_service_m(old(self).model(), name@),
    {
        let s = Service { name, methods: Vec::new(), options: Vec::new(), dmxp_options: None };
        assert(s.model().methods =~= Seq::<MethodModel>::empty());
        assert(s.model().options =~= Seq::<ProtoOptionModel>::empty());
        assert(s.model() == new_service(name@));
        self.current_service = Some(s);
    }

    pub fn end_service(&mut self)
        ensures
            final(self).model() == end_service_m(old(self).model()),
    {
        if let Some(s) = self.current_service.take() {
            self.current_file.services.push(s);
            assert(self.model().file.services =~= old(self).model().file.services.push(s.model()));
        }
    }

    pub fn add_method(&mut self, method: Method)
        ensures
            final(self).model() == add_method_m(old(self).model(), method.model()),
    {
        if let Some(mut s) = self.current_service.take() {
            let ghost before = s;
            s.methods.push(method);
            assert(s.model().methods =~= before.model().methods.push(method.model()));
            self.current_service = Some(s);
        }
    }

    pub fn add_service_option(&mut self, option: ProtoOption)
        ensures
            final(self).model() == add_service_option_m(old(self).model(), option.model()),
    {
        if let Some(mut s) = self.current_service.take() {
            let ghost before = s;
            s.options.push(option);
            assert(s.model().options =~= before.model().options.push(option.model()));
            self.current_service = Some(s);
        }
    }

    pub fn set_dmxp_service_options(&mut self, options: DmxpServiceOptions)
        ensures
            final(self).model() == set_dmxp_service_options_m(old(self).model(), options.model()),
    {
        if let Some(mut s) = self.current_service.take() {
            s.dmxp_options = Some(options);
            self.current_service = Some(s);
        }
    }

    /// Removes the channel binding of the open service and hands it over.
    pub fn take_dmxp_service_options(&mut self) -> (r: Option<DmxpServiceOptions>)
        ensures
            match r {
                Some(o) => service_options_of(old(self).model()) == Some(o.model()),
                None => service_options_of(old(self).model()) is None,
            },
            forall|o: DmxpServiceOptionsModel|
                set_dmxp_service_options_m(final(self).model(), o) == set_dmxp_service_options_m(
                    old(self).model(),
                    o,
                ),
    {
        match self.current_service.take() {
            Some(mut s) => {
                let r = s.dmxp_options.take();
                self.current_service = Some(s);
                r
            },
            None => None,
        }
    }

    fn commit_enum(&mut self)
        ensures
            final(self).model() == commit_enum_m(old(self).model()),
    {
        if let Some(e) = self.current_enum.take() {
            match self.current_message.take() {
                Some(mut m) => {
                    let ghost before = m;
                    m.nested_enums.push(e);
                    assert(m.model().nested_enums =~= before.model().nested_enums.push(e.model()));
                    assert(m.model().nested_messages =~= before.model().nested_messages);
                    self.current_message = Some(m);
                },
                None => {
                    self.current_file.enums.push(e);
                    assert(self.model().file.enums =~= old(self).model().file.enums.push(
                        e.model(),
                    ));
                },
            }
        }
    }

    pub fn start_enum(&mut self, name: String)
        ensures
            final(self).model() == start_enum_m(old(self).model(), name@),
    {
        self.commit_enum();
        let e = Enum { name, values: Vec::new(), options: Vec::new() };
        assert(e.model().values =~= Seq::<EnumValueModel>::empty());
        assert(e.model().options =~= Seq::<ProtoOptionModel>::empty());
        assert(e.model() == new_enum(name@));
        self.current_enum = Some(e);
    }

    pub fn end_enum(&mut self)
        ensures
            final(self).model() == end_enum_m(old(self).model()),
    {
        self.commit_enum();
    }

    pub fn add_enum_value(&mut self, value: EnumValue)
        ensures
            final(self).model() == add_enum_value_m(old(self).model(), value.model()),
    {
        if let Some(mut e) = self.current_enum.take() {
            let ghost before = e;
            e.values.push(value);
            assert(e.model().values =~= before.model().values.push(value.model()));
            self.current_enum = Some(e);
        }
    }

    pub fn add_extension(&mut self, extension: Extension)
        ensures
            final(self).model() == add_extension_m(old(self).model(), extension.model()),
    {
        self.current_file.extensions.push(extension);
        assert(self.model().file.extensions =~= old(self).model().file.extensions.push(
            extension.model(),
        ));
    }

    pub fn add_dmxp_channel(&mut self, channel: DmxpChannel)
        ensures
            final(self).model() == add_dmxp_channel_m(old(self).model(), channel.model()),
    {
        self.current_file.dmxp_channels.push(channel);
        assert(self.model().file.dmxp_channels =~= old(self).model().file.dmxp_channels.push(
            channel.model(),
        ));
    }

    /// The file built so far; declarations still open are dropped.
    pub fn build(self) -> (r: ProtoFile)
        ensures
            r.model() == self.model().file,
    {
        self.current_file
    }
}

impl Default for AstBuilder {
    fn default() -> (r: Self)
        ensures
            r.model() == empty_builder(),
    {
        AstBuilder::new()
    }
}

} // verus!
