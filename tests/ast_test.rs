use dmxp_protobuf_plugin::ast::{
    ChannelDirection, DmxpChannel, DmxpChannelOptions, DmxpMessageOptions, Extension, Field,
    FieldLabel, FieldType, Message, Method, OptionValue, ProtoFile, ProtoOption,
};
use dmxp_protobuf_plugin::builder::AstBuilder;
use dmxp_protobuf_plugin::parser::ProtoParser;

fn schema() -> ProtoFile {
    let text = "message A {\n  option (dmxp_channel) = \"a_chan\";\n}\nmessage B {\n}\nservice S {\n  option (dmxp_channels) = \"c1\";\n}\nservice T {\n}\nenum E {\n  X = 1;\n}\n";
    ProtoParser::new(text.to_string()).parse().unwrap()
}

#[test]
fn find_by_name() {
    let f = schema();
    assert_eq!(f.find_message("B").unwrap().name, "B");
    assert!(f.find_message("Z").is_none());
    assert_eq!(f.find_service("T").unwrap().name, "T");
    assert_eq!(f.find_enum("E").unwrap().values[0].number, 1);
    assert!(f.find_enum("A").is_none());
}

#[test]
fn channel_queries() {
    let f = schema();
    let bound: Vec<&str> = f.get_dmxp_messages().iter().map(|m| m.name.as_str()).collect();
    assert_eq!(bound, vec!["A"]);
    let services: Vec<&str> = f.get_dmxp_services().iter().map(|s| s.name.as_str()).collect();
    assert_eq!(services, vec!["S"]);
    assert!(f.messages[0].has_dmxp_channel());
    assert!(!f.messages[1].has_dmxp_channel());
    assert_eq!(f.messages[0].get_dmxp_channel(), Some(&"a_chan".to_string()));
    assert!(f.services[0].has_dmxp_channels());
    assert!(!f.services[1].has_dmxp_channels());
    assert_eq!(f.services[0].get_dmxp_channels(), vec![&"c1".to_string()]);
    assert!(f.get_dmxp_channels().is_empty());
}

fn field(name: &str, number: i32) -> Field {
    Field {
        name: name.to_string(),
        field_type: FieldType::Int32,
        number,
        label: FieldLabel::Optional,
        options: Vec::new(),
        default_value: None,
    }
}

#[test]
fn builder_nests_messages_by_stack() {
    let mut b = AstBuilder::new();
    b.start_message("Outer".to_string());
    b.add_field(field("a", 1));
    b.start_message("Inner".to_string());
    b.add_field(field("b", 2));
    b.end_message();
    b.add_field(field("c", 3));
    b.end_message();
    let f = b.build();
    assert_eq!(f.messages.len(), 1);
    let outer = &f.messages[0];
    assert_eq!(outer.fields.iter().map(|x| x.number).collect::<Vec<_>>(), vec![1, 3]);
    assert_eq!(outer.nested_messages.len(), 1);
    assert_eq!(outer.nested_messages[0].fields[0].name, "b");
}

#[test]
fn builder_ignores_items_without_open_frame() {
    let mut b = AstBuilder::new();
    b.add_field(field("lost", 1));
    b.end_message();
    b.end_enum();
    b.end_service();
    let f = b.build();
    assert!(f.messages.is_empty() && f.enums.is_empty() && f.services.is_empty());
    assert_eq!(f.syntax, "proto3");
}

#[test]
fn builder_message_options_round_trip() {
    let mut b = AstBuilder::new();
    b.start_message("M".to_string());
    assert!(b.get_dmxp_message_options().is_none());
    b.set_dmxp_message_options(DmxpMessageOptions {
        channel: Some("c".to_string()),
        persistent: None,
        buffer_size: Some(8),
        wal_enabled: None,
        swap_enabled: None,
        priority: None,
    });
    assert_eq!(b.get_dmxp_message_options().unwrap().buffer_size, Some(8));
    let taken = b.take_dmxp_message_options().unwrap();
    assert_eq!(taken.channel, Some("c".to_string()));
    assert!(b.get_dmxp_message_options().is_none());
    b.end_message();
    let f = b.build();
    let m: &Message = &f.messages[0];
    assert!(m.dmxp_options.is_none());
}

#[test]
fn builder_enum_inside_message() {
    let mut b = AstBuilder::new();
    b.set_syntax("proto2".to_string());
    b.set_package("pkg".to_string());
    b.start_message("M".to_string());
    b.start_enum("E".to_string());
    b.end_enum();
    b.end_message();
    b.start_enum("Top".to_string());
    b.end_enum();
    let f = b.build();
    assert_eq!(f.syntax, "proto2");
    assert_eq!(f.package, "pkg");
    assert_eq!(f.messages[0].nested_enums[0].name, "E");
    assert_eq!(f.enums[0].name, "Top");
}

#[test]
fn builder_file_level_items() {
    let mut b = AstBuilder::new();
    b.add_option(ProtoOption { name: "java_package".to_string(), value: OptionValue::String("x".to_string()) });
    b.add_extension(Extension { name: "ext".to_string(), field_type: FieldType::Bool, number: 100, options: Vec::new() });
    b.add_dmxp_channel(DmxpChannel {
        name: "orders".to_string(),
        message_type: "Order".to_string(),
        direction: ChannelDirection::Publish,
        options: DmxpChannelOptions { buffer_size: Some(4), persistent: None, wal_enabled: None, swap_enabled: None, priority: None, timeout_ms: Some(10) },
    });
    b.start_service("S".to_string());
    b.add_method(Method { name: "M".to_string(), input_type: "I".to_string(), output_type: "O".to_string(), options: Vec::new(), dmxp_options: None });
    b.add_service_option(ProtoOption { name: "deprecated".to_string(), value: OptionValue::Boolean(true) });
    b.end_service();
    let f = b.build();
    assert_eq!(f.options.len(), 1);
    assert_eq!(f.extensions[0].number, 100);
    assert_eq!(f.get_dmxp_channels()[0].direction, ChannelDirection::Publish);
    assert_eq!(f.services[0].methods[0].output_type, "O");
    assert_eq!(f.services[0].options[0].name, "deprecated");
}
