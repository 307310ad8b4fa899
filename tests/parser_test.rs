use dmxp_protobuf_plugin::ast::{FieldLabel, FieldType, ProtoFile};
use dmxp_protobuf_plugin::parser::{
    method_from_captures, parse_proto_source, ParseError, ProtoParser,
};

const SCHEMA: &str = "syntax = \"proto3\";
package dmxp.example;

// Messages bound to channels
message UserData {
    option (dmxp_channel) = \"user_updates\";
    option (dmxp_persistent) = true;
    string user_id = 1;
    string name = 2;
    int64 created_at = 3;
}

message OrderData {
    option (dmxp_channel) = \"order_events\";
    option (dmxp_buffer_size) = 1024;
    string order_id = 1;
    repeated string items = 2;
    double total = 3;
}

service OrderService {
    option (dmxp_channels) = \"order_events\";
    rpc GetOrder(GetOrderRequest) returns (GetOrderResponse);
}

enum OrderStatus {
    ORDER_STATUS_PENDING = 0;
    ORDER_STATUS_DONE = 1;
}
";

fn parse(text: &str) -> Result<ProtoFile, ParseError> {
    let mut parser = ProtoParser::new(text.to_string());
    parser.parse()
}

#[test]
fn test_new_empty() {
    let parser = ProtoParser::new(String::from(""));
    assert_eq!(parser.current_line, 0);
    println!("Printing the full object: {:?}", parser);
}

#[test]
fn test_new_with_content() {
    let parser = ProtoParser::new(String::from("syntax = \"proto3\";"));
    assert_eq!(parser.current_line, 0);
    println!("Printing the full object: {:?}", parser);
}

#[test]
fn test_new_with_parsed_content() {
    let parser = ProtoParser::new(SCHEMA.to_string());
    assert_eq!(parser.current_line, 0);
    println!("Printing the full object: {:?}", parser);
}

#[test]
fn test_parse_proto_with_dmxp_options() {
    let mut parser = ProtoParser::new(SCHEMA.to_string());
    let result = parser.parse();
    assert!(result.is_ok(), "Parsing failed: {:?}", result.err());
    let ast = result.unwrap();
    assert!(!ast.messages.is_empty(), "No messages found in the AST");

    let user_data = ast.messages.iter().find(|m| m.name == "UserData").expect("UserData message not found");
    assert!(user_data.dmxp_options.is_some(), "DMXP options not found for UserData");
    let dmxp_options = user_data.dmxp_options.as_ref().unwrap();
    assert_eq!(dmxp_options.channel, Some("user_updates".to_string()));

    let order_data = ast.messages.iter().find(|m| m.name == "OrderData").expect("OrderData message not found");
    assert!(order_data.dmxp_options.is_some(), "DMXP options not found for OrderData");
    let order_dmxp = order_data.dmxp_options.as_ref().unwrap();
    assert_eq!(order_dmxp.channel, Some("order_events".to_string()));
}

#[test]
fn new_splits_lines_like_str_lines() {
    let parser = ProtoParser::new("a\r\nb\n\nc\n".to_string());
    assert_eq!(parser.lines, vec!["a".to_string(), "b".to_string(), "".to_string(), "c".to_string()]);
    assert_eq!(parser.position, 0);
}

#[test]
fn full_schema_parses_everything() {
    let ast = parse(SCHEMA).unwrap();
    assert_eq!(ast.syntax, "proto3");
    assert_eq!(ast.package, "dmxp.example");
    assert_eq!(ast.messages.len(), 2);
    let user = &ast.messages[0];
    assert_eq!(user.fields.len(), 3);
    assert_eq!(user.fields[2].name, "created_at");
    assert!(matches!(user.fields[2].field_type, FieldType::Int64));
    let order = &ast.messages[1];
    assert_eq!(order.fields[1].label, FieldLabel::Repeated);
    assert_eq!(order.dmxp_options.as_ref().unwrap().buffer_size, Some(1024));
    assert_eq!(ast.services.len(), 1);
    assert_eq!(ast.services[0].methods[0].name, "GetOrder");
    assert_eq!(ast.enums.len(), 1);
    assert_eq!(ast.enums[0].values[1].number, 1);
}

#[test]
fn message_with_channel_binding() {
    let text = "message UserData {\n  option (dmxp_channel) = \"user_updates\";\n  string user_id = 1;\n}\n";
    let ast = parse(text).unwrap();
    assert_eq!(ast.messages.len(), 1);
    let m = &ast.messages[0];
    assert_eq!(m.name, "UserData");
    assert_eq!(m.fields.len(), 1);
    assert_eq!(m.fields[0].name, "user_id");
    assert!(matches!(m.fields[0].field_type, FieldType::String));
    assert_eq!(m.fields[0].number, 1);
    assert_eq!(m.fields[0].label, FieldLabel::Optional);
    assert_eq!(m.dmxp_options.as_ref().unwrap().channel, Some("user_updates".to_string()));
}

#[test]
fn enum_with_two_values() {
    let ast = parse("enum Status {\n  ACTIVE = 0;\n  INACTIVE = 1;\n}\n").unwrap();
    assert_eq!(ast.enums.len(), 1);
    let e = &ast.enums[0];
    assert_eq!(e.name, "Status");
    assert_eq!(e.values.len(), 2);
    assert_eq!((e.values[0].name.as_str(), e.values[0].number), ("ACTIVE", 0));
    assert_eq!((e.values[1].name.as_str(), e.values[1].number), ("INACTIVE", 1));
}

#[test]
fn service_with_one_method() {
    let ast = parse("service Orders {\n  rpc GetOrder(GetOrderRequest) returns (GetOrderResponse);\n}\n").unwrap();
    assert_eq!(ast.services.len(), 1);
    let s = &ast.services[0];
    assert_eq!(s.name, "Orders");
    assert_eq!(s.methods.len(), 1);
    assert_eq!(s.methods[0].name, "GetOrder");
    assert_eq!(s.methods[0].input_type, "GetOrderRequest");
    assert_eq!(s.methods[0].output_type, "GetOrderResponse");
}

#[test]
fn empty_field_number_is_an_error() {
    match parse("message Bad {\n  string name = ;\n}\n") {
        Err(ParseError::EmptyFieldNumber(line)) => assert_eq!(line, "string name = ;"),
        other => panic!("unexpected: {:?}", other),
    }
}

#[test]
fn flat_messages_keep_fields_in_order() {
    let text = "message A {\n  int32 x = 5;\n  string y = 2;\n}\nmessage B {\n  bool z = 9;\n  bytes w = 10;\n}\n";
    let ast = parse(text).unwrap();
    assert_eq!(ast.messages.len(), 2);
    let a = &ast.messages[0];
    assert_eq!(a.name, "A");
    assert_eq!(a.fields.iter().map(|f| (f.name.as_str(), f.number)).collect::<Vec<_>>(), vec![("x", 5), ("y", 2)]);
    let b = &ast.messages[1];
    assert_eq!(b.fields.iter().map(|f| (f.name.as_str(), f.number)).collect::<Vec<_>>(), vec![("z", 9), ("w", 10)]);
}

#[test]
fn nested_messages_stay_inside_their_parent() {
    let text = "message Outer {\n  message Middle {\n    message Inner {\n      int32 v = 1;\n    }\n    string m = 1;\n  }\n  enum Kind {\n    A = 0;\n  }\n  int32 o = 1;\n}\n";
    let ast = parse(text).unwrap();
    assert_eq!(ast.messages.len(), 1);
    let outer = &ast.messages[0];
    assert_eq!(outer.name, "Outer");
    assert_eq!(outer.fields.len(), 1);
    assert_eq!(outer.nested_messages.len(), 1);
    let middle = &outer.nested_messages[0];
    assert_eq!(middle.name, "Middle");
    assert_eq!(middle.fields[0].name, "m");
    assert_eq!(middle.nested_messages.len(), 1);
    assert_eq!(middle.nested_messages[0].name, "Inner");
    assert_eq!(outer.nested_enums.len(), 1);
    assert_eq!(outer.nested_enums[0].name, "Kind");
    assert!(ast.enums.is_empty());
}

#[test]
fn option_lines_merge_into_one_binding() {
    let text = "message M {\n  option (dmxp_persistent) = true;\n  option dmxp_buffer_size = 256;\n  option (dmxp_priority) = 3;\n  option (dmxp_wal_enabled) = false;\n}\n";
    let ast = parse(text).unwrap();
    let o = ast.messages[0].dmxp_options.as_ref().unwrap();
    assert_eq!(o.persistent, Some(true));
    assert_eq!(o.buffer_size, Some(256));
    assert_eq!(o.priority, Some(3));
    assert_eq!(o.wal_enabled, Some(false));
    assert_eq!(o.channel, None);
    assert_eq!(o.swap_enabled, None);
}

#[test]
fn unreadable_option_value_is_ignored() {
    let ast = parse("message M {\n  option (dmxp_buffer_size) = lots;\n}\n").unwrap();
    let o = ast.messages[0].dmxp_options.as_ref().unwrap();
    assert_eq!(o.buffer_size, None);
}

#[test]
fn service_channels_accumulate_in_order() {
    let text = "service S {\n  option (dmxp_channels) = \"first\";\n  option (dmxp_channels) = \"second\";\n  option (dmxp_timeout_ms) = \"500\";\n  option (dmxp_retry_count) = \"3\";\n}\n";
    let ast = parse(text).unwrap();
    let o = ast.services[0].dmxp_options.as_ref().unwrap();
    assert_eq!(o.channels, vec!["first".to_string(), "second".to_string()]);
    assert_eq!(o.timeout_ms, Some(500));
    assert_eq!(o.retry_count, Some(3));
}

#[test]
fn empty_input_gives_default_file() {
    let ast = parse("").unwrap();
    assert_eq!(ast.syntax, "proto3");
    assert_eq!(ast.package, "");
    assert!(ast.messages.is_empty() && ast.services.is_empty() && ast.enums.is_empty());
}

#[test]
fn unterminated_message_fails() {
    assert!(matches!(parse("message Open {\n  int32 a = 1;\n"), Err(ParseError::UnterminatedBlock)));
}

#[test]
fn unterminated_enum_fails() {
    assert!(matches!(parse("enum E {\n  A = 0;\n"), Err(ParseError::UnterminatedBlock)));
}

#[test]
fn malformed_repeated_field_fails() {
    match parse("message M {\n  repeated int32 tags =\n}\n") {
        Err(ParseError::MalformedField(line)) => assert_eq!(line, "repeated int32 tags ="),
        other => panic!("unexpected: {:?}", other),
    }
}

#[test]
fn invalid_field_number_fails() {
    match parse("message M {\n  int32 a = x1;\n}\n") {
        Err(ParseError::InvalidFieldNumber(n)) => assert_eq!(n, "x1"),
        other => panic!("unexpected: {:?}", other),
    }
}

#[test]
fn field_number_too_large_fails() {
    assert!(matches!(parse("message M {\n  int32 a = 2147483648;\n}\n"), Err(ParseError::InvalidFieldNumber(_))));
}

#[test]
fn invalid_rpc_fails() {
    match parse("service S {\n  rpc Broken(Req returns (Resp);\n}\n") {
        Err(ParseError::InvalidRpc(line)) => assert_eq!(line, "rpc Broken(Req returns (Resp)"),
        other => panic!("unexpected: {:?}", other),
    }
}

#[test]
fn rpc_with_spacing_and_comment() {
    let ast = parse("service S {\n  rpc  Get ( In )returns( Out ); // fetch\n}\n").unwrap();
    let m = &ast.services[0].methods[0];
    assert_eq!((m.name.as_str(), m.input_type.as_str(), m.output_type.as_str()), ("Get", "In", "Out"));
}

#[test]
fn invalid_enum_number_fails() {
    match parse("enum E {\n  A = one;\n}\n") {
        Err(ParseError::InvalidEnumNumber(n)) => assert_eq!(n, "one"),
        other => panic!("unexpected: {:?}", other),
    }
}

#[test]
fn enum_value_splits_at_first_equals() {
    match parse("enum E {\n  A = 1 = 2;\n}\n") {
        Err(ParseError::InvalidEnumNumber(n)) => assert_eq!(n, "1 = 2"),
        other => panic!("unexpected: {:?}", other),
    }
}

#[test]
fn negative_enum_number() {
    let ast = parse("enum E {\n  NEG = -2147483648;\n}\n").unwrap();
    assert_eq!(ast.enums[0].values[0].number, i32::MIN);
}

#[test]
fn field_types_map_from_keywords() {
    let parser = ProtoParser::new(String::new());
    assert!(matches!(parser.parse_field_type("double"), FieldType::Double));
    assert!(matches!(parser.parse_field_type("sfixed64"), FieldType::Sfixed64));
    assert!(matches!(parser.parse_field_type("bytes"), FieldType::Bytes));
    match parser.parse_field_type("Address") {
        FieldType::Message(n) => assert_eq!(n, "Address"),
        other => panic!("unexpected: {:?}", other),
    }
}

#[test]
fn method_from_captures_reads_groups() {
    let caps = Some(vec![
        Some("rpc A(B) returns (C)".to_string()),
        Some("A".to_string()),
        Some("B".to_string()),
        Some("C".to_string()),
    ]);
    let m = method_from_captures(caps, "rpc A(B) returns (C)").unwrap();
    assert_eq!((m.name.as_str(), m.input_type.as_str(), m.output_type.as_str()), ("A", "B", "C"));
    match method_from_captures(None, "rpc x") {
        Err(ParseError::InvalidRpc(t)) => assert_eq!(t, "rpc x"),
        other => panic!("unexpected: {:?}", other),
    }
    assert!(method_from_captures(Some(vec![Some("x".to_string())]), "x").is_err());
}

#[test]
fn comments_and_unknown_lines_are_skipped() {
    let text = "// header\nimport \"other.proto\";\noption java_package = \"x\";\nmessage M {\n  // a comment = 3 here\n  int32 a = 1;\n}\n";
    let ast = parse(text).unwrap();
    assert_eq!(ast.messages[0].fields.len(), 1);
}

#[test]
fn parse_proto_source_matches_parser() {
    let ast = parse_proto_source("package p;\nmessage M {\n}\n".to_string()).unwrap();
    assert_eq!(ast.package, "p");
    assert_eq!(ast.messages[0].name, "M");
}

#[test]
fn largest_field_number_and_buffer_size() {
    let text = "message M {\n  option (dmxp_buffer_size) = 4294967295;\n  int32 a = 2147483647;\n}\nmessage N {\n  option (dmxp_buffer_size) = 4294967296;\n}\n";
    let ast = parse(text).unwrap();
    assert_eq!(ast.messages[0].fields[0].number, i32::MAX);
    assert_eq!(ast.messages[0].dmxp_options.as_ref().unwrap().buffer_size, Some(u32::MAX));
    assert_eq!(ast.messages[1].dmxp_options.as_ref().unwrap().buffer_size, None);
}

#[test]
fn syntax_and_package_lines() {
    let ast = parse("syntax = \"proto2\";\npackage a.b.c;\n").unwrap();
    assert_eq!(ast.syntax, "proto2");
    assert_eq!(ast.package, "a.b.c");
    let ast = parse("syntax = \"\";\npackage nosemicolon\n").unwrap();
    assert_eq!(ast.syntax, "proto3");
    assert_eq!(ast.package, "");
}
