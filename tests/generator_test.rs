use dmxp_protobuf_plugin::ast::{FieldLabel, FieldType};
use dmxp_protobuf_plugin::generator::{
    convert_field_label, convert_field_name, convert_field_type, generate_dmxp_channel_code,
    to_pascal_case, GeneratorOptions, Language, TemplateGenerator,
};
use dmxp_protobuf_plugin::parser::ProtoParser;

fn file(text: &str) -> dmxp_protobuf_plugin::ast::ProtoFile {
    ProtoParser::new(text.to_string()).parse().unwrap()
}

#[test]
fn repeated_int32_member_per_target() {
    let f = file("message Tagged {\n  repeated int32 tags = 2;\n}\n");
    let go = TemplateGenerator::new(Language::Go).generate(&f);
    assert!(go.contains("type Tagged struct {\n    Tags []int32\n}\n"), "{}", go);
    let rust = TemplateGenerator::new(Language::Rust).generate(&f);
    assert!(rust.contains("pub struct Tagged {\n    pub tags: Vec<i32>,\n}\n"), "{}", rust);
}

#[test]
fn type_tables() {
    assert_eq!(convert_field_type(&FieldType::Double, &Language::Rust), "f64");
    assert_eq!(convert_field_type(&FieldType::Double, &Language::Go), "float64");
    assert_eq!(convert_field_type(&FieldType::Bytes, &Language::Go), "[]byte");
    assert_eq!(convert_field_type(&FieldType::Message("User".to_string()), &Language::Go), "*User");
    let map = FieldType::MapType(Box::new(FieldType::String), Box::new(FieldType::Uint64));
    assert_eq!(convert_field_type(&map, &Language::Rust), "HashMap<String, u64>");
    assert_eq!(convert_field_type(&map, &Language::Go), "map[string]uint64");
}

#[test]
fn label_tables() {
    assert_eq!(convert_field_label(&FieldLabel::Optional, &Language::Rust), "Option<");
    assert_eq!(convert_field_label(&FieldLabel::Repeated, &Language::Rust), "Vec<");
    assert_eq!(convert_field_label(&FieldLabel::Required, &Language::Go), "");
    assert_eq!(convert_field_label(&FieldLabel::Repeated, &Language::Go), "[]");
}

#[test]
fn names_per_target() {
    assert_eq!(convert_field_name("user_id", &Language::Rust), "user_id");
    assert_eq!(convert_field_name("user_id", &Language::Go), "UserId");
    assert_eq!(to_pascal_case("a__b_c"), "ABC");
    assert_eq!(to_pascal_case("écho_ß"), "ÉchoSS");
    assert_eq!(to_pascal_case(""), "");
}

#[test]
fn channel_binding_code() {
    let f = file("message Event {\n  option (dmxp_channel) = \"events\";\n}\nmessage Plain {\n}\n");
    let rust = generate_dmxp_channel_code(&f.messages[0], &Language::Rust);
    assert!(rust.contains("impl Event {"));
    assert!(rust.contains("publisher.publish(\"events\", self)"));
    assert!(rust.contains("dmxp::subscribe(\"events\", callback)"));
    let go = generate_dmxp_channel_code(&f.messages[0], &Language::Go);
    assert!(go.contains("func (m *Event) Publish(publisher *dmxp.Publisher) error {"));
    assert!(go.contains("func SubscribeEvent(callback func(*Event) error) error {"));
    assert_eq!(generate_dmxp_channel_code(&f.messages[1], &Language::Rust), "");
}

#[test]
fn whole_file_rust() {
    let f = file("package shop;\nmessage Item {\n  string sku = 1;\n  message Part {\n    int32 n = 1;\n  }\n}\nservice Store {\n  option (dmxp_channels) = \"items\";\n  rpc Get(Req) returns (Item);\n}\nenum Color {\n  RED = 0;\n  DARK = -3;\n}\n");
    let out = TemplateGenerator::new(Language::Rust).generate(&f);
    let expected = "// Package: shop\n\n#[derive(Debug, Clone)]\npub struct Item {\n    pub sku: Option<String>,\n}\n\n#[derive(Debug, Clone)]\npub struct Part {\n    pub n: Option<i32>,\n}\n\n// channel: items\npub trait Store {\n    fn Get(&self, request: Req) -> Item;\n}\n\n#[derive(Debug, Clone, Copy, PartialEq, Eq)]\npub enum Color {\n    RED = 0,\n    DARK = -3,\n}\n\n";
    assert_eq!(out, expected);
}

#[test]
fn whole_file_go_with_options() {
    let f = file("package shop;\nservice Store {\n  option (dmxp_channels) = \"items\";\n  rpc Get(Req) returns (Item);\n}\nenum Color {\n  RED = 10;\n}\n");
    let options = GeneratorOptions {
        include_dmxp: false,
        use_async: false,
        package_override: Some("store".to_string()),
        extra_imports: vec!["fmt".to_string()],
    };
    let out = TemplateGenerator::new_with_options(Language::Go, options).generate(&f);
    let expected = "package store\nimport \"fmt\"\n\ntype Store interface {\n    Get(request *Req) (*Item, error)\n}\n\ntype Color int32\n\nconst (\n    Color_RED Color = 10\n)\n\n";
    assert_eq!(out, expected);
}

#[test]
fn builder_style_setters() {
    let f = file("message M {\n}\n");
    let g = TemplateGenerator::new(Language::Rust).with_language(Language::Go);
    assert!(g.generate(&f).starts_with("package \n"));
    let g = g.with_options(GeneratorOptions { include_dmxp: true, use_async: true, package_override: Some("x".to_string()), extra_imports: Vec::new() });
    assert!(g.generate(&f).starts_with("package x\n\ntype M struct {\n}\n"));
    let d = GeneratorOptions::default();
    assert!(d.include_dmxp && d.use_async && d.package_override.is_none() && d.extra_imports.is_empty());
}
