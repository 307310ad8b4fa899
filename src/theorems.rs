//! Properties of parsing that hold for every input.
use vstd::prelude::*;
use crate::ast::{DmxpMessageOptionsModel, FieldModel, MessageModel};
use crate::builder::{
    empty_builder, empty_file, end_message_m, message_options_of, new_message, service_options_of, start_message_m,
    with_nested_message, BuilderModel,
};
use crate::classify::{extract_literal, field_line};
use crate::parser::{
    enum_block, enum_body, field_of, line_at, merge_message_option, message_block,
    message_body, message_option_key, message_option_step, no_message_options,
    service_option_step, service_options_or_empty, skippable, decl_name, Step,
    MessageOptionKey, parse_lines, top_level,
};
use crate::text::{contains, starts_with};

verus! {

/// Whether two channel bindings agree on the sub-field that `k` names.
pub open spec fn agree_on(o1: DmxpMessageOptionsModel, o2: DmxpMessageOptionsModel, k: MessageOptionKey) -> bool {
    match k {
        MessageOptionKey::Channel => o1.channel == o2.channel,
        MessageOptionKey::Persistent => o1.persistent == o2.persistent,
        MessageOptionKey::BufferSize => o1.buffer_size == o2.buffer_size,
        MessageOptionKey::WalEnabled => o1.wal_enabled == o2.wal_enabled,
        MessageOptionKey::SwapEnabled => o1.swap_enabled == o2.swap_enabled,
        MessageOptionKey::Priority => o1.priority == o2.priority,
    }
}

/// Two option lines on the same message that set different sub-fields of its
/// channel binding both survive: after the second line, the sub-field that
/// the first line set still holds the first line's value, and the second
/// line's sub-field holds the second line's value.
pub proof fn lemma_message_options_merge(b: BuilderModel, l1: Seq<char>, l2: Seq<char>)
    requires
        b.current_message is Some,
        contains(l1, "dmxp_"@),
        contains(l2, "dmxp_"@),
        message_option_key(l1) is Some,
        message_option_key(l2) is Some,
        message_option_key(l1) != message_option_key(l2),
    ensures
        ({
            let start = match message_options_of(b) {
                Some(o) => o,
                None => no_message_options(),
            };
            let after_first = merge_message_option(start, l1);
            let after_both = message_options_of(message_option_step(l2, message_option_step(l1, b)));
            &&& after_both is Some
            &&& agree_on(after_both->0, after_first, message_option_key(l1)->0)
            &&& agree_on(
                after_both->0,
                merge_message_option(after_first, l2),
                message_option_key(l2)->0,
            )
        }),
{
}

/// Two `dmxp_channels` option lines on one service add their channels to the
/// service's channel list, in source order.
pub proof fn lemma_service_channels_accumulate(b: BuilderModel, l1: Seq<char>, l2: Seq<char>)
    requires
        b.current_service is Some,
        extract_literal(l1, "dmxp_channels"@) is Some,
        extract_literal(l2, "dmxp_channels"@) is Some,
    ensures
        ({
            let after = service_options_of(service_option_step(l2, service_option_step(l1, b)));
            &&& after is Some
            &&& after->0.channels == service_options_or_empty(b).channels.push(
                extract_literal(l1, "dmxp_channels"@)->0,
            ).push(extract_literal(l2, "dmxp_channels"@)->0)
        }),
{
}

/// What a message body, a message block or an enum block leaves in place:
/// the file's top-level messages, the stack of enclosing messages, and an
/// open message.
pub open spec fn keeps_enclosing(b: BuilderModel, r: Step) -> bool {
    r matches Ok((_, b2)) ==> {
        &&& b2.file.messages == b.file.messages
        &&& b2.message_stack == b.message_stack
        &&& b2.current_message is Some
    }
}

proof fn lemma_enum_body_keeps(lines: Seq<Seq<char>>, s: int, depth: nat, b: BuilderModel)
    ensures
        enum_body(lines, s, depth, b) matches Ok((_, b2)) ==> {
            &&& b2.file.messages == b.file.messages
            &&& b2.message_stack == b.message_stack
            &&& b2.current_message == b.current_message
        },
    decreases lines.len() - s,
{
    if 0 <= s < lines.len() {
        let line = line_at(lines, s);
        if skippable(line) {
            lemma_enum_body_keeps(lines, s + 1, depth, b);
        } else {
            match crate::parser::depth_after(depth, line) {
                None => {},
                Some(d) => {
                    if contains(line, "="@) && !starts_with(line, "option"@) {
                        match crate::parser::enum_value_step(line, b) {
                            Ok(b1) => lemma_enum_body_keeps(lines, s + 1, d, b1),
                            Err(_) => {},
                        }
                    } else {
                        lemma_enum_body_keeps(lines, s + 1, d, b);
                    }
                },
            }
        }
    }
}

proof fn lemma_enum_block_keeps(lines: Seq<Seq<char>>, i: int, b: BuilderModel)
    requires
        b.current_message is Some,
    ensures
        keeps_enclosing(b, enum_block(lines, i, b)),
{
    if 0 <= i < lines.len() {
        match decl_name(line_at(lines, i), "enum "@) {
            None => {},
            Some(name) => {
                let b1 = crate::builder::start_enum_m(b, name);
                lemma_enum_body_keeps(lines, i + 1, 1, b1);
            },
        }
    }
}

/// A message declared inside another message is committed into the
/// enclosing message: closing it leaves the file's top-level messages as they
/// were and adds it to the parent's nested messages.
pub proof fn lemma_nested_message_commits_to_parent(b: BuilderModel)
    requires
        b.current_message is Some,
        b.message_stack.len() > 0,
    ensures
        end_message_m(b).file == b.file,
        end_message_m(b).current_message == Some(
            with_nested_message(b.message_stack.last(), b.current_message->0),
        ),
{
}

/// Parsing a message block inside an open message, however deeply it nests,
/// never adds to the file's top-level messages: the block ends inside the
/// enclosing message, with the same enclosing messages.
pub proof fn lemma_message_block_keeps(lines: Seq<Seq<char>>, i: int, b: BuilderModel)
    requires
        b.current_message is Some,
    ensures
        keeps_enclosing(b, message_block(lines, i, b)),
    decreases lines.len() - i, 0nat,
{
    if 0 <= i < lines.len() {
        match decl_name(line_at(lines, i), "message "@) {
            None => {},
            Some(name) => {
                let b1 = start_message_m(b, name);
                lemma_message_body_keeps(lines, i + 1, b1);
                assert(b1.message_stack.last() == b.current_message->0);
                assert(b1.message_stack.drop_last() =~= b.message_stack);
            },
        }
    }
}

/// Parsing the body of an open message never adds to the file's top-level
/// messages, whatever it declares inside.
pub proof fn lemma_message_body_keeps(lines: Seq<Seq<char>>, s: int, b: BuilderModel)
    requires
        b.current_message is Some,
    ensures
        keeps_enclosing(b, message_body(lines, s, b)),
    decreases lines.len() - s, 1nat,
{
    if 0 <= s < lines.len() {
        let line = line_at(lines, s);
        if skippable(line) {
            lemma_message_body_keeps(lines, s + 1, b);
        } else if line == "}"@ {
        } else if starts_with(line, "message "@) {
            lemma_message_block_keeps(lines, s, b);
            match message_block(lines, s, b) {
                Ok((n, b1)) => if s + n + 1 <= lines.len() {
                    lemma_message_body_keeps(lines, s + n + 1, b1);
                },
                Err(_) => {},
            }
        } else if starts_with(line, "enum "@) {
            lemma_enum_block_keeps(lines, s, b);
            match enum_block(lines, s, b) {
                Ok((n, b1)) => if s + n + 1 <= lines.len() {
                    lemma_message_body_keeps(lines, s + n + 1, b1);
                },
                Err(_) => {},
            }
        } else if starts_with(line, "option "@) {
            lemma_message_body_keeps(lines, s + 1, message_option_step(line, b));
        } else if field_line(line) {
            match crate::parser::field_step(line, b) {
                Ok(b1) => lemma_message_body_keeps(lines, s + 1, b1),
                Err(_) => {},
            }
        } else {
            lemma_message_body_keeps(lines, s + 1, b);
        }
    }
}

/// A line that declares one field and nothing else.
pub open spec fn plain_field_line(line: Seq<char>) -> bool {
    &&& !skippable(line)
    &&& line != "}"@
    &&& !starts_with(line, "message "@)
    &&& !starts_with(line, "enum "@)
    &&& !starts_with(line, "option "@)
    &&& field_line(line)
    &&& field_of(line) matches Some(Ok(_))
}

pub open spec fn field_value(line: Seq<char>) -> FieldModel {
    match field_of(line) {
        Some(Ok(f)) => f,
        _ => arbitrary(),
    }
}

/// The fields that lines `s` to `s + n - 1` declare, in order.
pub open spec fn declared_fields(lines: Seq<Seq<char>>, s: int, n: nat) -> Seq<FieldModel> {
    Seq::new(n, |j: int| field_value(line_at(lines, s + j)))
}

proof fn lemma_field_body(lines: Seq<Seq<char>>, s: int, n: nat, b: BuilderModel)
    requires
        0 <= s,
        s + n < lines.len(),
        forall|j: int| 0 <= j < n ==> plain_field_line(#[trigger] line_at(lines, s + j)),
        line_at(lines, s + n) == "}"@,
        b.current_message is Some,
    ensures
        message_body(lines, s, b) == Ok::<(nat, BuilderModel), crate::parser::ParseErrorModel>(
            (
                n,
                BuilderModel {
                    current_message: Some(
                        MessageModel {
                            fields: b.current_message->0.fields + declared_fields(lines, s, n),
                            ..b.current_message->0
                        },
                    ),
                    ..b
                },
            ),
        ),
    decreases n,
{
    let m = b.current_message->0;
    if n == 0 {
        reveal_strlit("}");
        reveal_strlit("//");
        assert(!skippable(line_at(lines, s)));
        assert(m.fields + declared_fields(lines, s, n) =~= m.fields);
    } else {
        let line = line_at(lines, s);
        assert(line_at(lines, s + 0) == line);
        assert(plain_field_line(line));
        let b1 = crate::builder::add_field_m(b, field_value(line));
        assert forall|j: int| 0 <= j < n - 1 implies plain_field_line(
            #[trigger] line_at(lines, (s + 1) + j),
        ) by {
            assert(line_at(lines, s + (j + 1)) == line_at(lines, (s + 1) + j));
        }
        assert(line_at(lines, (s + 1) + (n - 1) as nat) == line_at(lines, s + n));
        lemma_field_body(lines, s + 1, (n - 1) as nat, b1);
        let m1 = b1.current_message->0;
        assert(m1.fields + declared_fields(lines, s + 1, (n - 1) as nat) =~= m.fields
            + declared_fields(lines, s, n));
    }
}

/// A message block whose body lines each declare one field gives exactly
/// one message: named as declared, with those fields in declaration order,
/// each numbered by the integer written on its line. With no message open,
/// it is appended to the file's top-level messages.
pub proof fn lemma_flat_message_block(lines: Seq<Seq<char>>, i: int, n: nat, b: BuilderModel)
    requires
        0 <= i,
        i + n + 1 < lines.len(),
        decl_name(line_at(lines, i), "message "@) is Some,
        forall|j: int| 0 <= j < n ==> plain_field_line(#[trigger] line_at(lines, i + 1 + j)),
        line_at(lines, i + n + 1) == "}"@,
        b.current_message is None,
        b.message_stack.len() == 0,
    ensures
        ({
            let name = decl_name(line_at(lines, i), "message "@)->0;
            let m = MessageModel { fields: declared_fields(lines, i + 1, n), ..new_message(name) };
            message_block(lines, i, b) == Ok::<(nat, BuilderModel), crate::parser::ParseErrorModel>(
                (
                    n + 1,
                    BuilderModel {
                        file: crate::ast::ProtoFileModel {
                            messages: b.file.messages.push(m),
                            ..b.file
                        },
                        ..b
                    },
                ),
            )
        }),
{
    let name = decl_name(line_at(lines, i), "message "@)->0;
    let b1 = start_message_m(b, name);
    assert forall|j: int| 0 <= j < n implies plain_field_line(
        #[trigger] line_at(lines, (i + 1) + j),
    ) by {
        assert(line_at(lines, i + 1 + j) == line_at(lines, (i + 1) + j));
    }
    lemma_field_body(lines, i + 1, n, b1);
    assert(Seq::<FieldModel>::empty() + declared_fields(lines, i + 1, n) =~= declared_fields(
        lines,
        i + 1,
        n,
    ));
}

/// Line where the `k`-th block starts when block `j` spans `sizes[j] + 2`
/// lines.
pub open spec fn block_start(sizes: Seq<nat>, k: int) -> int
    decreases k,
{
    if k <= 0 {
        0
    } else {
        block_start(sizes, k - 1) + sizes[k - 1] + 2
    }
}

/// Lines `i` to `i + n + 1` are a message block whose `n` body lines each
/// declare one field.
pub open spec fn flat_block(lines: Seq<Seq<char>>, i: int, n: nat) -> bool {
    &&& 0 <= i
    &&& i + n + 1 < lines.len()
    &&& starts_with(line_at(lines, i), "message "@)
    &&& decl_name(line_at(lines, i), "message "@) is Some
    &&& forall|j: int| 0 <= j < n ==> plain_field_line(#[trigger] line_at(lines, i + 1 + j))
    &&& line_at(lines, i + n + 1) == "}"@
}

/// The schema is message blocks one after another and nothing else; block
/// `k` declares `sizes[k]` fields.
pub open spec fn flat_schema(lines: Seq<Seq<char>>, sizes: Seq<nat>) -> bool {
    &&& lines.len() == block_start(sizes, sizes.len() as int)
    &&& forall|k: int| 0 <= k < sizes.len() ==> flat_block(lines, block_start(sizes, k), #[trigger] sizes[k])
}

/// The message that a flat block at line `i` with `n` fields declares.
pub open spec fn flat_message(lines: Seq<Seq<char>>, i: int, n: nat) -> MessageModel {
    MessageModel {
        fields: declared_fields(lines, i + 1, n),
        ..new_message(decl_name(line_at(lines, i), "message "@)->0)
    }
}

proof fn lemma_block_start_grows(sizes: Seq<nat>, k: int, m: int)
    requires
        0 <= k <= m <= sizes.len(),
    ensures
        block_start(sizes, k) <= block_start(sizes, m),
    decreases m - k,
{
    if k < m {
        lemma_block_start_grows(sizes, k, m - 1);
    }
}

proof fn lemma_message_line_dispatch(line: Seq<char>)
    requires
        starts_with(line, "message "@),
    ensures
        !skippable(line),
        !starts_with(line, "syntax"@),
        !starts_with(line, "package"@),
{
    reveal_strlit("message ");
    reveal_strlit("syntax");
    reveal_strlit("package");
    reveal_strlit("//");
    assert(line.subrange(0, 8)[0] == line[0]);
    assert(line[0] == 'm');
    if starts_with(line, "syntax"@) {
        assert(line.subrange(0, 6)[0] == line[0]);
    }
    if starts_with(line, "package"@) {
        assert(line.subrange(0, 7)[0] == line[0]);
    }
    if starts_with(line, "//"@) {
        assert(line.subrange(0, 2)[0] == line[0]);
    }
}

#[verifier::rlimit(50)]
proof fn lemma_top_level_message_step(lines: Seq<Seq<char>>, i: int, b: BuilderModel)
    requires
        0 <= i < lines.len(),
        starts_with(line_at(lines, i), "message "@),
    ensures
        top_level(lines, i, b) == match message_block(lines, i, b) {
            Ok((n, b1)) => if i + n + 1 <= lines.len() {
                top_level(lines, i + n + 1, b1)
            } else {
                Ok(b1)
            },
            Err(e) => Err(e),
        },
{
    lemma_message_line_dispatch(line_at(lines, i));
}

#[verifier::rlimit(100)]
proof fn lemma_flat_top_level(lines: Seq<Seq<char>>, sizes: Seq<nat>, k: int, b: BuilderModel)
    requires
        flat_schema(lines, sizes),
        0 <= k <= sizes.len(),
        b.current_message is None,
        b.message_stack.len() == 0,
    ensures
        top_level(lines, block_start(sizes, k), b) == Ok::<BuilderModel, crate::parser::ParseErrorModel>(
            BuilderModel {
                file: crate::ast::ProtoFileModel {
                    messages: b.file.messages + Seq::new(
                        (sizes.len() - k) as nat,
                        |j: int| flat_message(lines, block_start(sizes, k + j), sizes[k + j]),
                    ),
                    ..b.file
                },
                ..b
            },
        ),
    decreases sizes.len() - k,
{
    let rest = Seq::new(
        (sizes.len() - k) as nat,
        |j: int| flat_message(lines, block_start(sizes, k + j), sizes[k + j]),
    );
    if k == sizes.len() {
        assert(b.file.messages + rest =~= b.file.messages);
    } else {
        let i = block_start(sizes, k);
        let n = sizes[k];
        assert(flat_block(lines, i, n));
        lemma_top_level_message_step(lines, i, b);
        lemma_flat_message_block(lines, i, n, b);
        let m = flat_message(lines, i, n);
        let b1 = BuilderModel {
            file: crate::ast::ProtoFileModel { messages: b.file.messages.push(m), ..b.file },
            ..b
        };
        assert(block_start(sizes, k + 1) == i + n + 2);
        lemma_block_start_grows(sizes, k + 1, sizes.len() as int);
        lemma_flat_top_level(lines, sizes, k + 1, b1);
        let rest1 = Seq::new(
            (sizes.len() - (k + 1)) as nat,
            |j: int| flat_message(lines, block_start(sizes, k + 1 + j), sizes[k + 1 + j]),
        );
        assert(b1.file.messages + rest1 =~= b.file.messages + rest);
    }
}

/// A schema made only of message blocks whose body lines each declare one
/// field parses into exactly one top-level message per block, in order, each
/// with its fields in declaration order and numbered by the integers written
/// on their lines; nothing else is declared.
pub proof fn lemma_flat_schema_round_trip(lines: Seq<Seq<char>>, sizes: Seq<nat>)
    requires
        flat_schema(lines, sizes),
    ensures
        parse_lines(lines) == Ok::<crate::ast::ProtoFileModel, crate::parser::ParseErrorModel>(
            crate::ast::ProtoFileModel {
                messages: Seq::new(
                    sizes.len(),
                    |k: int| flat_message(lines, block_start(sizes, k), sizes[k]),
                ),
                ..empty_file()
            },
        ),
{
    lemma_flat_top_level(lines, sizes, 0, empty_builder());
    let all = Seq::new(
        sizes.len(),
        |k: int| flat_message(lines, block_start(sizes, k), sizes[k]),
    );
    let from0 = Seq::new(
        (sizes.len() - 0) as nat,
        |j: int| flat_message(lines, block_start(sizes, 0 + j), sizes[0 + j]),
    );
    assert(Seq::<MessageModel>::empty() + from0 =~= all);
}

} // verus!
