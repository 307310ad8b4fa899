//! Questions about one trimmed schema line, answered without looking at
//! any other line.
use vstd::prelude::*;
use crate::text::{
    chars_of, contains, contains_str, find, find_exec, occurs_at, parse_u32, parse_u32_spec, same, slice,
    split_words, trim, trim_char, trim_end_char, trim_end_matches, trim_matches, trim_ws, views,
    words,
};

verus! {

pub open spec fn is_construct_keyword(w: Seq<char>) -> bool {
    w == "message"@ || w == "service"@ || w == "enum"@ || w == "option"@ || w == "rpc"@
}

/// A field line: not a construct, at least three words, and an `=` in the
/// word where the field number's `=` stands (the third word, or the fourth
/// after `repeated`).
pub open spec fn field_line(line: Seq<char>) -> bool {
    let w = words(line);
    &&& w.len() >= 3
    &&& !is_construct_keyword(w[0])
    &&& if w[0] == "repeated"@ {
        w.len() >= 4 && contains(w[3], "="@)
    } else {
        contains(w[2], "="@)
    }
}

/// The text after `key = ` (or `key) = `) with the trailing `;`, surrounding
/// blanks and surrounding quotes removed; `None` without the key or the `=`.
pub open spec fn extract_literal(line: Seq<char>, key: Seq<char>) -> Option<Seq<char>> {
    match find(line, key) {
        None => None,
        Some(i) => {
            let rest = line.subrange(i + key.len(), line.len() as int);
            let rest1 = if rest.len() > 0 && rest[0] == ')' {
                rest.drop_first()
            } else {
                rest
            };
            let rest2 = trim(rest1);
            if rest2.len() > 0 && rest2[0] == '=' {
                Some(trim_char(trim(trim_end_char(trim(rest2.drop_first()), ';')), '"'))
            } else {
                None
            }
        },
    }
}

pub open spec fn extract_bool(line: Seq<char>, key: Seq<char>) -> Option<bool> {
    match extract_literal(line, key) {
        Some(v) => if v == "true"@ {
            Some(true)
        } else if v == "false"@ {
            Some(false)
        } else {
            None
        },
        None => None,
    }
}

pub open spec fn extract_u32(line: Seq<char>, key: Seq<char>) -> Option<u32> {
    match extract_literal(line, key) {
        Some(v) => parse_u32_spec(v),
        None => None,
    }
}

fn word_is(w: &Vec<char>, k: &str) -> (r: bool)
    ensures
        r == (w@ == k@),
{
    same(w, &chars_of(k))
}

pub fn is_field_line(line: &Vec<char>) -> (r: bool)
    ensures
        r == field_line(line@),
{
    let w = split_words(line);
    assert(views(w@).len() == w@.len());
    if w.len() < 3 {
        return false;
    }
    assert(views(w@)[0] == w@[0]@);
    assert(views(w@)[2] == w@[2]@);
    if word_is(&w[0], "message") || word_is(&w[0], "service") || word_is(&w[0], "enum")
        || word_is(&w[0], "option") || word_is(&w[0], "rpc") {
        return false;
    }
    if word_is(&w[0], "repeated") {
        if w.len() < 4 {
            return false;
        }
        assert(views(w@)[3] == w@[3]@);
        contains_str(&w[3], "=")
    } else {
        contains_str(&w[2], "=")
    }
}

pub fn extract_literal_value(line: &Vec<char>, key: &str) -> (r: Option<Vec<char>>)
    ensures
        r matches Some(v) ==> extract_literal(line@, key@) == Some(v@),
        r is None ==> extract_literal(line@, key@) is None,
{
    let k = chars_of(key);
    match find_exec(line, &k) {
        None => None,
        Some(i) => {
            assert(occurs_at(line@, k@, i as int));
            assert(i + k@.len() <= line@.len());
            let klen = k.len();
            assert(klen == k@.len());
            assert(line@.len() == line.len());
            let start: usize = i + klen;
            let rest = slice(line, start, line.len());
            let rest1 = if rest.len() > 0 && rest[0] == ')' {
                slice(&rest, 1, rest.len())
            } else {
                rest
            };
            assert(rest@.len() > 0 && rest@[0] == ')' ==> rest@.subrange(1, rest@.len() as int)
                =~= rest@.drop_first());
            let rest2 = trim_ws(&rest1);
            if rest2.len() > 0 && rest2[0] == '=' {
                let v = slice(&rest2, 1, rest2.len());
                assert(v@ =~= rest2@.drop_first());
                let v = trim_ws(&v);
                let v = trim_end_matches(&v, ';');
                let v = trim_ws(&v);
                Some(trim_matches(&v, '"'))
            } else {
                None
            }
        },
    }
}

pub fn extract_bool_value(line: &Vec<char>, key: &str) -> (r: Option<bool>)
    ensures
        r == extract_bool(line@, key@),
{
    match extract_literal_value(line, key) {
        Some(v) => if word_is(&v, "true") {
            Some(true)
        } else if word_is(&v, "false") {
            Some(false)
        } else {
            None
        },
        None => None,
    }
}

pub fn extract_number_value(line: &Vec<char>, key: &str) -> (r: Option<u32>)
    ensures
        r == extract_u32(line@, key@),
{
    match extract_literal_value(line, key) {
        Some(v) => parse_u32(&v),
        None => None,
    }
}

} // verus!
