//! Rendering a finished record as one line of JSON, with the exact escaping
//! and compact layout of the target format: quote and backslash get a
//! backslash escape, the named control characters their short escapes, every
//! other control character a `\u00..` escape with lowercase hex digits, and
//! everything else stands as itself.

use vstd::prelude::*;
use crate::post::{Post, PostContent, PostError, PostModel, built_model, missing_name,
    required_present};
use crate::parser::doc_model;
use crate::text::push_char;

verus! {

/// The hexadecimal digit for `n`, in lower case.
pub open spec fn hex_digit(n: int) -> char {
    if n == 0 {
        '0'
    } else if n == 1 {
        '1'
    } else if n == 2 {
        '2'
    } else if n == 3 {
        '3'
    } else if n == 4 {
        '4'
    } else if n == 5 {
        '5'
    } else if n == 6 {
        '6'
    } else if n == 7 {
        '7'
    } else if n == 8 {
        '8'
    } else if n == 9 {
        '9'
    } else if n == 10 {
        'a'
    } else if n == 11 {
        'b'
    } else if n == 12 {
        'c'
    } else if n == 13 {
        'd'
    } else if n == 14 {
        'e'
    } else {
        'f'
    }
}

/// How one character stands inside a JSON string.
pub open spec fn escape_char(c: char) -> Seq<char> {
    if c == '"' {
        seq!['\\', '"']
    } else if c == '\\' {
        seq!['\\', '\\']
    } else if c == '\u{8}' {
        seq!['\\', 'b']
    } else if c == '\t' {
        seq!['\\', 't']
    } else if c == '\n' {
        seq!['\\', 'n']
    } else if c == '\u{c}' {
        seq!['\\', 'f']
    } else if c == '\r' {
        seq!['\\', 'r']
    } else if (c as u32) < 0x20 {
        seq!['\\', 'u', '0', '0', hex_digit((c as u32) as int / 16), hex_digit((c as u32) as int % 16)]
    } else {
        seq![c]
    }
}

/// The characters of `s`, each escaped.
pub open spec fn escape_seq(s: Seq<char>) -> Seq<char>
    decreases s.len(),
{
    if s.len() == 0 {
        Seq::empty()
    } else {
        escape_char(s[0]) + escape_seq(s.drop_first())
    }
}

/// The JSON text of a string value: the escaped characters between quotes.
pub open spec fn json_string(s: Seq<char>) -> Seq<char> {
    seq!['"'] + escape_seq(s) + seq!['"']
}

/// The JSON text of one content value: an object carrying the markdown text.
pub open spec fn json_content(s: Seq<char>) -> Seq<char> {
    "{\"markdown\":"@ + json_string(s) + seq!['}']
}

/// The JSON texts of the entries after the first of a string array, each
/// preceded by a comma, with the closing bracket.
pub open spec fn json_list_tail(items: Seq<Seq<char>>) -> Seq<char>
    decreases items.len(),
{
    if items.len() == 0 {
        seq![']']
    } else {
        seq![','] + json_string(items[0]) + json_list_tail(items.drop_first())
    }
}

/// The JSON text of an array of string values.
pub open spec fn json_string_list(items: Seq<Seq<char>>) -> Seq<char> {
    if items.len() == 0 {
        seq!['[', ']']
    } else {
        seq!['['] + json_string(items[0]) + json_list_tail(items.drop_first())
    }
}

/// As `json_list_tail`, for content values.
pub open spec fn json_content_tail(items: Seq<Seq<char>>) -> Seq<char>
    decreases items.len(),
{
    if items.len() == 0 {
        seq![']']
    } else {
        seq![','] + json_content(items[0]) + json_content_tail(items.drop_first())
    }
}

/// The JSON text of an array of content values.
pub open spec fn json_content_list(items: Seq<Seq<char>>) -> Seq<char> {
    if items.len() == 0 {
        seq!['[', ']']
    } else {
        seq!['['] + json_content(items[0]) + json_content_tail(items.drop_first())
    }
}

/// The JSON serialization of a record: the type tag and the five fixed
/// properties, in this order, in compact layout.
pub open spec fn post_json(p: PostModel) -> Seq<char> {
    "{\"type\":"@ + json_string_list(p.post_type) + ",\"properties\":{\"name\":"@
        + json_string_list(p.name) + ",\"mp-slug\":"@ + json_string_list(p.slug)
        + ",\"content\":"@ + json_content_list(p.content) + ",\"published\":"@
        + json_string_list(p.published) + ",\"category\":"@ + json_string_list(p.category)
        + "}}"@
}

/// Escaping a sequence one character longer escapes the last character after
/// the rest.
proof fn lemma_escape_snoc(s: Seq<char>, c: char)
    ensures
        escape_seq(s.push(c)) == escape_seq(s) + escape_char(c),
    decreases s.len(),
{
    if s.len() == 0 {
        assert(s.push(c)[0] == c);
        assert(s.push(c).drop_first() =~= Seq::<char>::empty());
        assert(escape_seq(Seq::<char>::empty()) == Seq::<char>::empty());
        assert(escape_seq(s.push(c)) == escape_char(c) + Seq::<char>::empty());
        assert(escape_seq(s.push(c)) =~= escape_seq(s) + escape_char(c));
    } else {
        assert(s.push(c)[0] == s[0]);
        assert(s.push(c).drop_first() =~= s.drop_first().push(c));
        lemma_escape_snoc(s.drop_first(), c);
        assert(escape_seq(s.push(c)) =~= escape_seq(s) + escape_char(c));
    }
}

/// The lowercase hexadecimal digit character for `n`.
fn hex_digit_char(n: u8) -> (r: char)
    requires
        n < 16,
    ensures
        r == hex_digit(n as int),
{
    if n == 0 {
        '0'
    } else if n == 1 {
        '1'
    } else if n == 2 {
        '2'
    } else if n == 3 {
        '3'
    } else if n == 4 {
        '4'
    } else if n == 5 {
        '5'
    } else if n == 6 {
        '6'
    } else if n == 7 {
        '7'
    } else if n == 8 {
        '8'
    } else if n == 9 {
        '9'
    } else if n == 10 {
        'a'
    } else if n == 11 {
        'b'
    } else if n == 12 {
        'c'
    } else if n == 13 {
        'd'
    } else if n == 14 {
        'e'
    } else {
        'f'
    }
}

/// Appends the escape of one character.
fn append_escaped_char(out: &mut String, c: char)
    ensures
        final(out)@ == old(out)@ + escape_char(c),
{
    if c == '"' {
        push_char(out, '\\');
        push_char(out, '"');
    } else if c == '\\' {
        push_char(out, '\\');
        push_char(out, '\\');
    } else if c == '\u{8}' {
        push_char(out, '\\');
        push_char(out, 'b');
    } else if c == '\t' {
        push_char(out, '\\');
        push_char(out, 't');
    } else if c == '\n' {
        push_char(out, '\\');
        push_char(out, 'n');
    } else if c == '\u{c}' {
        push_char(out, '\\');
        push_char(out, 'f');
    } else if c == '\r' {
        push_char(out, '\\');
        push_char(out, 'r');
    } else if (c as u32) < 0x20 {
        push_char(out, '\\');
        push_char(out, 'u');
        push_char(out, '0');
        push_char(out, '0');
        let n = c as u32;
        push_char(out, hex_digit_char((n / 16) as u8));
        push_char(out, hex_digit_char((n % 16) as u8));
    } else {
        push_char(out, c);
    }
    proof {
        assert(final(out)@ =~= old(out)@ + escape_char(c));
    }
}

/// Appends the JSON string for `s`.
fn append_json_string(out: &mut String, s: &str)
    ensures
        final(out)@ == old(out)@ + json_string(s@),
{
    push_char(out, '"');
    proof {
        assert(out@ =~= old(out)@ + seq!['"'] + escape_seq(s@.subrange(0, 0)));
    }
    let n = s.unicode_len();
    let mut i: usize = 0;
    while i < n
        invariant
            n == s@.len(),
            0 <= i <= n,
            out@ == old(out)@ + seq!['"'] + escape_seq(s@.subrange(0, i as int)),
        decreases n - i,
    {
        let c = s.get_char(i);
        append_escaped_char(out, c);
        proof {
            lemma_escape_snoc(s@.subrange(0, i as int), c);
            assert(s@.subrange(0, i as int + 1) =~= s@.subrange(0, i as int).push(c));
            assert(out@ =~= old(out)@ + seq!['"'] + escape_seq(s@.subrange(0, i as int + 1)));
        }
        i += 1;
    }
    push_char(out, '"');
    proof {
        assert(s@.subrange(0, n as int) =~= s@);
        assert(final(out)@ =~= old(out)@ + json_string(s@));
    }
}

/// Appends the JSON array of the strings of `items`.
fn append_string_array(out: &mut String, items: &Vec<String>)
    ensures
        final(out)@ == old(out)@ + json_string_list(items.deep_view()),
{
    push_char(out, '[');
    if items.len() == 0 {
        push_char(out, ']');
        proof {
            assert(final(out)@ =~= old(out)@ + json_string_list(items.deep_view()));
        }
        return;
    }
    append_json_string(out, items[0].as_str());
    proof {
        assert(items.deep_view()[0] == items@[0]@);
        assert(items.deep_view().skip(1) =~= items.deep_view().drop_first());
        assert(out@ + json_list_tail(items.deep_view().skip(1)) =~= old(out)@ + json_string_list(
            items.deep_view(),
        ));
    }
    let mut i: usize = 1;
    while i < items.len()
        invariant
            1 <= i <= items@.len(),
            out@ + json_list_tail(items.deep_view().skip(i as int)) == old(out)@
                + json_string_list(items.deep_view()),
        decreases items@.len() - i,
    {
        push_char(out, ',');
        append_json_string(out, items[i].as_str());
        proof {
            let dv = items.deep_view();
            assert(dv.skip(i as int)[0] == items@[i as int]@);
            assert(dv.skip(i as int).drop_first() =~= dv.skip(i as int + 1));
            assert(out@ + json_list_tail(dv.skip(i as int + 1)) =~= old(out)@ + json_string_list(
                dv,
            ));
        }
        i += 1;
    }
    push_char(out, ']');
    proof {
        assert(items.deep_view().skip(items@.len() as int) =~= Seq::<Seq<char>>::empty());
        assert(final(out)@ =~= old(out)@ + json_string_list(items.deep_view()));
    }
}

/// The markdown texts of a list of content values.
pub open spec fn contents_view(items: Seq<PostContent>) -> Seq<Seq<char>> {
    items.map_values(|c: PostContent| c.markdown@)
}

/// Appends the JSON array of the content objects of `items`.
fn append_content_array(out: &mut String, items: &Vec<PostContent>)
    ensures
        final(out)@ == old(out)@ + json_content_list(contents_view(items@)),
{
    push_char(out, '[');
    if items.len() == 0 {
        push_char(out, ']');
        proof {
            assert(final(out)@ =~= old(out)@ + json_content_list(contents_view(items@)));
        }
        return;
    }
    append_json_content(out, &items[0]);
    proof {
        assert(contents_view(items@)[0] == items@[0].markdown@);
        assert(contents_view(items@).skip(1) =~= contents_view(items@).drop_first());
        assert(out@ + json_content_tail(contents_view(items@).skip(1)) =~= old(out)@
            + json_content_list(contents_view(items@)));
    }
    let mut i: usize = 1;
    while i < items.len()
        invariant
            1 <= i <= items@.len(),
            out@ + json_content_tail(contents_view(items@).skip(i as int)) == old(out)@
                + json_content_list(contents_view(items@)),
        decreases items@.len() - i,
    {
        push_char(out, ',');
        append_json_content(out, &items[i]);
        proof {
            let dv = contents_view(items@);
            assert(dv.skip(i as int)[0] == items@[i as int].markdown@);
            assert(dv.skip(i as int).drop_first() =~= dv.skip(i as int + 1));
            assert(out@ + json_content_tail(dv.skip(i as int + 1)) =~= old(out)@
                + json_content_list(dv));
        }
        i += 1;
    }
    push_char(out, ']');
    proof {
        assert(contents_view(items@).skip(items@.len() as int) =~= Seq::<Seq<char>>::empty());
        assert(final(out)@ =~= old(out)@ + json_content_list(contents_view(items@)));
    }
}

/// Appends the JSON object of one content value.
fn append_json_content(out: &mut String, c: &PostContent)
    ensures
        final(out)@ == old(out)@ + json_content(c.markdown@),
{
    out.append("{\"markdown\":");
    append_json_string(out, c.markdown.as_str());
    push_char(out, '}');
    proof {
        assert(final(out)@ =~= old(out)@ + json_content(c.markdown@));
    }
}

impl Post {
    /// The record as its one line of JSON.
    pub fn to_json(&self) -> (r: String)
        ensures
            r@ == post_json(self@),
    {
        let mut out = String::new();
        out.append("{\"type\":");
        append_string_array(&mut out, &self.post_type);
        out.append(",\"properties\":{\"name\":");
        append_string_array(&mut out, &self.properties.name);
        out.append(",\"mp-slug\":");
        append_string_array(&mut out, &self.properties.slug);
        out.append(",\"content\":");
        append_content_array(&mut out, &self.properties.content);
        out.append(",\"published\":");
        append_string_array(&mut out, &self.properties.published);
        out.append(",\"category\":");
        append_string_array(&mut out, &self.properties.category);
        out.append("}}");
        proof {
            assert(out@ =~= post_json(self@));
        }
        out
    }
}

/// Parses `doc`, finalizes the record, and renders it as its JSON line; the
/// error cases are those of `parse_post`.
pub fn render_post(doc: &str) -> (r: Result<String, PostError>)
    ensures
        r is Ok <==> required_present(doc_model(doc@)),
        r matches Ok(s) ==> s@ == post_json(built_model(doc_model(doc@))),
        r matches Err(e) ==> e@ == missing_name(doc_model(doc@)),
{
    match crate::parser::parse_post(doc) {
        Ok(p) => Ok(p.to_json()),
        Err(e) => Err(e),
    }
}

} // verus!
