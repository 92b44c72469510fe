//! Header parsing: classifying `Key: value` lines, routing values into the
//! builder, and splitting a whole document at its first blank line into
//! header and body.

use vstd::prelude::*;
use crate::post::{PostBuilder, BuilderModel, Post, PostError, empty_model, required_present,
    missing_name, built_model};
use crate::text::{char_pos, has_colon, key_of, val_of, trim_spec, split_commas_spec,
    lemma_char_pos, split_colon, split_commas, trim, str_eq, find_char};

verus! {

/// The categories named on a `Tags` header line with raw value `v`: the
/// trimmed value split on commas, each piece trimmed in turn.
pub open spec fn tags_of(v: Seq<char>) -> Seq<Seq<char>> {
    split_commas_spec(trim_spec(v)).map_values(|t: Seq<char>| trim_spec(t))
}

/// What one non-blank header line does to the builder state. A line without
/// a colon is ignored. Otherwise the part before the first colon is the key
/// and the trimmed part after it the value; the keys `Title`, `Slug`, `Date`
/// and `Tags` — matched exactly, case sensitively — set their field,
/// replacing any earlier value, and every other key is ignored.
pub open spec fn header_step(m: BuilderModel, line: Seq<char>) -> BuilderModel {
    if !has_colon(line) {
        m
    } else {
        let k = key_of(line);
        let v = trim_spec(val_of(line));
        if k == "Title"@ {
            BuilderModel { name: Some(v), ..m }
        } else if k == "Slug"@ {
            BuilderModel { slug: Some(v), ..m }
        } else if k == "Date"@ {
            BuilderModel { published: Some(v), ..m }
        } else if k == "Tags"@ {
            BuilderModel { categories: Some(tags_of(val_of(line))), ..m }
        } else {
            m
        }
    }
}

/// Applies one non-blank header line to the builder.
pub fn handle_header_line(b: &mut PostBuilder, line: &str)
    ensures
        final(b)@ == header_step(old(b)@, line@),
{
    let kv = split_colon(line);
    match kv {
        None => {},
        Some((key, val)) => {
            if str_eq(key.as_str(), "Title") {
                b.set_name(trim(val.as_str()));
            } else if str_eq(key.as_str(), "Slug") {
                b.set_slug(trim(val.as_str()));
            } else if str_eq(key.as_str(), "Date") {
                b.set_published(trim(val.as_str()));
            } else if str_eq(key.as_str(), "Tags") {
                let trimmed = trim(val.as_str());
                let pieces = split_commas(trimmed.as_str());
                let mut tags: Vec<String> = Vec::new();
                let mut i: usize = 0;
                while i < pieces.len()
                    invariant
                        0 <= i <= pieces@.len(),
                        tags@.len() == i,
                        pieces@.len() == split_commas_spec(trim_spec(val_of(line@))).len(),
                        forall|k: int| 0 <= k < pieces@.len() ==> pieces@[k]@
                            == split_commas_spec(trim_spec(val_of(line@)))[k],
                        forall|k: int| 0 <= k < i ==> tags@[k]@ == trim_spec(pieces@[k]@),
                    decreases pieces@.len() - i,
                {
                    let piece_trimmed = trim(pieces[i].as_str());
                    tags.push(piece_trimmed);
                    i += 1;
                }
                proof {
                    assert(tags.deep_view() =~= tags_of(val_of(line@)));
                }
                b.set_categories(tags);
            }
        },
    }
}

/// The first line of `s`: everything up to and including the first newline,
/// or all of `s` when it has none.
pub open spec fn first_line(s: Seq<char>) -> Seq<char> {
    if char_pos(s, '\n') == s.len() {
        s
    } else {
        s.subrange(0, char_pos(s, '\n') + 1)
    }
}

/// What follows the first line of `s`.
pub open spec fn rest_lines(s: Seq<char>) -> Seq<char> {
    if char_pos(s, '\n') == s.len() {
        Seq::empty()
    } else {
        s.subrange(char_pos(s, '\n') + 1, s.len() as int)
    }
}

/// The builder state after consuming the header of `s`: every line before
/// the first blank line — or every line of `s` when there is none — applied
/// in order.
pub open spec fn header_model(m: BuilderModel, s: Seq<char>) -> BuilderModel
    decreases s.len(),
    via header_model_decreases
{
    if s.len() == 0 {
        m
    } else if first_line(s) == seq!['\n'] {
        m
    } else {
        header_model(header_step(m, first_line(s)), rest_lines(s))
    }
}

#[via_fn]
proof fn header_model_decreases(m: BuilderModel, s: Seq<char>) {
    lemma_char_pos(s, '\n');
}

/// The body of `s`: everything after the first blank line, verbatim; empty
/// when no blank line occurs.
pub open spec fn body_model(s: Seq<char>) -> Seq<char>
    decreases s.len(),
    via body_model_decreases
{
    if s.len() == 0 {
        Seq::empty()
    } else if first_line(s) == seq!['\n'] {
        rest_lines(s)
    } else {
        body_model(rest_lines(s))
    }
}

#[via_fn]
proof fn body_model_decreases(s: Seq<char>) {
    lemma_char_pos(s, '\n');
}

/// The builder state that the whole of `doc` yields: the header fields, and
/// the body — possibly empty — as the content.
pub open spec fn doc_model(doc: Seq<char>) -> BuilderModel {
    BuilderModel { content: Some(body_model(doc)), ..header_model(empty_model(), doc) }
}

/// Consumes the header lines of `s`, stopping at the first blank line, and
/// returns the body that follows.
fn parse_header(b: &mut PostBuilder, s: &str) -> (body: String)
    ensures
        final(b)@ == header_model(old(b)@, s@),
        body@ == body_model(s@),
    decreases s@.len(),
{
    let n = s.unicode_len();
    if n == 0 {
        return String::new();
    }
    let p = find_char(s, '\n');
    proof {
        lemma_char_pos(s@, '\n');
    }
    let (line, rest) = if p == n {
        proof {
            assert(s@.subrange(0, n as int) =~= s@);
        }
        (s.substring_char(0, n), s.substring_char(n, n))
    } else {
        (s.substring_char(0, p + 1), s.substring_char(p + 1, n))
    };
    proof {
        assert(rest@ =~= rest_lines(s@));
        assert(line@ == first_line(s@));
        assert(seq!['\n'].len() == 1);
        assert(seq!['\n'][0] == '\n');
    }
    let blank = line.unicode_len() == 1 && line.get_char(0) == '\n';
    if blank {
        proof {
            assert(line@ =~= seq!['\n']);
        }
        rest.to_owned()
    } else {
        handle_header_line(b, line);
        parse_header(b, rest)
    }
}

/// Parses a whole document: the header lines up to the first blank line fill
/// the builder, and everything after that line — or the empty text when no
/// blank line occurs — becomes the content.
pub fn parse_document(doc: &str) -> (b: PostBuilder)
    ensures
        b@ == doc_model(doc@),
{
    let mut b = PostBuilder::new();
    let body = parse_header(&mut b, doc);
    b.set_content(body);
    b
}

/// Parses `doc` and finalizes the record. This succeeds exactly when the
/// header holds `Title`, `Slug` and `Date` lines — the content, possibly
/// empty, is always set — and otherwise reports the first missing field.
pub fn parse_post(doc: &str) -> (r: Result<Post, PostError>)
    ensures
        r is Ok <==> required_present(doc_model(doc@)),
        r matches Ok(p) ==> p@ == built_model(doc_model(doc@)),
        r matches Err(e) ==> e@ == missing_name(doc_model(doc@)),
{
    let b = parse_document(doc);
    b.build()
}

} // verus!
