//! Properties of header parsing and finalization that relate several
//! functions, stated and proved over the same models that the functions'
//! contracts use.

use vstd::prelude::*;
use crate::post::{BuilderModel, built_model, cats_of, empty_model, required_present};
use crate::parser::{header_step, header_model, first_line, rest_lines, doc_model, body_model};
use crate::text::{has_colon, key_of, lemma_char_pos};

verus! {

/// For a document whose header sets every required field, the finished
/// record carries the document: the name, slug and published lists hold
/// exactly the header's trimmed values, and the content holds exactly the
/// body text after the first blank line, verbatim.
pub proof fn lemma_record_carries_document(doc: Seq<char>)
    requires
        required_present(doc_model(doc)),
    ensures
        built_model(doc_model(doc)).name == seq![header_model(empty_model(), doc).name->0],
        built_model(doc_model(doc)).slug == seq![header_model(empty_model(), doc).slug->0],
        built_model(doc_model(doc)).published == seq![
            header_model(empty_model(), doc).published->0,
        ],
        built_model(doc_model(doc)).content == seq![body_model(doc)],
{
}

/// Whether a header line carries the `Tags` key.
pub open spec fn is_tags_line(l: Seq<char>) -> bool {
    has_colon(l) && key_of(l) == "Tags"@
}

/// A second `Tags` line overwrites — it does not extend — the categories of
/// an earlier one: applying two `Tags` lines in turn leaves exactly the
/// state that the second alone leaves.
pub proof fn lemma_tags_overwrite(m: BuilderModel, l1: Seq<char>, l2: Seq<char>)
    requires
        is_tags_line(l1),
        is_tags_line(l2),
    ensures
        header_step(header_step(m, l1), l2) == header_step(m, l2),
{
}

/// A header line with an unrecognized key — a colon is present, but the part
/// before it is none of `Title`, `Slug`, `Date` and `Tags` — has no effect
/// on the builder state.
pub proof fn lemma_unknown_key_ignored(m: BuilderModel, l: Seq<char>)
    requires
        has_colon(l),
        key_of(l) != "Title"@,
        key_of(l) != "Slug"@,
        key_of(l) != "Date"@,
        key_of(l) != "Tags"@,
    ensures
        header_step(m, l) == m,
{
}

/// A header line without a colon is ignored: it leaves the builder state
/// unchanged and raises no error.
pub proof fn lemma_no_colon_ignored(m: BuilderModel, l: Seq<char>)
    requires
        !has_colon(l),
    ensures
        header_step(m, l) == m,
{
}

/// Whether any header line of `s` — before its first blank line — carries
/// the `Tags` key.
pub open spec fn header_has_tags(s: Seq<char>) -> bool
    decreases s.len(),
    via header_has_tags_decreases
{
    if s.len() == 0 {
        false
    } else if first_line(s) == seq!['\n'] {
        false
    } else {
        is_tags_line(first_line(s)) || header_has_tags(rest_lines(s))
    }
}

#[via_fn]
proof fn header_has_tags_decreases(s: Seq<char>) {
    lemma_char_pos(s, '\n');
}

/// Parsing a header without a `Tags` line never sets the categories.
proof fn lemma_no_tags_keeps_none(m: BuilderModel, s: Seq<char>)
    requires
        m.categories is None,
        !header_has_tags(s),
    ensures
        header_model(m, s).categories is None,
    decreases s.len(),
{
    if s.len() == 0 || first_line(s) == seq!['\n'] {
    } else {
        lemma_char_pos(s, '\n');
        assert(header_step(m, first_line(s)).categories is None);
        lemma_no_tags_keeps_none(header_step(m, first_line(s)), rest_lines(s));
    }
}

/// A document whose header holds no `Tags` line yields a record with an
/// empty `category` list — not an error.
pub proof fn lemma_no_tags_empty_categories(doc: Seq<char>)
    requires
        !header_has_tags(doc),
    ensures
        doc_model(doc).categories is None,
        built_model(doc_model(doc)).category == Seq::<Seq<char>>::empty(),
{
    lemma_no_tags_keeps_none(empty_model(), doc);
    assert(cats_of(doc_model(doc)) =~= Seq::<Seq<char>>::empty());
    assert(built_model(doc_model(doc)).category =~= Seq::<Seq<char>>::empty());
}

} // verus!
