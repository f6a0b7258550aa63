//! The record writer: encodes the collected records as a delimited text
//! document — a fixed four-column header and one row per record — and
//! derives the output file name from the handle. The encoding is the
//! usual one for such files: fields are separated by commas, rows end in
//! a line feed, and a field holding a comma, a quote or a line break is
//! quoted, with quotes doubled inside. Writing the finished text to disk
//! is the caller's part.

use vstd::prelude::*;
use vstd::string::StrSliceExecFns;
use vstd::string::StringExecFns;
use crate::records::{VideoRecord, RecordModel};

verus! {

/// The fixed header row.
pub open spec fn spec_header() -> Seq<char> {
    "Video ID,Title,Description,Published At\n"@
}

/// A character that forces quoting: the delimiter, the quote, or a line
/// break.
pub open spec fn is_special(c: char) -> bool {
    c == ',' || c == '"' || c == '\n' || c == '\r'
}

/// Whether a field must be quoted.
pub open spec fn needs_quotes(f: Seq<char>) -> bool {
    exists|i: int| 0 <= i < f.len() && is_special(#[trigger] f[i])
}

/// A character as it stands inside a quoted field: a quote is doubled.
pub open spec fn escaped_char(c: char) -> Seq<char> {
    if c == '"' {
        seq!['"', '"']
    } else {
        seq![c]
    }
}

/// The body of a quoted field.
pub open spec fn escaped(f: Seq<char>) -> Seq<char>
    decreases f.len(),
{
    if f.len() == 0 {
        Seq::empty()
    } else {
        escaped(f.drop_last()) + escaped_char(f.last())
    }
}

/// One encoded cell: quoted with doubled quotes when the field holds a
/// special character, and the field verbatim otherwise.
pub open spec fn encoded_field(f: Seq<char>) -> Seq<char> {
    if needs_quotes(f) {
        seq!['"'] + escaped(f) + seq!['"']
    } else {
        f
    }
}

/// One encoded row: the four cells, comma-separated, newline-terminated.
pub open spec fn encoded_row(r: RecordModel) -> Seq<char> {
    encoded_field(r.video_id) + seq![','] + encoded_field(r.title) + seq![','] + encoded_field(
        r.description,
    ) + seq![','] + encoded_field(r.published_at) + seq!['\n']
}

/// The whole document: the header, then one row per record in order.
pub open spec fn spec_document(rs: Seq<RecordModel>) -> Seq<char>
    decreases rs.len(),
{
    if rs.len() == 0 {
        spec_header()
    } else {
        spec_document(rs.drop_last()) + encoded_row(rs.last())
    }
}

/// Law of the empty listing: the document of no records is exactly the
/// header row and nothing more.
pub proof fn lemma_empty_document_is_header()
    ensures
        spec_document(Seq::<RecordModel>::empty()) == spec_header(),
{
}

/// Law of verbatim cells: a field holding no delimiter, quote or line
/// break stands in its cell unchanged.
pub proof fn lemma_plain_field_verbatim(f: Seq<char>)
    requires
        !needs_quotes(f),
    ensures
        encoded_field(f) == f,
{
}

/// Appends the characters of a string.
fn push_chars(out: &mut Vec<char>, s: &str)
    ensures
        final(out)@ == old(out)@ + s@,
{
    let n = s.unicode_len();
    let mut i: usize = 0;
    while i < n
        invariant
            i <= n,
            n == s@.len(),
            out@ == old(out)@ + s@.take(i as int),
        decreases n - i,
    {
        let c = s.get_char(i);
        out.push(c);
        i += 1;
        proof {
            assert(out@ =~= old(out)@ + s@.take(i as int));
        }
    }
    proof {
        assert(s@.take(n as int) =~= s@);
    }
}

/// Whether the field must be quoted.
fn field_needs_quotes(s: &str) -> (b: bool)
    ensures
        b == needs_quotes(s@),
{
    let n = s.unicode_len();
    let mut i: usize = 0;
    while i < n
        invariant
            i <= n,
            n == s@.len(),
            forall|j: int| 0 <= j < i as int ==> !is_special(#[trigger] s@[j]),
        decreases n - i,
    {
        let c = s.get_char(i);
        if c == ',' || c == '"' || c == '\n' || c == '\r' {
            proof {
                assert(is_special(s@[i as int]));
            }
            return true;
        }
        i += 1;
    }
    false
}

/// Appends one encoded cell.
fn push_field(out: &mut Vec<char>, f: &str)
    ensures
        final(out)@ == old(out)@ + encoded_field(f@),
{
    if !field_needs_quotes(f) {
        push_chars(out, f);
    } else {
        out.push('"');
        let n = f.unicode_len();
        let mut i: usize = 0;
        while i < n
            invariant
                i <= n,
                n == f@.len(),
                out@ == old(out)@ + seq!['"'] + escaped(f@.take(i as int)),
            decreases n - i,
        {
            let c = f.get_char(i);
            out.push(c);
            if c == '"' {
                out.push('"');
            }
            i += 1;
            proof {
                assert(f@.take(i as int).drop_last() =~= f@.take(i as int - 1));
                assert(f@.take(i as int).last() == f@[i as int - 1]);
                assert(escaped(f@.take(i as int)) == escaped(f@.take(i as int - 1))
                    + escaped_char(f@[i as int - 1]));
                assert(out@ =~= old(out)@ + seq!['"'] + escaped(f@.take(i as int)));
            }
        }
        out.push('"');
        proof {
            assert(f@.take(n as int) =~= f@);
            assert(out@ =~= old(out)@ + encoded_field(f@));
        }
    }
}

/// Appends one encoded row.
fn push_row(out: &mut Vec<char>, r: &VideoRecord)
    ensures
        final(out)@ == old(out)@ + encoded_row(r@),
{
    push_field(out, self_str(&r.video_id));
    out.push(',');
    push_field(out, self_str(&r.title));
    out.push(',');
    push_field(out, self_str(&r.description));
    out.push(',');
    push_field(out, self_str(&r.published_at));
    out.push('\n');
    proof {
        assert(out@ =~= old(out)@ + encoded_row(r@));
    }
}

/// A string as a slice of itself.
fn self_str(s: &String) -> (r: &str)
    ensures
        r@ == s@,
{
    s.as_str()
}

/// Renders the document for the collected records: the header, then one
/// row per record in arrival order.
pub fn render_document(records: &Vec<VideoRecord>) -> (out: Vec<char>)
    ensures
        out@ == spec_document(records.deep_view()),
{
    let mut out: Vec<char> = Vec::new();
    push_chars(&mut out, "Video ID,Title,Description,Published At\n");
    let n = records.len();
    let mut i: usize = 0;
    while i < n
        invariant
            i <= n,
            n == records@.len(),
            out@ == spec_document(records.deep_view().take(i as int)),
        decreases n - i,
    {
        push_row(&mut out, &records[i]);
        i += 1;
        proof {
            let models = records.deep_view();
            assert(models.take(i as int).drop_last() =~= models.take(i as int - 1));
            assert(models.take(i as int).last() == models[i as int - 1]);
            assert(out@ =~= spec_document(models.take(i as int)));
        }
    }
    proof {
        assert(records.deep_view().take(n as int) =~= records.deep_view());
    }
    out
}

/// Relies on `String: FromIterator<&char>`: collecting characters yields
/// the string of exactly those characters.
#[verifier::external_body]
fn chars_to_string(v: &Vec<char>) -> (r: String)
    ensures
        r@ == v@,
{
    v.iter().collect()
}

/// The document as a string, for the caller to write out.
pub fn document_string(records: &Vec<VideoRecord>) -> (r: String)
    ensures
        r@ == spec_document(records.deep_view()),
{
    let chars = render_document(records);
    chars_to_string(&chars)
}

/// The output file name for a handle: the handle with one leading `@`
/// removed — a handle without one is used unchanged — and the fixed
/// extension appended.
pub open spec fn spec_file_name(handle: Seq<char>) -> Seq<char> {
    if handle.len() > 0 && handle[0] == '@' {
        handle.drop_first() + ".csv"@
    } else {
        handle + ".csv"@
    }
}

/// Derives the output file name from the handle.
pub fn output_file_name(handle: &str) -> (r: String)
    ensures
        r@ == spec_file_name(handle@),
{
    let n = handle.unicode_len();
    if n > 0 && handle.get_char(0) == '@' {
        let rest = handle.substring_char(1, n);
        let mut name = rest.to_owned();
        name.append(".csv");
        proof {
            assert(name@ =~= spec_file_name(handle@));
        }
        name
    } else {
        let mut name = handle.to_owned();
        name.append(".csv");
        name
    }
}

} // verus!
