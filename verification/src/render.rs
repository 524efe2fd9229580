//! The renderer: formats a display entity as plain text or as a JSON
//! document. Both branches are complete; the JSON string escaping is written
//! and verified here, character by character.

use vstd::prelude::*;
use vstd::string::{StrSliceExecFns, StringExecFns};
use crate::model::{Comic, ComicView, OutFormat};
use crate::text::{spec_digits, u64_to_string};

verus! {

/// The lower-case hexadecimal digit character for a value below sixteen.
pub open spec fn spec_hex_digit(d: int) -> char
    recommends
        0 <= d < 16,
{
    if d == 0 {
        '0'
    } else if d == 1 {
        '1'
    } else if d == 2 {
        '2'
    } else if d == 3 {
        '3'
    } else if d == 4 {
        '4'
    } else if d == 5 {
        '5'
    } else if d == 6 {
        '6'
    } else if d == 7 {
        '7'
    } else if d == 8 {
        '8'
    } else if d == 9 {
        '9'
    } else if d == 10 {
        'a'
    } else if d == 11 {
        'b'
    } else if d == 12 {
        'c'
    } else if d == 13 {
        'd'
    } else if d == 14 {
        'e'
    } else {
        'f'
    }
}

/// How one character appears inside a JSON string literal: quote, backslash
/// and the named control characters get a two-character escape, any other
/// control character a `\u00..` escape, and every other character stands as
/// itself.
pub open spec fn spec_escape_char(c: char) -> Seq<char> {
    if c == '"' {
        seq!['\\', '"']
    } else if c == '\\' {
        seq!['\\', '\\']
    } else if c == '\n' {
        seq!['\\', 'n']
    } else if c == '\r' {
        seq!['\\', 'r']
    } else if c == '\t' {
        seq!['\\', 't']
    } else if (c as int) < 32 {
        seq!['\\', 'u', '0', '0', spec_hex_digit(c as int / 16), spec_hex_digit(c as int % 16)]
    } else {
        seq![c]
    }
}

/// The body of a JSON string literal for the text `s`: each character
/// replaced by its escape.
pub open spec fn spec_escape(s: Seq<char>) -> Seq<char>
    decreases s.len(),
{
    if s.len() == 0 {
        Seq::empty()
    } else {
        spec_escape(s.drop_last()) + spec_escape_char(s.last())
    }
}

fn hex_digit(d: u32) -> (c: char)
    requires
        d < 16,
    ensures
        c == spec_hex_digit(d as int),
{
    if d == 0 {
        '0'
    } else if d == 1 {
        '1'
    } else if d == 2 {
        '2'
    } else if d == 3 {
        '3'
    } else if d == 4 {
        '4'
    } else if d == 5 {
        '5'
    } else if d == 6 {
        '6'
    } else if d == 7 {
        '7'
    } else if d == 8 {
        '8'
    } else if d == 9 {
        '9'
    } else if d == 10 {
        'a'
    } else if d == 11 {
        'b'
    } else if d == 12 {
        'c'
    } else if d == 13 {
        'd'
    } else if d == 14 {
        'e'
    } else {
        'f'
    }
}

fn push_escaped_char(out: &mut String, c: char)
    ensures
        final (out)@ == old(out)@ + spec_escape_char(c),
{
    if c == '"' {
        out.push('\\');
        out.push('"');
    } else if c == '\\' {
        out.push('\\');
        out.push('\\');
    } else if c == '\n' {
        out.push('\\');
        out.push('n');
    } else if c == '\r' {
        out.push('\\');
        out.push('r');
    } else if c == '\t' {
        out.push('\\');
        out.push('t');
    } else {
        let code = c as u32;
        if code < 32 {
            out.push('\\');
            out.push('u');
            out.push('0');
            out.push('0');
            out.push(hex_digit(code / 16));
            out.push(hex_digit(code % 16));
        } else {
            out.push(c);
        }
    }
    proof {
        assert(out@ =~= old(out)@ + spec_escape_char(c));
    }
}

/// Escapes a text for use as the body of a JSON string literal.
pub fn escape_json(s: &str) -> (r: String)
    ensures
        r@ == spec_escape(s@),
{
    let len = s.unicode_len();
    let mut r = String::new();
    proof {
        assert(s@.subrange(0, 0) =~= Seq::<char>::empty());
    }
    let mut i: usize = 0;
    while i < len
        invariant
            len == s@.len(),
            i <= len,
            r@ == spec_escape(s@.subrange(0, i as int)),
        decreases len - i,
    {
        let c = s.get_char(i);
        push_escaped_char(&mut r, c);
        proof {
            assert(s@.subrange(0, i + 1).drop_last() =~= s@.subrange(0, i as int));
            assert(s@.subrange(0, i + 1).last() == c);
        }
        i = i + 1;
    }
    proof {
        assert(s@.subrange(0, len as int) =~= s@);
    }
    r
}

/// The human-readable rendering: one labelled line for each of the entity's
/// fields, in a fixed order.
pub open spec fn spec_render_text(c: ComicView) -> Seq<char> {
    "Title: "@ + c.title + "\nNumber: "@ + spec_digits(c.num) + "\nDate: "@ + c.date
        + "\nDescription: "@ + c.desc + "\nImage: "@ + c.img_url
}

/// The machine-readable rendering: one JSON object carrying the same fields
/// under the entity's field names, a compatibility surface kept stable.
pub open spec fn spec_render_json(c: ComicView) -> Seq<char> {
    "{\"title\":\""@ + spec_escape(c.title) + "\",\"num\":"@ + spec_digits(c.num)
        + ",\"date\":\""@ + spec_escape(c.date) + "\",\"desc\":\""@ + spec_escape(c.desc)
        + "\",\"img_url\":\""@ + spec_escape(c.img_url) + "\"}"@
}

/// The rendering selected by the output format.
pub open spec fn spec_render(c: ComicView, of: OutFormat) -> Seq<char> {
    match of {
        OutFormat::Text => spec_render_text(c),
        OutFormat::JSON => spec_render_json(c),
    }
}

impl Comic {
    /// The plain-text rendering of this entity.
    pub fn render_text(&self) -> (r: String)
        ensures
            r@ == spec_render_text(self@),
    {
        let mut r = String::from_str("Title: ");
        r.append(self.title.as_str());
        r.append("\nNumber: ");
        let digits = u64_to_string(self.num as u64);
        r.append(digits.as_str());
        r.append("\nDate: ");
        r.append(self.date.as_str());
        r.append("\nDescription: ");
        r.append(self.desc.as_str());
        r.append("\nImage: ");
        r.append(self.img_url.as_str());
        r
    }

    /// The JSON rendering of this entity.
    pub fn render_json(&self) -> (r: String)
        ensures
            r@ == spec_render_json(self@),
    {
        let mut r = String::from_str("{\"title\":\"");
        let title = escape_json(self.title.as_str());
        r.append(title.as_str());
        r.append("\",\"num\":");
        let digits = u64_to_string(self.num as u64);
        r.append(digits.as_str());
        r.append(",\"date\":\"");
        let date = escape_json(self.date.as_str());
        r.append(date.as_str());
        r.append("\",\"desc\":\"");
        let desc = escape_json(self.desc.as_str());
        r.append(desc.as_str());
        r.append("\",\"img_url\":\"");
        let img_url = escape_json(self.img_url.as_str());
        r.append(img_url.as_str());
        r.append("\"}");
        r
    }

    /// The rendering of this entity in the requested output format: an
    /// exhaustive case analysis over the format selector, both branches
    /// complete.
    pub fn render(&self, of: OutFormat) -> (r: String)
        ensures
            r@ == spec_render(self@, of),
    {
        match of {
            OutFormat::Text => self.render_text(),
            OutFormat::JSON => self.render_json(),
        }
    }
}

/// Whether `needle` occurs contiguously inside `hay`.
pub open spec fn contains_slice(hay: Seq<char>, needle: Seq<char>) -> bool {
    exists|i: int|
        0 <= i && i + needle.len() <= hay.len() && #[trigger] hay.subrange(i, i + needle.len())
            == needle
}

proof fn lemma_mid_contained(a: Seq<char>, x: Seq<char>, b: Seq<char>, hay: Seq<char>)
    requires
        hay == a + x + b,
    ensures
        contains_slice(hay, x),
{
    let i = a.len() as int;
    assert(hay.subrange(i, i + x.len() as int) =~= x);
}

/// Law: output-format selection drops no field. For every entity view, the
/// text rendering contains the title, the decimal number, the date, the
/// description and the image URL, and the JSON rendering contains the same
/// number and the same string values in their escaped form: the two formats
/// carry the same underlying values and differ only in formatting.
pub proof fn lemma_renders_carry_all_fields(c: ComicView)
    ensures
        contains_slice(spec_render_text(c), c.title),
        contains_slice(spec_render_text(c), spec_digits(c.num)),
        contains_slice(spec_render_text(c), c.date),
        contains_slice(spec_render_text(c), c.desc),
        contains_slice(spec_render_text(c), c.img_url),
        contains_slice(spec_render_json(c), spec_escape(c.title)),
        contains_slice(spec_render_json(c), spec_digits(c.num)),
        contains_slice(spec_render_json(c), spec_escape(c.date)),
        contains_slice(spec_render_json(c), spec_escape(c.desc)),
        contains_slice(spec_render_json(c), spec_escape(c.img_url)),
{
    lemma_text_carries_fields(c);
    lemma_json_carries_fields(c);
}

#[verifier::rlimit(60)]
proof fn lemma_text_carries_fields(c: ComicView)
    ensures
        contains_slice(spec_render_text(c), c.title),
        contains_slice(spec_render_text(c), spec_digits(c.num)),
        contains_slice(spec_render_text(c), c.date),
        contains_slice(spec_render_text(c), c.desc),
        contains_slice(spec_render_text(c), c.img_url),
{
    let t = spec_render_text(c);
    assert(t =~= "Title: "@ + c.title + ("\nNumber: "@ + spec_digits(c.num) + "\nDate: "@
        + c.date + "\nDescription: "@ + c.desc + "\nImage: "@ + c.img_url));
    lemma_mid_contained(
        "Title: "@,
        c.title,
        "\nNumber: "@ + spec_digits(c.num) + "\nDate: "@ + c.date + "\nDescription: "@ + c.desc
            + "\nImage: "@ + c.img_url,
        t,
    );
    assert(t =~= ("Title: "@ + c.title + "\nNumber: "@) + spec_digits(c.num) + ("\nDate: "@
        + c.date + "\nDescription: "@ + c.desc + "\nImage: "@ + c.img_url));
    lemma_mid_contained(
        "Title: "@ + c.title + "\nNumber: "@,
        spec_digits(c.num),
        "\nDate: "@ + c.date + "\nDescription: "@ + c.desc + "\nImage: "@ + c.img_url,
        t,
    );
    assert(t =~= ("Title: "@ + c.title + "\nNumber: "@ + spec_digits(c.num) + "\nDate: "@)
        + c.date + ("\nDescription: "@ + c.desc + "\nImage: "@ + c.img_url));
    lemma_mid_contained(
        "Title: "@ + c.title + "\nNumber: "@ + spec_digits(c.num) + "\nDate: "@,
        c.date,
        "\nDescription: "@ + c.desc + "\nImage: "@ + c.img_url,
        t,
    );
    assert(t =~= ("Title: "@ + c.title + "\nNumber: "@ + spec_digits(c.num) + "\nDate: "@
        + c.date + "\nDescription: "@) + c.desc + ("\nImage: "@ + c.img_url));
    lemma_mid_contained(
        "Title: "@ + c.title + "\nNumber: "@ + spec_digits(c.num) + "\nDate: "@ + c.date
            + "\nDescription: "@,
        c.desc,
        "\nImage: "@ + c.img_url,
        t,
    );
    assert(t =~= ("Title: "@ + c.title + "\nNumber: "@ + spec_digits(c.num) + "\nDate: "@
        + c.date + "\nDescription: "@ + c.desc + "\nImage: "@) + c.img_url + Seq::<
        char,
    >::empty());
    lemma_mid_contained(
        "Title: "@ + c.title + "\nNumber: "@ + spec_digits(c.num) + "\nDate: "@ + c.date
            + "\nDescription: "@ + c.desc + "\nImage: "@,
        c.img_url,
        Seq::<char>::empty(),
        t,
    );
}

/// Law: escaping changes no ordinary text. On a value without a quote, a
/// backslash or a control character, the escape is the identity, so the text
/// and JSON renderings of an entity made of such values carry each field
/// verbatim and differ only in the surrounding formatting.
pub proof fn lemma_escape_plain_identity(s: Seq<char>)
    requires
        forall|i: int| 0 <= i < s.len() ==> spec_escape_char(s[i]) == seq![s[i]],
    ensures
        spec_escape(s) == s,
    decreases s.len(),
{
    if s.len() == 0 {
        assert(spec_escape(s) =~= s);
    } else {
        assert forall|i: int| 0 <= i < s.drop_last().len() implies spec_escape_char(
            s.drop_last()[i],
        ) == seq![s.drop_last()[i]] by {
            assert(s.drop_last()[i] == s[i]);
        }
        lemma_escape_plain_identity(s.drop_last());
        assert(spec_escape_char(s.last()) == seq![s.last()]);
        assert(spec_escape(s) =~= s);
    }
}

#[verifier::rlimit(60)]
proof fn lemma_json_carries_fields(c: ComicView)
    ensures
        contains_slice(spec_render_json(c), spec_escape(c.title)),
        contains_slice(spec_render_json(c), spec_digits(c.num)),
        contains_slice(spec_render_json(c), spec_escape(c.date)),
        contains_slice(spec_render_json(c), spec_escape(c.desc)),
        contains_slice(spec_render_json(c), spec_escape(c.img_url)),
{
    let j = spec_render_json(c);
    assert(j =~= "{\"title\":\""@ + spec_escape(c.title) + ("\",\"num\":"@ + spec_digits(c.num)
        + ",\"date\":\""@ + spec_escape(c.date) + "\",\"desc\":\""@ + spec_escape(c.desc)
        + "\",\"img_url\":\""@ + spec_escape(c.img_url) + "\"}"@));
    lemma_mid_contained(
        "{\"title\":\""@,
        spec_escape(c.title),
        "\",\"num\":"@ + spec_digits(c.num) + ",\"date\":\""@ + spec_escape(c.date)
            + "\",\"desc\":\""@ + spec_escape(c.desc) + "\",\"img_url\":\""@ + spec_escape(
            c.img_url,
        ) + "\"}"@,
        j,
    );
    assert(j =~= ("{\"title\":\""@ + spec_escape(c.title) + "\",\"num\":"@) + spec_digits(c.num)
        + (",\"date\":\""@ + spec_escape(c.date) + "\",\"desc\":\""@ + spec_escape(c.desc)
        + "\",\"img_url\":\""@ + spec_escape(c.img_url) + "\"}"@));
    lemma_mid_contained(
        "{\"title\":\""@ + spec_escape(c.title) + "\",\"num\":"@,
        spec_digits(c.num),
        ",\"date\":\""@ + spec_escape(c.date) + "\",\"desc\":\""@ + spec_escape(c.desc)
            + "\",\"img_url\":\""@ + spec_escape(c.img_url) + "\"}"@,
        j,
    );
    assert(j =~= ("{\"title\":\""@ + spec_escape(c.title) + "\",\"num\":"@ + spec_digits(c.num)
        + ",\"date\":\""@) + spec_escape(c.date) + ("\",\"desc\":\""@ + spec_escape(c.desc)
        + "\",\"img_url\":\""@ + spec_escape(c.img_url) + "\"}"@));
    lemma_mid_contained(
        "{\"title\":\""@ + spec_escape(c.title) + "\",\"num\":"@ + spec_digits(c.num)
            + ",\"date\":\""@,
        spec_escape(c.date),
        "\",\"desc\":\""@ + spec_escape(c.desc) + "\",\"img_url\":\""@ + spec_escape(c.img_url)
            + "\"}"@,
        j,
    );
    assert(j =~= ("{\"title\":\""@ + spec_escape(c.title) + "\",\"num\":"@ + spec_digits(c.num)
        + ",\"date\":\""@ + spec_escape(c.date) + "\",\"desc\":\""@) + spec_escape(c.desc) + (
    "\",\"img_url\":\""@ + spec_escape(c.img_url) + "\"}"@));
    lemma_mid_contained(
        "{\"title\":\""@ + spec_escape(c.title) + "\",\"num\":"@ + spec_digits(c.num)
            + ",\"date\":\""@ + spec_escape(c.date) + "\",\"desc\":\""@,
        spec_escape(c.desc),
        "\",\"img_url\":\""@ + spec_escape(c.img_url) + "\"}"@,
        j,
    );
    assert(j =~= ("{\"title\":\""@ + spec_escape(c.title) + "\",\"num\":"@ + spec_digits(c.num)
        + ",\"date\":\""@ + spec_escape(c.date) + "\",\"desc\":\""@ + spec_escape(c.desc)
        + "\",\"img_url\":\""@) + spec_escape(c.img_url) + "\"}"@);
    lemma_mid_contained(
        "{\"title\":\""@ + spec_escape(c.title) + "\",\"num\":"@ + spec_digits(c.num)
            + ",\"date\":\""@ + spec_escape(c.date) + "\",\"desc\":\""@ + spec_escape(c.desc)
            + "\",\"img_url\":\""@,
        spec_escape(c.img_url),
        "\"}"@,
        j,
    );
}

} // verus!
