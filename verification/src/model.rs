//! The data model: the caller's arguments, the decoded record of the
//! service's response, the display entity, and the pure mapping between the
//! two value types.

use vstd::prelude::*;
use vstd::string::StringExecFns;

verus! {

/// The output format selector, fixed at invocation start.
#[derive(Clone, Copy, Debug, PartialEq, Eq, Structural)]
pub enum OutFormat {
    JSON,
    Text,
}

/// The caller-supplied options of one invocation. `num` is the requested
/// entry identifier; zero conventionally asks for the latest entry.
#[derive(Clone, Copy, Debug, PartialEq, Eq, Structural)]
pub struct Args {
    pub save: bool,
    pub timeout: u64,
    pub num: usize,
    pub output: OutFormat,
}

impl Default for Args {
    /// The documented defaults: no saving, a thirty-second timeout, the
    /// latest entry, text output.
    fn default() -> (a: Args)
        ensures
            a == (Args { save: false, timeout: 30, num: 0, output: OutFormat::Text }),
    {
        Args { save: false, timeout: 30, num: 0, output: OutFormat::Text }
    }
}

/// The mathematical view of a decoded record: each text field as a sequence
/// of characters, the identifier as an unbounded integer.
pub struct ComicResponseView {
    pub month: Seq<char>,
    pub num: int,
    pub link: Seq<char>,
    pub year: Seq<char>,
    pub news: Seq<char>,
    pub safe_title: Seq<char>,
    pub transcript: Seq<char>,
    pub alt: Seq<char>,
    pub img: Seq<char>,
    pub title: Seq<char>,
    pub day: Seq<char>,
}

/// The decoded structured representation of the service's response.
/// Immutable once constructed; consumed by the mapper.
pub struct ComicResponse {
    pub month: String,
    pub num: usize,
    pub link: String,
    pub year: String,
    pub news: String,
    pub safe_title: String,
    pub transcript: String,
    pub alt: String,
    pub img: String,
    pub title: String,
    pub day: String,
}

impl View for ComicResponse {
    type V = ComicResponseView;

    open spec fn view(&self) -> ComicResponseView {
        ComicResponseView {
            month: self.month@,
            num: self.num as int,
            link: self.link@,
            year: self.year@,
            news: self.news@,
            safe_title: self.safe_title@,
            transcript: self.transcript@,
            alt: self.alt@,
            img: self.img@,
            title: self.title@,
            day: self.day@,
        }
    }
}

impl ComicResponse {
    /// A record is well formed when its identifier is positive.
    pub open spec fn wf(&self) -> bool {
        self.num > 0
    }
}

/// The mathematical view of a display entity.
pub struct ComicView {
    pub title: Seq<char>,
    pub num: int,
    pub date: Seq<char>,
    pub desc: Seq<char>,
    pub img_url: Seq<char>,
}

/// The presentation-ready entity consumed by rendering and persistence.
/// Immutable once constructed.
pub struct Comic {
    pub title: String,
    pub num: usize,
    pub date: String,
    pub desc: String,
    pub img_url: String,
}

impl View for Comic {
    type V = ComicView;

    open spec fn view(&self) -> ComicView {
        ComicView {
            title: self.title@,
            num: self.num as int,
            date: self.date@,
            desc: self.desc@,
            img_url: self.img_url@,
        }
    }
}

/// The composite date string: the record's literal `day`, `month` and `year`
/// values joined by dashes, in that order, with no reformatting or padding.
pub open spec fn spec_date(day: Seq<char>, month: Seq<char>, year: Seq<char>) -> Seq<char> {
    day + "-"@ + month + "-"@ + year
}

/// The pure, total mapping from a record view to an entity view: field
/// renaming and copying, plus the date concatenation.
pub open spec fn spec_map(r: ComicResponseView) -> ComicView {
    ComicView {
        title: r.title,
        num: r.num,
        date: spec_date(r.day, r.month, r.year),
        desc: r.alt,
        img_url: r.img,
    }
}

impl Comic {
    /// Converts a decoded record into the display entity. Total: defined for
    /// every record, with no failure path and no side effect.
    pub fn from_response(cr: ComicResponse) -> (c: Comic)
        ensures
            c@ == spec_map(cr@),
    {
        let mut date = cr.day;
        date.append("-");
        date.append(cr.month.as_str());
        date.append("-");
        date.append(cr.year.as_str());
        Comic { title: cr.title, num: cr.num, date, desc: cr.alt, img_url: cr.img }
    }
}

/// Law: the mapper is deterministic and total. It is defined as a spec-level
/// function on every record view, so equal records always map to equal
/// display entities, and re-running it cannot change the result.
pub proof fn lemma_map_deterministic(a: ComicResponseView, b: ComicResponseView)
    requires
        a == b,
    ensures
        spec_map(a) == spec_map(b),
{
}

/// Law: date composition is a pure string concatenation. For every record
/// view, the mapped entity's date is exactly `day + "-" + month + "-" + year`
/// over the record's literal field values, and every other entity field is a
/// copy of the corresponding record field.
pub proof fn lemma_map_fields(r: ComicResponseView)
    ensures
        spec_map(r).date == r.day + "-"@ + r.month + "-"@ + r.year,
        spec_map(r).title == r.title,
        spec_map(r).num == r.num,
        spec_map(r).desc == r.alt,
        spec_map(r).img_url == r.img,
{
}

} // verus!
