//! Document points: the unit that the vector store persists.

use vstd::prelude::*;
use crate::embedding::Embedding;

verus! {

/// One entry of a payload.
#[derive(Clone, Debug, PartialEq, Eq)]
pub struct Field {
    pub name: String,
    pub value: String,
}

/// The metadata stored beside a vector, and echoed by every search result:
/// a mapping from field names to values. Where a name occurs twice, the later
/// entry counts.
#[derive(Clone, Debug, PartialEq, Eq)]
pub struct Payload {
    pub fields: Vec<Field>,
}

/// The mapping that a sequence of entries stands for.
pub open spec fn fields_map(fields: Seq<Field>) -> Map<Seq<char>, Seq<char>>
    decreases fields.len(),
{
    if fields.len() == 0 {
        Map::empty()
    } else {
        fields_map(fields.drop_last()).insert(fields.last().name@, fields.last().value@)
    }
}

impl View for Payload {
    type V = Map<Seq<char>, Seq<char>>;

    open spec fn view(&self) -> Map<Seq<char>, Seq<char>> {
        fields_map(self.fields@)
    }
}

/// The name of the field that holds the text that was embedded.
pub const TEXT_FIELD: &'static str = "text";

/// The name of the field that holds the time of insertion, in UTC:
/// `YYYY-MM-DDTHH:MM:SS.mmm`.
pub const DATETIME_FIELD: &'static str = "datetime";

/// A point as plain values.
pub struct PointView {
    pub id: Seq<char>,
    pub vector: Seq<u32>,
    pub payload: Map<Seq<char>, Seq<char>>,
}

/// One stored document: an identifier, the embedding of its text, and its
/// payload.
#[derive(Clone, Debug, PartialEq, Eq)]
pub struct DocumentPoint {
    pub id: String,
    pub vector: Embedding,
    pub payload: Payload,
}

impl View for DocumentPoint {
    type V = PointView;

    open spec fn view(&self) -> PointView {
        PointView { id: self.id@, vector: self.vector@, payload: self.payload@ }
    }
}

/// The points of a sequence, as plain values.
pub open spec fn point_views(points: Seq<DocumentPoint>) -> Seq<PointView> {
    points.map_values(|point: DocumentPoint| point@)
}

/// The pattern, in chrono's strftime notation, by which insertion times are
/// written.
pub const TIMESTAMP_PATTERN: &'static str = "%Y-%m-%dT%H:%M:%S%.3f";

/// A decimal digit.
pub open spec fn is_digit(c: char) -> bool {
    '0' <= c <= '9'
}

/// A hexadecimal digit in lower case.
pub open spec fn is_lower_hex(c: char) -> bool {
    is_digit(c) || 'a' <= c <= 'f'
}

/// Whether a text holds decimal digits only.
pub open spec fn all_digits(s: Seq<char>) -> bool {
    forall|i: int| 0 <= i < s.len() ==> is_digit(#[trigger] s[i])
}

/// A random (version 4) UUID in its hyphenated lower-case form, such as
/// `67e55044-10b1-426f-9247-bb680e5fe0c8`.
pub open spec fn is_point_id(id: Seq<char>) -> bool {
    &&& id.len() == 36
    &&& forall|i: int|
        0 <= i < 36 ==> if i == 8 || i == 13 || i == 18 || i == 23 {
            id[i] == '-'
        } else {
            is_lower_hex(#[trigger] id[i])
        }
    &&& id[14] == '4'
    &&& (id[19] == '8' || id[19] == '9' || id[19] == 'a' || id[19] == 'b')
}

/// A year as the timestamp writes it: four digits, or `+` and more than four
/// digits for a year after 9999.
pub open spec fn is_year_text(year: Seq<char>) -> bool {
    ||| year.len() == 4 && all_digits(year)
    ||| year.len() > 5 && year[0] == '+' && all_digits(year.skip(1))
}

/// What follows the year in a timestamp: `-MM-DDTHH:MM:SS.mmm`.
pub open spec fn is_clock_text(rest: Seq<char>) -> bool {
    &&& rest.len() == 19
    &&& rest[0] == '-' && is_digit(rest[1]) && is_digit(rest[2])
    &&& rest[3] == '-' && is_digit(rest[4]) && is_digit(rest[5])
    &&& rest[6] == 'T' && is_digit(rest[7]) && is_digit(rest[8])
    &&& rest[9] == ':' && is_digit(rest[10]) && is_digit(rest[11])
    &&& rest[12] == ':' && is_digit(rest[13]) && is_digit(rest[14])
    &&& rest[15] == '.' && is_digit(rest[16]) && is_digit(rest[17]) && is_digit(rest[18])
}

/// An insertion time as the clock gives it: a year, then
/// `-MM-DDTHH:MM:SS.mmm`. Up to the year 9999 that is
/// `YYYY-MM-DDTHH:MM:SS.mmm`, 23 characters.
pub open spec fn is_utc_stamp(stamp: Seq<char>) -> bool {
    &&& stamp.len() >= 23
    &&& is_year_text(stamp.take(stamp.len() - 19))
    &&& is_clock_text(stamp.skip(stamp.len() - 19))
}

/// Draws a fresh identifier: the call is `uuid::Uuid::new_v4()`, written out
/// by `to_string()`.
///
/// Believed of uuid, not proved: `new_v4` fills 128 bits from the system's
/// random source and then sets the version to 4 and the variant to RFC 4122,
/// and `to_string` writes the 32 hexadecimal digits in lower case with
/// hyphens after the 8th, 12th, 16th and 20th. Nothing is claimed of the
/// random digits: two calls may, with negligible probability, give the same
/// identifier. The call does not return if the system has no random source.
#[verifier::external_body]
pub(crate) fn fresh_point_id() -> (id: String)
    ensures
        is_point_id(id@),
{
    uuid::Uuid::new_v4().to_string()
}

/// Reads the clock and writes the time down: the call is
/// `chrono::Utc::now()`, formatted by `format(pattern)` and `to_string()`.
///
/// Believed of chrono, not proved: under [`TIMESTAMP_PATTERN`] the year comes
/// as four digits (with a sign and more digits only after the year 9999;
/// `now` gives no time before 1970), month, day, hour, minute and second as
/// two digits each, and the fraction of the second as a point and three
/// digits. Nothing is claimed of which time it is. The call does not return
/// if the system clock stands before 1970.
#[verifier::external_body]
pub(crate) fn utc_now_text(pattern: &str) -> (stamp: String)
    requires
        pattern@ == TIMESTAMP_PATTERN@,
    ensures
        is_utc_stamp(stamp@),
{
    chrono::Utc::now().format(pattern).to_string()
}

/// The payload of a point: the text and the time of insertion, each under
/// its name.
pub open spec fn payload_view(text: Seq<char>, datetime: Seq<char>) -> Map<Seq<char>, Seq<char>> {
    Map::empty().insert(TEXT_FIELD@, text).insert(DATETIME_FIELD@, datetime)
}

/// Builds the payload of a point. Every payload carries the text and the
/// time of insertion.
pub fn payload_for(text: &str, datetime: String) -> (payload: Payload)
    ensures
        payload@ == payload_view(text@, datetime@),
{
    let mut fields: Vec<Field> = Vec::new();
    fields.push(Field { name: TEXT_FIELD.to_owned(), value: text.to_owned() });
    fields.push(Field { name: DATETIME_FIELD.to_owned(), value: datetime });
    proof {
        let both = fields@;
        let first = both.drop_last();
        assert(first.drop_last().len() == 0);
        assert(fields_map(first.drop_last()) == Map::<Seq<char>, Seq<char>>::empty());
        assert(first.last().name@ == TEXT_FIELD@ && first.last().value@ == text@);
        assert(fields_map(first) == Map::<Seq<char>, Seq<char>>::empty().insert(TEXT_FIELD@, text@));
    }
    Payload { fields }
}

impl Payload {
    /// Looks a field up by its name.
    pub fn get(&self, name: &str) -> (value: Option<&String>)
        ensures
            match value {
                Some(found) => self@.contains_key(name@) && self@[name@] == found@,
                None => !self@.contains_key(name@),
            },
    {
        let key = name.to_owned();
        let mut value: Option<&String> = None;
        let mut i: usize = 0;
        while i < self.fields.len()
            invariant
                i <= self.fields@.len(),
                key@ == name@,
                match value {
                    Some(found) => fields_map(self.fields@.take(i as int)).contains_key(name@)
                        && fields_map(self.fields@.take(i as int))[name@] == found@,
                    None => !fields_map(self.fields@.take(i as int)).contains_key(name@),
                },
            decreases self.fields@.len() - i,
        {
            proof {
                let next = self.fields@.take(i + 1);
                assert(next.drop_last() =~= self.fields@.take(i as int));
                assert(next.last() == self.fields@[i as int]);
            }
            if self.fields[i].name == key {
                value = Some(&self.fields[i].value);
            }
            i += 1;
        }
        assert(self.fields@.take(i as int) =~= self.fields@);
        value
    }
}

/// A payload built for a point gives back the text and the time of
/// insertion that it was built with.
pub proof fn payload_holds_text_and_time(text: Seq<char>, datetime: Seq<char>)
    ensures
        payload_view(text, datetime).dom() =~= set![TEXT_FIELD@, DATETIME_FIELD@],
        payload_view(text, datetime)[TEXT_FIELD@] == text,
        payload_view(text, datetime)[DATETIME_FIELD@] == datetime,
{
    reveal_strlit("text");
    reveal_strlit("datetime");
    assert(TEXT_FIELD@.len() != DATETIME_FIELD@.len());
}

} // verus!
