use vstd::prelude::*;
use vstd::string::StringSliceAdditionalSpecFns;
use vstd::utf8::encode_utf8;

verus! {

/// The furthest a timestamp may lie from the Unix epoch, in seconds: about
/// 253 000 years, inside the range of calendar dates that can be rendered.
pub const MAX_TIMESTAMP_SECS: i64 = 8_000_000_000_000;

/// One second, in nanoseconds.
pub const NANOS_PER_SEC: u32 = 1_000_000_000;

/// A UTC instant: whole seconds since the Unix epoch and the nanoseconds
/// past that second.
#[derive(Clone, Copy, Debug, PartialEq, Eq, Structural)]
pub struct Timestamp {
    pub secs: i64,
    pub nanos: u32,
}

impl Timestamp {
    pub open spec fn wf(self) -> bool {
        -MAX_TIMESTAMP_SECS <= self.secs <= MAX_TIMESTAMP_SECS && self.nanos < NANOS_PER_SEC
    }

    /// Whether the instant lies in the range that can be rendered.
    pub fn in_range(&self) -> (r: bool)
        ensures
            r == self.wf(),
    {
        -MAX_TIMESTAMP_SECS <= self.secs && self.secs <= MAX_TIMESTAMP_SECS && self.nanos < NANOS_PER_SEC
    }

    /// The instant, if it lies in the range that can be rendered.
    pub fn new(secs: i64, nanos: u32) -> (r: Option<Timestamp>)
        ensures
            r is Some <==> (Timestamp { secs, nanos }).wf(),
            r is Some ==> r->0 == (Timestamp { secs, nanos }),
    {
        if -MAX_TIMESTAMP_SECS <= secs && secs <= MAX_TIMESTAMP_SECS && nanos < NANOS_PER_SEC {
            Some(Timestamp { secs, nanos })
        } else {
            None
        }
    }
}

/// The RFC 3339 rendering of a UTC instant, as chrono writes it.
pub uninterp spec fn rfc3339_of(secs: int, nanos: int) -> Seq<char>;

/// The hyphenated name-based (MD5, version 3) UUID of a byte string in the
/// X.500 namespace.
pub uninterp spec fn uuid_v3_x500_of(name: Seq<u8>) -> Seq<char>;

/// Relies on chrono's `DateTime::<Utc>::from_timestamp`, which accepts every
/// instant in this range with fewer than a second of nanoseconds, and on
/// `DateTime::to_rfc3339`, whose text depends on the instant alone.
#[verifier::external_body]
fn rfc3339(secs: i64, nanos: u32) -> (r: String)
    requires
        -MAX_TIMESTAMP_SECS <= secs <= MAX_TIMESTAMP_SECS,
        nanos < NANOS_PER_SEC,
    ensures
        r@ == rfc3339_of(secs as int, nanos as int),
{
    chrono::DateTime::<chrono::Utc>::from_timestamp(secs, nanos).unwrap().to_rfc3339()
}

/// Relies on uuid's `Uuid::new_v3` in `Uuid::NAMESPACE_X500`, rendered by its
/// `Display`, which writes the 36 characters of the hyphenated lower-case form.
#[verifier::external_body]
fn uuid_v3_x500(name: &[u8]) -> (r: String)
    ensures
        r@ == uuid_v3_x500_of(name@),
        r@.len() == 36,
{
    uuid::Uuid::new_v3(&uuid::Uuid::NAMESPACE_X500, name).to_string()
}

/// An opaque secondary identifier of a user or a group.
#[derive(Clone, Debug, PartialEq, Eq)]
pub struct Uuid(pub String);

impl View for Uuid {
    type V = Seq<char>;

    open spec fn view(&self) -> Seq<char> {
        self.0@
    }
}

/// The identifier of a row named `name` and created at `date`: the UTF-8 of
/// the name followed by the UTF-8 of the date in RFC 3339 form.
pub open spec fn identifier_input(name: Seq<char>, date: Timestamp) -> Seq<u8> {
    encode_utf8(name) + encode_utf8(rfc3339_of(date.secs as int, date.nanos as int))
}

/// The identifier that the generator gives to `name` created at `date`.
pub open spec fn spec_from_name_and_date(name: Seq<char>, date: Timestamp) -> Seq<char> {
    uuid_v3_x500_of(identifier_input(name, date))
}

impl Uuid {
    /// The deterministic identifier of a row, from its name and creation date.
    pub fn from_name_and_date(name: &str, date: &Timestamp) -> (r: Uuid)
        requires
            date.wf(),
        ensures
            r@ == spec_from_name_and_date(name@, *date),
            r@.len() == 36,
    {
        let rendered = rfc3339(date.secs, date.nanos);
        let a = name.as_bytes();
        let b = rendered.as_str().as_bytes();
        let mut bytes: Vec<u8> = Vec::new();
        let mut i: usize = 0;
        while i < a.len()
            invariant
                i <= a@.len(),
                bytes@ == a@.subrange(0, i as int),
            decreases a@.len() - i,
        {
            bytes.push(a[i]);
            i = i + 1;
        }
        let mut j: usize = 0;
        while j < b.len()
            invariant
                j <= b@.len(),
                bytes@ == a@ + b@.subrange(0, j as int),
            decreases b@.len() - j,
        {
            bytes.push(b[j]);
            j = j + 1;
        }
        assert(a@ =~= a@.subrange(0, a@.len() as int));
        assert(b@ =~= b@.subrange(0, b@.len() as int));
        Uuid(uuid_v3_x500(bytes.as_slice()))
    }
}

/// The generator is a function of its inputs: the same name and date give
/// the same identifier, on every replay.
pub proof fn lemma_identifier_reproducible(
    name1: Seq<char>,
    date1: Timestamp,
    name2: Seq<char>,
    date2: Timestamp,
)
    requires
        name1 == name2,
        date1 == date2,
    ensures
        spec_from_name_and_date(name1, date1) == spec_from_name_and_date(name2, date2),
{
}

} // verus!
