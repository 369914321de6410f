use vstd::prelude::*;

verus! {

/// A point in time as mathematics sees it: whole seconds since the start of
/// 1970 in UTC, leap seconds not counted, and the nanoseconds past that second.
pub struct Moment {
    pub secs: int,
    pub nanos: int,
}

impl Moment {
    /// Whether `self` is `other` or earlier.
    pub open spec fn at_or_before(self, other: Moment) -> bool {
        self.secs < other.secs || (self.secs == other.secs && self.nanos <= other.nanos)
    }
}

/// Whether chrono has a date and time for this many seconds and nanoseconds.
pub uninterp spec fn representable(secs: int, nanos: int) -> bool;

/// The text that chrono writes for a point in time, in the form of RFC 3339
/// with `Z` for UTC.
pub uninterp spec fn rfc3339_text(secs: int, nanos: int) -> Seq<char>;

/// The point in time that chrono reads from a text, if it reads one.
pub uninterp spec fn parsed_moment(text: Seq<char>) -> Option<Moment>;

/// The text that chrono shows for a point in time in UTC.
pub uninterp spec fn display_text(secs: int, nanos: int) -> Seq<char>;

/// A point in time that chrono can represent.
#[derive(Clone, Copy, Debug, PartialEq, Eq, Structural)]
pub struct Timestamp {
    secs: i64,
    nanos: u32,
}

impl View for Timestamp {
    type V = Moment;

    closed spec fn view(&self) -> Moment {
        Moment { secs: self.secs as int, nanos: self.nanos as int }
    }
}

impl DeepView for Timestamp {
    type V = Moment;

    open spec fn deep_view(&self) -> Moment {
        self@
    }
}

/// `chrono::DateTime::from_timestamp`, asked only whether it has a value.
/// The answer is named, not stated: which dates chrono holds is for chrono
/// to say.
#[verifier::external_body]
fn is_representable(secs: i64, nanos: u32) -> (known: bool)
    ensures
        known == representable(secs as int, nanos as int),
{
    chrono::DateTime::from_timestamp(secs, nanos).is_some()
}

/// `chrono::Utc::now`, taken apart by `DateTime::timestamp` and
/// `DateTime::timestamp_subsec_nanos`. Nothing is claimed of the time itself.
/// chrono documents that `from_timestamp` gives every date and time back from
/// these two numbers, so the pair is representable. Where the system clock
/// stands before 1970 chrono panics; no caller can keep that from happening.
#[verifier::external_body]
fn current_time() -> (now: Timestamp)
    ensures
        representable(now@.secs, now@.nanos),
{
    let now = chrono::Utc::now();
    Timestamp { secs: now.timestamp(), nanos: now.timestamp_subsec_nanos() }
}

/// `chrono::DateTime::to_rfc3339_opts` with `SecondsFormat::AutoSi` and `Z`,
/// on the date and time that `from_timestamp` makes of the two numbers. The
/// text is named, not stated: the calendar is chrono's.
#[verifier::external_body]
fn write_rfc3339(secs: i64, nanos: u32) -> (text: String)
    requires
        representable(secs as int, nanos as int),
    ensures
        text@ == rfc3339_text(secs as int, nanos as int),
{
    chrono::DateTime::from_timestamp(secs, nanos).unwrap().to_rfc3339_opts(
        chrono::SecondsFormat::AutoSi,
        true,
    )
}

/// `str::parse` into a `chrono::DateTime<Utc>`: chrono's reading of a text
/// in a relaxed form of RFC 3339, brought to UTC, and `None` where chrono
/// refuses the text. What it reads is taken apart as in `current_time`, so
/// it is representable.
#[verifier::external_body]
fn read_rfc3339(text: &str) -> (read: Option<Timestamp>)
    ensures
        match read {
            Some(stamp) => parsed_moment(text@) == Some(stamp@) && representable(
                stamp@.secs,
                stamp@.nanos,
            ),
            None => parsed_moment(text@) is None,
        },
{
    match text.parse::<chrono::DateTime<chrono::Utc>>() {
        Ok(read) => Some(
            Timestamp { secs: read.timestamp(), nanos: read.timestamp_subsec_nanos() },
        ),
        Err(_) => None,
    }
}

/// `ToString::to_string` on the `chrono::DateTime<Utc>` that `from_timestamp`
/// makes of the two numbers. The text is named, not stated.
#[verifier::external_body]
fn write_display(secs: i64, nanos: u32) -> (text: String)
    requires
        representable(secs as int, nanos as int),
    ensures
        text@ == display_text(secs as int, nanos as int),
{
    chrono::DateTime::from_timestamp(secs, nanos).unwrap().to_string()
}

impl Timestamp {
    #[verifier::type_invariant]
    spec fn known_to_chrono(self) -> bool {
        representable(self.secs as int, self.nanos as int)
    }

    /// The point in time with these seconds and nanoseconds, where chrono has
    /// one.
    pub fn new(secs: i64, nanos: u32) -> (made: Option<Timestamp>)
        ensures
            made is Some <==> representable(secs as int, nanos as int),
            made matches Some(stamp) ==> stamp@ == (Moment {
                secs: secs as int,
                nanos: nanos as int,
            }),
    {
        if is_representable(secs, nanos) {
            Some(Timestamp { secs, nanos })
        } else {
            None
        }
    }

    /// The current time, by the machine's clock: some time that chrono can
    /// represent.
    pub fn now() -> (now: Timestamp)
        ensures
            representable(now@.secs, now@.nanos),
    {
        current_time()
    }

    pub fn seconds(&self) -> (secs: i64)
        ensures
            secs == self@.secs,
    {
        self.secs
    }

    pub fn nanoseconds(&self) -> (nanos: u32)
        ensures
            nanos == self@.nanos,
    {
        self.nanos
    }

    /// Whether this time is `other` or earlier.
    pub fn at_or_before(&self, other: &Timestamp) -> (answer: bool)
        ensures
            answer == self@.at_or_before(other@),
    {
        self.secs < other.secs || (self.secs == other.secs && self.nanos <= other.nanos)
    }

    /// The text under which the time is stored.
    pub fn to_rfc3339(&self) -> (text: String)
        ensures
            text@ == rfc3339_text(self@.secs, self@.nanos),
    {
        proof {
            use_type_invariant(self);
        }
        write_rfc3339(self.secs, self.nanos)
    }

    /// The time that a stored text gives, if it gives one.
    pub fn parse(text: &str) -> (read: Option<Timestamp>)
        ensures
            read.deep_view() == parsed_moment(text@),
    {
        read_rfc3339(text)
    }

    /// The text under which the time is shown.
    pub fn to_string(&self) -> (text: String)
        ensures
            text@ == display_text(self@.secs, self@.nanos),
    {
        proof {
            use_type_invariant(self);
        }
        write_display(self.secs, self.nanos)
    }

    /// Two timestamps of one moment are one timestamp.
    pub proof fn lemma_view_is_injective(self, other: Timestamp)
        requires
            self@ == other@,
        ensures
            self == other,
    {
    }
}

} // verus!
