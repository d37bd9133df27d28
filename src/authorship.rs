use vstd::prelude::*;

verus! {

/// The errors that stop an import.
#[derive(Debug, Clone, Copy, PartialEq, Eq, Structural)]
pub enum ImportError {
    /// An authorship timestamp is not an RFC 3339 date-time.
    MalformedTimestamp,
    /// The issue or comment list could not be fetched.
    FetchFailure,
    /// The object store refused an operation or could not be opened.
    StoreFailure,
    /// An operator argument is missing.
    MissingRequiredArgument,
}

/// Who wrote a message node, and when.
#[derive(Debug, Clone)]
pub struct Authorship {
    pub name: String,
    pub email: String,
    /// Seconds since the Unix epoch.
    pub seconds: i64,
    /// Offset of the author's clock from UTC, in whole minutes.
    pub offset_minutes: i32,
}

pub ghost struct AuthorshipView {
    pub name: Seq<char>,
    pub email: Seq<char>,
    pub seconds: int,
    pub offset_minutes: int,
}

impl View for Authorship {
    type V = AuthorshipView;

    open spec fn view(&self) -> AuthorshipView {
        AuthorshipView {
            name: self.name@,
            email: self.email@,
            seconds: self.seconds as int,
            offset_minutes: self.offset_minutes as int,
        }
    }
}

/// The instant an RFC 3339 date-time denotes, as seconds since the epoch and
/// the offset from UTC in seconds; `None` where the text is not one.
pub uninterp spec fn rfc3339_instant(text: Seq<char>) -> Option<(int, int)>;

/// Relies on chrono's `DateTime::parse_from_rfc3339`, `DateTime::timestamp`
/// and `FixedOffset::local_minus_utc`: the parse depends on the text alone,
/// and a `FixedOffset` only holds offsets strictly inside one day.
#[verifier::external_body]
fn parse_rfc3339(text: &str) -> (r: Option<(i64, i32)>)
    ensures
        match r {
            Some((seconds, offset)) => {
                &&& rfc3339_instant(text@) == Some((seconds as int, offset as int))
                &&& -86_400 < offset < 86_400
            },
            None => rfc3339_instant(text@) is None,
        },
{
    chrono::DateTime::parse_from_rfc3339(text).ok().map(|d| (d.timestamp(), d.offset().local_minus_utc()))
}

/// The mail address every imported author gets: tracker identities do not
/// map to addresses.
pub open spec fn placeholder_email() -> Seq<char> {
    "unknown@email.tld"@
}

/// Whole minutes in `seconds`, rounded toward zero.
pub open spec fn whole_minutes(seconds: int) -> int {
    if seconds >= 0 {
        seconds / 60
    } else {
        -((-seconds) / 60)
    }
}

pub open spec fn authorship_spec(name: Seq<char>, seconds: int, offset_seconds: int) -> AuthorshipView {
    AuthorshipView {
        name,
        email: placeholder_email(),
        seconds,
        offset_minutes: whole_minutes(offset_seconds),
    }
}

/// The authorship record derived from an identity and a timestamp text.
pub open spec fn derivation(name: Seq<char>, stamp: Seq<char>) -> Result<AuthorshipView, ImportError> {
    match rfc3339_instant(stamp) {
        Some((seconds, offset)) => Ok(authorship_spec(name, seconds, offset)),
        None => Err(ImportError::MalformedTimestamp),
    }
}

pub open spec fn outcome_view(r: Result<Authorship, ImportError>) -> Result<AuthorshipView, ImportError> {
    match r {
        Ok(a) => Ok(a@),
        Err(e) => Err(e),
    }
}

/// Builds the record of `name` at an instant already parsed: `seconds` since
/// the epoch, `offset_seconds` east of UTC.
pub fn authorship_at(name: &str, seconds: i64, offset_seconds: i32) -> (r: Authorship)
    ensures
        r@ == authorship_spec(name@, seconds as int, offset_seconds as int),
{
    let wide: i64 = offset_seconds as i64;
    let minutes: i64 = if wide >= 0 {
        wide / 60
    } else {
        -((-wide) / 60)
    };
    assert(-(i32::MAX as int) <= minutes <= i32::MAX) by (nonlinear_arith)
        requires
            wide >= 0 ==> minutes == wide / 60,
            wide < 0 ==> minutes == -((-wide) / 60),
            i32::MIN <= wide <= i32::MAX,
    ;
    Authorship {
        name: name.to_owned(),
        email: String::from_str("unknown@email.tld"),
        seconds,
        offset_minutes: minutes as i32,
    }
}

/// Derives the authorship record of `username` from the RFC 3339 date-time
/// `created_at`; fails with `MalformedTimestamp` where that text is not one.
pub fn signature_for(username: &str, created_at: &str) -> (r: Result<Authorship, ImportError>)
    ensures
        outcome_view(r) == derivation(username@, created_at@),
{
    match parse_rfc3339(created_at) {
        Some((seconds, offset)) => Ok(authorship_at(username, seconds, offset)),
        None => Err(ImportError::MalformedTimestamp),
    }
}

/// Deriving twice from the same identity and timestamp gives the same record.
pub proof fn lemma_derivation_deterministic(
    name: Seq<char>,
    stamp: Seq<char>,
    first: Result<Authorship, ImportError>,
    second: Result<Authorship, ImportError>,
)
    requires
        outcome_view(first) == derivation(name, stamp),
        outcome_view(second) == derivation(name, stamp),
    ensures
        outcome_view(first) == outcome_view(second),
        first is Ok <==> second is Ok,
        first is Ok ==> first->Ok_0@ == second->Ok_0@,
{
}

} // verus!
