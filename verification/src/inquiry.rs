//! The quote inquiry of the HTTP API: which day a quote is asked for, which
//! cached quotes are looked up, and what is answered.
//!
//! An inquiry for the rate of `quote` against `base` looks up, for the
//! current day in Eastern Standard Time, first the cached quote of `base` in
//! US dollars and then that of `quote`; the caller performs each lookup and
//! hands the reply back.

use vstd::prelude::*;
use crate::cache::{cache_key, key_of, lemma_key_injective, no_underscore};

verus! {

/// The body of a quote inquiry: the currency asked for and the currency it
/// is priced in.
pub struct QuoteRequest {
    pub quote: String,
    pub base: String,
}

/// Seconds that Eastern Standard Time lies west of UTC.
pub const EST_OFFSET_WEST_SECONDS: i32 = 5 * 3600;

/// The currency that every cached quote is priced in.
pub open spec fn usd() -> Seq<char> {
    "USD"@
}

/// The date, as `chrono` writes it with the format `%Y-%m-%d`, of the instant
/// `utc_secs` seconds after the Unix epoch in the time zone `west_secs`
/// seconds west of UTC; `None` where `chrono` has no such date.
pub uninterp spec fn chrono_local_date(utc_secs: i64, west_secs: i32) -> Option<Seq<char>>;

/// Text of the shape `YYYY-MM-DD`: four digits, `-`, two digits, `-`, two
/// digits.
pub open spec fn is_date_text(s: Seq<char>) -> bool {
    &&& s.len() == 10
    &&& s[4] == '-'
    &&& s[7] == '-'
    &&& forall|i: int| 0 <= i < 10 && i != 4 && i != 7 ==> '0' <= #[trigger] s[i] <= '9'
}

/// The last second of the year 9999, in seconds after the Unix epoch.
pub open spec fn last_second_of_9999() -> int {
    253_402_300_799
}

/// An offset of less than a day.
pub open spec fn offset_in_range(west_secs: i32) -> bool {
    -86_400 < west_secs < 86_400
}

/// An instant from the Unix epoch until a day before the end of the year
/// 9999.
pub open spec fn instant_in_range(utc_secs: i64) -> bool {
    0 <= utc_secs <= last_second_of_9999() - 86_400
}

/// `chrono`: `FixedOffset::west_opt`, `DateTime::from_timestamp`,
/// `DateTime::with_timezone` and `format("%Y-%m-%d")`. Claimed: the result
/// is the named date `chrono_local_date`; there is none when the offset is a
/// day or more (as `west_opt` shows); and for instants from the epoch until a
/// day before the end of the year 9999 with an offset of less than a day there
/// is one, of the shape `YYYY-MM-DD` (years are zero-padded to four digits,
/// months and days to two, as the format's documentation says).
#[verifier::external_body]
fn local_date_text(utc_secs: i64, west_secs: i32) -> (res: Option<String>)
    ensures
        res matches Some(t) ==> chrono_local_date(utc_secs, west_secs) == Some(t@),
        res is None ==> chrono_local_date(utc_secs, west_secs) is None,
        !offset_in_range(west_secs) ==> res is None,
        offset_in_range(west_secs) && instant_in_range(utc_secs) ==> res is Some,
        res matches Some(t) ==> (instant_in_range(utc_secs) ==> is_date_text(t@)),
{
    let offset = chrono::FixedOffset::west_opt(west_secs)?;
    let instant = chrono::DateTime::from_timestamp(utc_secs, 0)?;
    Some(instant.with_timezone(&offset).format("%Y-%m-%d").to_string())
}

/// The day, in Eastern Standard Time, that an inquiry made at `utc_secs`
/// (seconds after the Unix epoch) asks quotes for, as `YYYY-MM-DD`.
pub fn quote_date(utc_secs: i64) -> (res: Option<String>)
    ensures
        res matches Some(t) ==> chrono_local_date(utc_secs, EST_OFFSET_WEST_SECONDS) == Some(t@),
        res is None ==> chrono_local_date(utc_secs, EST_OFFSET_WEST_SECONDS) is None,
        instant_in_range(utc_secs) ==> (res matches Some(t) && is_date_text(t@)),
{
    local_date_text(utc_secs, EST_OFFSET_WEST_SECONDS)
}

/// What looking up a cached quote gave.
pub enum Lookup<Q> {
    /// The quote was cached.
    Found(Q),
    /// No quote is cached under the key.
    Missing,
    /// The cache could not be read, or what it held could not be read back.
    Failed,
}

/// The answer to an inquiry.
pub enum InquiryOutcome<Q> {
    /// Both quotes were found: the rate is that of `quote` over that of `base`.
    Quoted { base: Q, quote: Q, date: String },
    /// One or both quotes are not cached (HTTP 404).
    NotFound,
    /// A lookup failed (HTTP 500).
    ServerError,
}

/// What the caller must do next.
pub enum InquiryStep<Q> {
    /// Look up the cached quote of `base` in `quote` on `date`, under `key`,
    /// and hand the reply to [`QuoteInquiry::on_lookup`].
    Fetch { date: String, base: String, quote: String, key: String },
    /// The inquiry is answered.
    Finish(InquiryOutcome<Q>),
}

/// Where an inquiry stands.
pub enum InquiryPhase<Q> {
    /// Waiting for the quote of the base currency.
    AwaitingBase,
    /// Waiting for the quote of the quoted currency; holds the base quote if
    /// it was found.
    AwaitingQuote(Option<Q>),
    /// Answered.
    Finished,
}

/// A quote inquiry in progress.
pub struct QuoteInquiry<Q> {
    pub date: String,
    pub request: QuoteRequest,
    pub phase: InquiryPhase<Q>,
}

/// The answer as a mathematical value.
pub enum OutcomeModel<Q> {
    Quoted(Q, Q, Seq<char>),
    NotFound,
    ServerError,
}

/// The next step as a mathematical value.
pub enum StepModel<Q> {
    Fetch(Seq<char>, Seq<char>, Seq<char>, Seq<char>),
    Finish(OutcomeModel<Q>),
}

impl<Q> InquiryOutcome<Q> {
    pub open spec fn model(&self) -> OutcomeModel<Q> {
        match self {
            InquiryOutcome::Quoted { base, quote, date } => OutcomeModel::Quoted(*base, *quote, date@),
            InquiryOutcome::NotFound => OutcomeModel::NotFound,
            InquiryOutcome::ServerError => OutcomeModel::ServerError,
        }
    }
}

impl<Q> InquiryStep<Q> {
    pub open spec fn model(&self) -> StepModel<Q> {
        match self {
            InquiryStep::Fetch { date, base, quote, key } => StepModel::Fetch(date@, base@, quote@, key@),
            InquiryStep::Finish(o) => StepModel::Finish(o.model()),
        }
    }
}

/// The lookup of the quote of `currency` in US dollars on `date`.
pub open spec fn fetch_usd_quote<Q>(date: Seq<char>, currency: Seq<char>) -> StepModel<Q> {
    StepModel::Fetch(date, currency, usd(), key_of(date, currency, usd()))
}

/// The lookup for `currency` on `date` asks for exactly the quote of that
/// currency in US dollars on that day, under the key
/// `<date>_<currency>_USD`.
pub proof fn lemma_fetch_asks_for_the_currency<Q>(date: Seq<char>, currency: Seq<char>)
    ensures
        fetch_usd_quote::<Q>(date, currency) matches StepModel::Fetch(d, b, q, k) && d == date && b
            == currency && q == "USD"@ && k == date + seq!['_'] + currency + seq!['_'] + "USD"@,
{
}

/// The phase an inquiry moves to on a reply.
pub open spec fn next_phase<Q>(phase: InquiryPhase<Q>, reply: Lookup<Q>) -> InquiryPhase<Q> {
    match phase {
        InquiryPhase::AwaitingBase => match reply {
            Lookup::Found(q) => InquiryPhase::AwaitingQuote(Some(q)),
            Lookup::Missing => InquiryPhase::AwaitingQuote(None),
            Lookup::Failed => InquiryPhase::Finished,
        },
        _ => InquiryPhase::Finished,
    }
}

/// The step that follows a reply: after the base lookup, a failure answers
/// with a server error and anything else goes on to look up the quoted
/// currency; after that lookup, a failure answers with a server error, a
/// missing quote on either side with "not found", and otherwise the two
/// quotes are the answer.
pub open spec fn next_step<Q>(
    date: Seq<char>,
    quote_currency: Seq<char>,
    phase: InquiryPhase<Q>,
    reply: Lookup<Q>,
) -> StepModel<Q> {
    match phase {
        InquiryPhase::AwaitingBase => match reply {
            Lookup::Failed => StepModel::Finish(OutcomeModel::ServerError),
            _ => fetch_usd_quote(date, quote_currency),
        },
        InquiryPhase::AwaitingQuote(base) => match reply {
            Lookup::Failed => StepModel::Finish(OutcomeModel::ServerError),
            Lookup::Missing => StepModel::Finish(OutcomeModel::NotFound),
            Lookup::Found(q) => match base {
                Some(b) => StepModel::Finish(OutcomeModel::Quoted(b, q, date)),
                None => StepModel::Finish(OutcomeModel::NotFound),
            },
        },
        InquiryPhase::Finished => StepModel::Finish(OutcomeModel::ServerError),
    }
}

/// The lookup of the quote of `currency` in US dollars on `date`.
fn fetch_usd<Q>(date: &String, currency: &String) -> (res: InquiryStep<Q>)
    ensures
        res.model() == fetch_usd_quote::<Q>(date@, currency@),
        res matches InquiryStep::Fetch { date: d, base: b, quote: q, key: k } && d@ == date@ && b@
            == currency@ && q@ == "USD"@ && k@ == date@ + seq!['_'] + currency@ + seq!['_'] + "USD"@,
{
    let usd_text = String::from_str("USD");
    let key = cache_key(date.as_str(), currency.as_str(), usd_text.as_str());
    InquiryStep::Fetch { date: date.clone(), base: currency.clone(), quote: usd_text, key }
}

impl<Q> QuoteInquiry<Q> {
    /// Starts the inquiry `request` for the day `date`: the first step looks
    /// up the quote of the base currency in US dollars on that day.
    pub fn start(request: QuoteRequest, date: String) -> (res: (QuoteInquiry<Q>, InquiryStep<Q>))
        ensures
            res.0.date@ == date@,
            res.0.request.quote@ == request.quote@,
            res.0.request.base@ == request.base@,
            res.0.phase is AwaitingBase,
            res.1.model() == fetch_usd_quote::<Q>(date@, request.base@),
            res.1 matches InquiryStep::Fetch { date: d, base: b, quote: q, key: k } && d@ == date@
                && b@ == request.base@ && q@ == "USD"@ && k@ == date@ + seq!['_'] + request.base@
                + seq!['_'] + "USD"@,
    {
        let step = fetch_usd(&date, &request.base);
        (QuoteInquiry { date, request, phase: InquiryPhase::AwaitingBase }, step)
    }

    /// Takes the reply to the last lookup and gives the next step. An inquiry
    /// that is already answered has no lookup outstanding: a reply handed to
    /// it answers with a server error.
    pub fn on_lookup(self, reply: Lookup<Q>) -> (res: (QuoteInquiry<Q>, InquiryStep<Q>))
        ensures
            res.0.date@ == self.date@,
            res.0.request.quote@ == self.request.quote@,
            res.0.request.base@ == self.request.base@,
            res.0.phase == next_phase(self.phase, reply),
            res.1.model() == next_step(self.date@, self.request.quote@, self.phase, reply),
    {
        let QuoteInquiry { date, request, phase } = self;
        match phase {
            InquiryPhase::AwaitingBase => match reply {
                Lookup::Failed => (
                    QuoteInquiry { date, request, phase: InquiryPhase::Finished },
                    InquiryStep::Finish(InquiryOutcome::ServerError),
                ),
                Lookup::Found(q) => {
                    let step = fetch_usd(&date, &request.quote);
                    (QuoteInquiry { date, request, phase: InquiryPhase::AwaitingQuote(Some(q)) }, step)
                },
                Lookup::Missing => {
                    let step = fetch_usd(&date, &request.quote);
                    (QuoteInquiry { date, request, phase: InquiryPhase::AwaitingQuote(None) }, step)
                },
            },
            InquiryPhase::AwaitingQuote(base) => {
                let outcome = match reply {
                    Lookup::Failed => InquiryOutcome::ServerError,
                    Lookup::Missing => InquiryOutcome::NotFound,
                    Lookup::Found(q) => match base {
                        Some(b) => InquiryOutcome::Quoted { base: b, quote: q, date: date.clone() },
                        None => InquiryOutcome::NotFound,
                    },
                };
                (QuoteInquiry { date, request, phase: InquiryPhase::Finished }, InquiryStep::Finish(outcome))
            },
            InquiryPhase::Finished => (
                QuoteInquiry { date, request, phase: InquiryPhase::Finished },
                InquiryStep::Finish(InquiryOutcome::ServerError),
            ),
        }
    }
}

/// A date of the shape `YYYY-MM-DD` holds no `_`, so it cannot run into the
/// currency part of a cache key.
pub proof fn lemma_date_text_has_no_underscore(s: Seq<char>)
    requires
        is_date_text(s),
    ensures
        no_underscore(s),
{
    assert forall|i: int| 0 <= i < s.len() implies #[trigger] s[i] != '_' by {
        if i != 4 && i != 7 {
            assert('0' <= s[i] <= '9');
        }
    }
}

/// An inquiry reads what the sink wrote: the lookup that an inquiry on `date`
/// makes for `currency` uses the key under which a quote with date
/// `stored_date`, base `stored_base` and quote currency `stored_quote` is
/// written exactly when that quote is the US-dollar quote of `currency` on
/// `date` (where neither dates nor base currencies hold a `_`).
pub proof fn lemma_inquiry_reads_stored_quote(
    date: Seq<char>,
    currency: Seq<char>,
    stored_date: Seq<char>,
    stored_base: Seq<char>,
    stored_quote: Seq<char>,
)
    requires
        no_underscore(date),
        no_underscore(currency),
        no_underscore(stored_date),
        no_underscore(stored_base),
    ensures
        (fetch_usd_quote::<()>(date, currency) matches StepModel::Fetch(_, _, _, key) && key
            == key_of(stored_date, stored_base, stored_quote)) <==> (stored_date == date
            && stored_base == currency && stored_quote == usd()),
{
    if key_of(date, currency, usd()) == key_of(stored_date, stored_base, stored_quote) {
        lemma_key_injective(date, currency, usd(), stored_date, stored_base, stored_quote);
    }
}

/// An inquiry that gets past its first lookup answers with the two quotes
/// exactly when both lookups found one, with "not found" when neither
/// failed and one missed, and with a server error when the second failed.
pub proof fn lemma_inquiry_answer<Q>(
    date: Seq<char>,
    quote_currency: Seq<char>,
    base_reply: Lookup<Q>,
    quote_reply: Lookup<Q>,
)
    requires
        !(base_reply is Failed),
    ensures
        ({
            let answer = next_step(date, quote_currency, next_phase(InquiryPhase::AwaitingBase, base_reply), quote_reply);
            &&& (answer matches StepModel::Finish(OutcomeModel::Quoted(_, _, _))) <==> (base_reply is Found && quote_reply is Found)
            &&& base_reply matches Lookup::Found(b0) ==> (quote_reply matches Lookup::Found(q0) ==> answer == StepModel::Finish(OutcomeModel::Quoted(b0, q0, date)))
            &&& quote_reply is Failed ==> answer == StepModel::<Q>::Finish(OutcomeModel::ServerError)
            &&& (!(quote_reply is Failed) && (base_reply is Missing || quote_reply is Missing)) ==> answer == StepModel::<Q>::Finish(OutcomeModel::NotFound)
        }),
{
}

} // verus!
