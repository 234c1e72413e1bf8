//! Invoice fields: the loose text that the service returns, and the typed
//! values read out of it. Reading never fails: a field that cannot be read
//! keeps its text.

use crate::pattern::first_group;
use crate::pattern::regex_group;
use crate::pattern::regex_valid;
use crate::text::chars_of;
use crate::text::decimal_u32;
use crate::text::is_digit;
use crate::text::is_digit_char;
use crate::text::parse_u32;
use crate::text::push_char;
use crate::text::split_ascii_whitespace;
use crate::text::words;
use chrono::format::ParseError;
use chrono::Datelike;
use chrono::Days;
use chrono::NaiveDate;
use either::Either;
use vstd::prelude::*;
use vstd::std_specs::convert::FromSpecImpl;
use vstd::string::*;

verus! {

#[verifier::external_type_specification]
#[verifier::reject_recursive_types(L)]
#[verifier::reject_recursive_types(R)]
pub struct ExEither<L, R>(Either<L, R>);

#[verifier::external_type_specification]
#[verifier::external_body]
pub struct ExDateParseError(ParseError);

/// A calendar date as year, month and day.
pub type Ymd = (int, int, int);

/// The date that `chrono` reads at the start of `word` under `format`, with
/// whatever follows it in the word left aside; `None` where it reads none.
pub uninterp spec fn date_at_start(word: Seq<char>, format: Seq<char>) -> Option<Ymd>;

/// The date that `chrono` finds `days` days after the given one; `None` where
/// the given one is no date of the calendar or the result is out of its range.
pub uninterp spec fn date_after(year: int, month: int, day: int, days: int) -> Option<Ymd>;

/// How a date is written in an invoice: month, day and year, with slashes.
pub const DATE_FORMAT: &'static str = "%m/%d/%Y";

/// Payment terms such as "Net 30": the word, in any case, then the days.
pub const NET_TERMS: &'static str = "(?i)net\\s*(\\d+)";

/// What stands for a date that the service did not send.
pub const NO_DATE: &'static str = "No Date Available";

/// What stands for a total that the service did not send.
pub const NO_TOTAL: &'static str = "Unavailable";

/// The fields of an invoice as the service sends them: free text, any of
/// which may be missing.
#[derive(Debug)]
pub struct InvoiceResponse {
    pub invoice_no: Option<String>,
    pub vendor: Option<String>,
    pub acct_no: Option<String>,
    pub inv_date: Option<String>,
    pub due_date: Option<String>,
    pub total: Option<String>,
}

/// A day of the calendar.
#[derive(Clone, Copy, Debug, PartialEq, Eq, Structural)]
pub struct Date {
    pub year: i32,
    pub month: u32,
    pub day: u32,
}

impl Date {
    pub open spec fn ymd(self) -> Ymd {
        (self.year as int, self.month as int, self.day as int)
    }

    /// The month and the day are in the ranges that a calendar has.
    pub open spec fn wf(self) -> bool {
        1 <= self.month <= 12 && 1 <= self.day <= 31
    }
}

/// An amount of money, kept as the decimal numeral that was read: digits
/// with at most one decimal point among them.
#[derive(Debug)]
pub struct Amount {
    numeral: String,
}

/// The characters that an amount is written with.
pub open spec fn is_amount_char(c: char) -> bool {
    is_digit(c) || c == '.'
}

/// What is left of `s` when every character that is neither a digit nor a
/// decimal point is struck out.
pub open spec fn amount_chars(s: Seq<char>) -> Seq<char>
    decreases s.len(),
{
    if s.len() == 0 {
        Seq::empty()
    } else if is_amount_char(s.last()) {
        amount_chars(s.drop_last()).push(s.last())
    } else {
        amount_chars(s.drop_last())
    }
}

/// `s` has a decimal point somewhere.
pub open spec fn has_point(s: Seq<char>) -> bool {
    exists|i: int| 0 <= i < s.len() && s[i] == '.'
}

/// `s` has a decimal point in two places.
pub open spec fn has_two_points(s: Seq<char>) -> bool {
    exists|i: int, j: int| 0 <= i < j < s.len() && s[i] == '.' && s[j] == '.'
}

/// `s` has a digit somewhere.
pub open spec fn has_digit(s: Seq<char>) -> bool {
    exists|i: int| 0 <= i < s.len() && is_digit(s[i])
}

/// `s` is a decimal numeral: digits and decimal points only, at least one
/// digit, at most one point. These are the texts, among those made of digits
/// and points, that read as a floating-point number.
pub open spec fn is_numeral(s: Seq<char>) -> bool {
    &&& forall|i: int| 0 <= i < s.len() ==> is_amount_char(#[trigger] s[i])
    &&& has_digit(s)
    &&& !has_two_points(s)
}

impl Amount {
    #[verifier::type_invariant]
    spec fn well_formed(self) -> bool {
        is_numeral(self.numeral@)
    }

    pub closed spec fn spec_numeral(&self) -> Seq<char> {
        self.numeral@
    }

    /// The numeral, which is always a decimal numeral.
    pub fn numeral(&self) -> (s: &str)
        ensures
            s@ == self.spec_numeral(),
            is_numeral(s@),
    {
        proof {
            use_type_invariant(self);
        }
        self.numeral.as_str()
    }
}

/// A date, or the text in which none was found.
pub type DateOrRaw = Either<Ymd, Seq<char>>;

/// An amount's numeral, or the text in which none was found.
pub type AmountOrRaw = Either<Seq<char>, Seq<char>>;

pub open spec fn date_view(field: Either<Date, String>) -> DateOrRaw {
    match field {
        Either::Left(date) => Either::Left(date.ymd()),
        Either::Right(raw) => Either::Right(raw@),
    }
}

pub open spec fn amount_view(field: Either<Amount, String>) -> AmountOrRaw {
    match field {
        Either::Left(amount) => Either::Left(amount.spec_numeral()),
        Either::Right(raw) => Either::Right(raw@),
    }
}

pub open spec fn text_view(field: Option<String>) -> Option<Seq<char>> {
    match field {
        Some(text) => Some(text@),
        None => None,
    }
}

/// The fields of an invoice, read.
#[derive(Debug)]
pub struct InvoiceDetails {
    pub inv_no: Option<String>,
    pub vendor: Option<String>,
    pub acct_no: Option<String>,
    pub inv_date: Either<Date, String>,
    pub due_date: Either<Date, String>,
    pub total: Either<Amount, String>,
}

pub struct InvoiceResponseView {
    pub invoice_no: Option<Seq<char>>,
    pub vendor: Option<Seq<char>>,
    pub acct_no: Option<Seq<char>>,
    pub inv_date: Option<Seq<char>>,
    pub due_date: Option<Seq<char>>,
    pub total: Option<Seq<char>>,
}

pub struct InvoiceDetailsView {
    pub inv_no: Option<Seq<char>>,
    pub vendor: Option<Seq<char>>,
    pub acct_no: Option<Seq<char>>,
    pub inv_date: DateOrRaw,
    pub due_date: DateOrRaw,
    pub total: AmountOrRaw,
}

impl View for InvoiceResponse {
    type V = InvoiceResponseView;

    open spec fn view(&self) -> InvoiceResponseView {
        InvoiceResponseView {
            invoice_no: text_view(self.invoice_no),
            vendor: text_view(self.vendor),
            acct_no: text_view(self.acct_no),
            inv_date: text_view(self.inv_date),
            due_date: text_view(self.due_date),
            total: text_view(self.total),
        }
    }
}

impl View for InvoiceDetails {
    type V = InvoiceDetailsView;

    open spec fn view(&self) -> InvoiceDetailsView {
        InvoiceDetailsView {
            inv_no: text_view(self.inv_no),
            vendor: text_view(self.vendor),
            acct_no: text_view(self.acct_no),
            inv_date: date_view(self.inv_date),
            due_date: date_view(self.due_date),
            total: amount_view(self.total),
        }
    }
}

/// The date of the first word that starts with one.
pub open spec fn first_date(words: Seq<Seq<char>>) -> Option<Ymd>
    decreases words.len(),
{
    if words.len() == 0 {
        None
    } else {
        match date_at_start(words[0], DATE_FORMAT@) {
            Some(date) => Some(date),
            None => first_date(words.drop_first()),
        }
    }
}

/// A date field, read: the first date among the words of `s`, or `s` itself.
pub open spec fn date_or_raw(s: Seq<char>) -> DateOrRaw {
    match first_date(words(s)) {
        Some(date) => Either::Left(date),
        None => Either::Right(s),
    }
}

/// The number of days that the payment terms in `s` give, if `s` states
/// terms and the number fits in 32 bits.
pub open spec fn net_number(s: Seq<char>) -> Option<u32> {
    if regex_valid(NET_TERMS@, false) {
        match regex_group(NET_TERMS@, s, 1) {
            Some(digits) => decimal_u32(digits),
            None => None,
        }
    } else {
        None
    }
}

/// A due date that names no date: the invoice date moved on by the payment
/// terms, where there is an invoice date, `raw` states terms, and the
/// calendar reaches that far; else `raw` itself.
pub open spec fn due_from_terms(inv_date: DateOrRaw, raw: Seq<char>) -> DateOrRaw {
    match (inv_date, net_number(raw)) {
        (Either::Left(inv), Some(net)) => match date_after(inv.0, inv.1, inv.2, net as int) {
            Some(due) => Either::Left(due),
            None => Either::Right(raw),
        },
        _ => Either::Right(raw),
    }
}

/// A due-date field, read: a date written in it comes first, payment terms
/// second, the text itself last.
pub open spec fn due_or_raw(inv_date: DateOrRaw, s: Seq<char>) -> DateOrRaw {
    match date_or_raw(s) {
        Either::Left(date) => Either::Left(date),
        Either::Right(raw) => due_from_terms(inv_date, raw),
    }
}

/// A total field, read: the digits and points of `s`, if they make a
/// numeral, or `s` itself.
pub open spec fn amount_or_raw(s: Seq<char>) -> AmountOrRaw {
    if is_numeral(amount_chars(s)) {
        Either::Left(amount_chars(s))
    } else {
        Either::Right(s)
    }
}

/// The invoice read from a response, field by field.
pub open spec fn normalized(response: InvoiceResponseView) -> InvoiceDetailsView {
    let inv_date = match response.inv_date {
        Some(s) => date_or_raw(s),
        None => Either::Right(NO_DATE@),
    };
    InvoiceDetailsView {
        inv_no: response.invoice_no,
        vendor: response.vendor,
        acct_no: response.acct_no,
        inv_date,
        due_date: match response.due_date {
            Some(s) => due_or_raw(inv_date, s),
            None => Either::Right(NO_DATE@),
        },
        total: match response.total {
            Some(s) => amount_or_raw(s),
            None => Either::Right(NO_TOTAL@),
        },
    }
}

/// A response without a due date is read as having no date available,
/// whatever its other fields hold.
pub proof fn lemma_absent_due_date(response: InvoiceResponseView)
    requires
        response.due_date is None,
    ensures
        normalized(response).due_date == Either::<Ymd, Seq<char>>::Right(NO_DATE@),
{
}

/// Payment terms stand in for a due date that is not written out: when the
/// due-date text holds no date but states terms of `net` days, and the
/// invoice date was read, the due date is the invoice date moved on by `net`
/// days, as far as the calendar reaches.
pub proof fn lemma_due_date_from_net_terms(
    response: InvoiceResponseView,
    due: Seq<char>,
    invoice_date: Ymd,
    net: u32,
    later: Ymd,
)
    requires
        response.due_date == Some(due),
        first_date(words(due)) is None,
        net_number(due) == Some(net),
        normalized(response).inv_date == Either::<Ymd, Seq<char>>::Left(invoice_date),
        date_after(invoice_date.0, invoice_date.1, invoice_date.2, net as int) == Some(later),
    ensures
        normalized(response).due_date == Either::<Ymd, Seq<char>>::Left(later),
{
}

/// Reading never loses a field: a date or a total that cannot be read keeps
/// the text that was sent.
pub proof fn lemma_unread_fields_keep_their_text(response: InvoiceResponseView)
    ensures
        response.inv_date matches Some(text) ==> (normalized(response).inv_date matches Either::Right(
            raw,
        ) ==> raw == text),
        response.due_date matches Some(text) ==> (normalized(response).due_date matches Either::Right(
            raw,
        ) ==> raw == text),
        response.total matches Some(text) ==> (normalized(response).total matches Either::Right(
            raw,
        ) ==> raw == text),
{
}

/// Every date in a read field has its month and day in range.
pub open spec fn dates_wf(field: Either<Date, String>) -> bool {
    field matches Either::Left(date) ==> date.wf()
}

/// `NaiveDate::parse_and_remainder` of `chrono`, with the date handed back as
/// year, month and day (`Datelike::year`, `month`, `day`) and the remainder
/// dropped. Which date is read depends on the arguments alone and is only
/// named; the month is in `1..=12` and the day in `1..=31`.
#[verifier::external_body]
fn date_prefix(word: &str, format: &str) -> (r: Result<Date, ParseError>)
    ensures
        r is Ok <==> date_at_start(word@, format@) is Some,
        r matches Ok(date) ==> Some(date.ymd()) == date_at_start(word@, format@) && date.wf(),
{
    let (found, _) = NaiveDate::parse_and_remainder(word, format)?;
    Ok(Date { year: found.year(), month: found.month(), day: found.day() })
}

/// `NaiveDate::from_ymd_opt` of `chrono`, then `checked_add_days`, with the
/// date handed back as year, month and day. Which date comes out depends on
/// the arguments alone and is only named; the month is in `1..=12` and the
/// day in `1..=31`.
#[verifier::external_body]
fn add_days(date: Date, days: u64) -> (r: Option<Date>)
    ensures
        r is Some <==> date_after(date.year as int, date.month as int, date.day as int, days as int)
            is Some,
        r matches Some(later) ==> Some(later.ymd()) == date_after(
            date.year as int,
            date.month as int,
            date.day as int,
            days as int,
        ) && later.wf(),
{
    let given = NaiveDate::from_ymd_opt(date.year, date.month, date.day)?;
    let later = given.checked_add_days(Days::new(days))?;
    Some(Date { year: later.year(), month: later.month(), day: later.day() })
}

/// Parses the date from a given string: the first word that starts with a
/// date decides; if no word does, the string is handed back.
pub fn parse_date_from_str(s: String) -> (r: Either<Date, String>)
    ensures
        date_view(r) == date_or_raw(s@),
        dates_wf(r),
        r matches Either::Right(raw) ==> raw == s,
{
    let found = first_date_in(s.as_str());
    match found {
        Some(date) => Either::Left(date),
        None => Either::Right(s),
    }
}

/// The date of the first word of `s` that starts with one.
fn first_date_in(s: &str) -> (r: Option<Date>)
    ensures
        r is Some <==> first_date(words(s@)) is Some,
        r matches Some(date) ==> Some(date.ymd()) == first_date(words(s@)) && date.wf(),
{
    let ws = split_ascii_whitespace(s);
    let ghost all = words(s@);
    let mut k: usize = 0;
    assert(all.skip(0) == all);
    while k < ws.len()
        invariant
            k <= ws.len(),
            all == words(s@),
            ws@.len() == all.len(),
            forall|j: int| 0 <= j < ws@.len() ==> (#[trigger] ws@[j])@ == all[j],
            first_date(all) == first_date(all.skip(k as int)),
        decreases ws.len() - k,
    {
        proof {
            assert(all.skip(k as int)[0] == all[k as int]);
            assert(all.skip(k as int).drop_first() == all.skip(k + 1));
        }
        match date_prefix(ws[k], DATE_FORMAT) {
            Ok(date) => {
                return Some(date);
            },
            Err(_) => {},
        }
        k += 1;
    }
    None
}

/// The number of days in payment terms such as "Net 30", where `s` states
/// such terms.
pub fn extract_net_number(s: &str) -> (r: Option<u32>)
    ensures
        r == net_number(s@),
{
    match first_group(NET_TERMS, s, 1) {
        Ok(Some(digits)) => parse_u32(digits.as_str()),
        Ok(None) => None,
        Err(_) => None,
    }
}

/// Parse the total amount due: whatever is neither digit nor decimal point
/// is struck out, and what is left is kept if it is a numeral; if not, the
/// string is handed back.
pub fn parse_f64_from_str(s: String) -> (r: Either<Amount, String>)
    ensures
        amount_view(r) == amount_or_raw(s@),
        r matches Either::Right(raw) ==> raw == s,
{
    let cs = chars_of(s.as_str());
    let mut kept = String::new();
    let mut digit: bool = false;
    let mut point: bool = false;
    let mut points: bool = false;
    let mut i: usize = 0;
    while i < cs.len()
        invariant
            cs@ == s@,
            i <= cs.len(),
            kept@ == amount_chars(cs@.take(i as int)),
            forall|j: int| 0 <= j < kept@.len() ==> is_amount_char(#[trigger] kept@[j]),
            digit == has_digit(kept@),
            point == has_point(kept@),
            points == has_two_points(kept@),
        decreases cs.len() - i,
    {
        let c = cs[i];
        let ghost before = kept@;
        proof {
            assert(cs@.take(i + 1).drop_last() == cs@.take(i as int));
            assert(cs@.take(i + 1).last() == c);
        }
        if is_digit_char(c) {
            push_char(&mut kept, c);
            digit = true;
            proof {
                lemma_pushed(before, c);
                assert(is_digit(kept@[before.len() as int]));
            }
        } else if c == '.' {
            push_char(&mut kept, c);
            points = points || point;
            point = true;
            proof {
                lemma_pushed(before, c);
                assert(kept@[before.len() as int] == '.');
            }
        }
        i += 1;
    }
    assert(cs@.take(i as int) == cs@);
    if digit && !points {
        Either::Left(Amount { numeral: kept })
    } else {
        Either::Right(s)
    }
}

/// What one more character does to the three things that make a numeral.
proof fn lemma_pushed(s: Seq<char>, c: char)
    ensures
        has_digit(s.push(c)) == (has_digit(s) || is_digit(c)),
        has_point(s.push(c)) == (has_point(s) || c == '.'),
        has_two_points(s.push(c)) == (has_two_points(s) || (has_point(s) && c == '.')),
{
    let t = s.push(c);
    let last = s.len() as int;
    assert(t[last] == c);
    assert forall|i: int| 0 <= i < s.len() implies t[i] == s[i] by {}
    if has_digit(s) {
        let i = choose|i: int| 0 <= i < s.len() && is_digit(s[i]);
        assert(is_digit(t[i]));
    }
    if has_point(s) {
        let i = choose|i: int| 0 <= i < s.len() && s[i] == '.';
        assert(t[i] == '.');
        if c == '.' {
            assert(0 <= i < last < t.len() && t[i] == '.' && t[last] == '.');
        }
    }
    if has_two_points(s) {
        let (i, j) = choose|i: int, j: int| 0 <= i < j < s.len() && s[i] == '.' && s[j] == '.';
        assert(0 <= i < j < t.len() && t[i] == '.' && t[j] == '.');
    }
    if has_digit(t) {
        let i = choose|i: int| 0 <= i < t.len() && is_digit(t[i]);
        if i < last {
            assert(is_digit(s[i]));
        }
    }
    if has_point(t) {
        let i = choose|i: int| 0 <= i < t.len() && t[i] == '.';
        if i < last {
            assert(s[i] == '.');
        }
    }
    if has_two_points(t) {
        let (i, j) = choose|i: int, j: int| 0 <= i < j < t.len() && t[i] == '.' && t[j] == '.';
        assert(s[i] == '.');
        if j < last {
            assert(s[j] == '.');
        }
    }
}

/// A due date that names no date, read from the payment terms in `raw`.
fn due_date_from_terms(inv_date: &Either<Date, String>, raw: String) -> (r: Either<Date, String>)
    requires
        dates_wf(*inv_date),
    ensures
        date_view(r) == due_from_terms(date_view(*inv_date), raw@),
        dates_wf(r),
{
    let net = extract_net_number(raw.as_str());
    match (inv_date, net) {
        (Either::Left(inv), Some(days)) => match add_days(*inv, days as u64) {
            Some(due) => Either::Left(due),
            None => Either::Right(raw),
        },
        _ => Either::Right(raw),
    }
}

impl From<InvoiceResponse> for InvoiceDetails {
    /// Reads an invoice from a response. Every field comes out: one that
    /// cannot be read keeps its text, one that is missing gets a fixed text.
    fn from(value: InvoiceResponse) -> (ret: InvoiceDetails)
        ensures
            ret@ == normalized(value@),
            dates_wf(ret.inv_date),
            dates_wf(ret.due_date),
    {
        let InvoiceResponse { invoice_no, vendor, acct_no, inv_date, due_date, total } = value;
        let inv_date = match inv_date {
            Some(s) => parse_date_from_str(s),
            None => Either::Right(String::from_str(NO_DATE)),
        };
        let due_date = match due_date {
            Some(s) => match parse_date_from_str(s) {
                Either::Right(raw) => due_date_from_terms(&inv_date, raw),
                Either::Left(date) => Either::Left(date),
            },
            None => Either::Right(String::from_str(NO_DATE)),
        };
        let total = match total {
            Some(s) => parse_f64_from_str(s),
            None => Either::Right(String::from_str(NO_TOTAL)),
        };
        InvoiceDetails { inv_no: invoice_no, vendor, acct_no, inv_date, due_date, total }
    }
}

/// The conversion is described by `normalized`, over views. A value of this
/// type holds strings, which no specification can build, so the conversion
/// has no value-level description and claims none.
impl FromSpecImpl<InvoiceResponse> for InvoiceDetails {
    open spec fn obeys_from_spec() -> bool {
        false
    }

    open spec fn from_spec(v: InvoiceResponse) -> InvoiceDetails {
        arbitrary()
    }
}

} // verus!
