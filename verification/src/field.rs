//! Reading the value of a single field from its text: the yes/no codes of
//! the service, and its dates and times.

use crate::date::{parse_date, parse_date_time, parsed_date, parsed_date_time, Date, DateTime};
use crate::text::read_view;
use vstd::prelude::*;
use vstd::string::StringExecFns;

verus! {

/// Why the text of a field is no value of the field's type.
#[derive(Debug, Clone, PartialEq, Eq)]
pub enum FieldError {
    /// The text is neither of the two codes of a yes/no field.
    Flag { text: String },
    /// The text is no date or time; the reason is the date reader's.
    Date { reason: String },
}

/// The mathematical value of a [`FieldError`].
pub ghost enum FieldErrorView {
    Flag { text: Seq<char> },
    Date { reason: Seq<char> },
}

impl View for FieldError {
    type V = FieldErrorView;

    open spec fn view(&self) -> FieldErrorView {
        match self {
            FieldError::Flag { text } => FieldErrorView::Flag { text: text@ },
            FieldError::Date { reason } => FieldErrorView::Date { reason: reason@ },
        }
    }
}

/// The message for a field error. For a yes/no field it quotes the text at
/// fault; for a date or time it is the date reader's reason.
pub open spec fn message(error: FieldErrorView) -> Seq<char> {
    match error {
        FieldErrorView::Flag { text } => "failed to parse `"@ + text + "` to bool"@,
        FieldErrorView::Date { reason } => reason,
    }
}

impl FieldError {
    /// The error as a message for the user.
    pub fn to_string(&self) -> (text: String)
        ensures
            text@ == message(self@),
    {
        match self {
            FieldError::Flag { text } => {
                let mut out = "failed to parse `".to_owned();
                out.append(text.as_str());
                out.append("` to bool");
                out
            },
            FieldError::Date { reason } => reason.clone(),
        }
    }
}

/// The outcome of reading a field, with the error as its mathematical
/// value.
pub open spec fn field_view<T>(read: Result<T, FieldError>) -> Result<T, FieldErrorView> {
    match read {
        Ok(value) => Ok(value),
        Err(error) => Err(error@),
    }
}

/// The value of a yes/no field whose two codes are `yes` and `no`: any
/// other text is refused.
pub open spec fn flag_of(text: Seq<char>, yes: Seq<char>, no: Seq<char>) -> Result<
    Option<bool>,
    FieldErrorView,
> {
    if text == yes {
        Ok(Some(true))
    } else if text == no {
        Ok(Some(false))
    } else {
        Err(FieldErrorView::Flag { text })
    }
}

/// The text that stands in a date field for "no date": eight zeros.
pub open spec fn no_date() -> Seq<char> {
    seq!['0', '0', '0', '0', '0', '0', '0', '0']
}

/// The format of a date field: year, month and day as digits, with nothing
/// between them.
pub open spec fn date_format() -> Seq<char> {
    seq!['%', 'Y', '%', 'm', '%', 'd']
}

/// The format of a date-and-time field: year, month, day, hour, minute and
/// second as digits, with nothing between them.
pub open spec fn date_time_format() -> Seq<char> {
    seq!['%', 'Y', '%', 'm', '%', 'd', '%', 'H', '%', 'M', '%', 'S']
}

/// The value of a date field with the given text, where `read` is what the
/// date reader made of the text: eight zeros stand for no date, whatever
/// the reader says of them; any other text is what the reader made of it.
pub open spec fn date_of(text: Seq<char>, read: Result<Date, Seq<char>>) -> Result<
    Option<Date>,
    FieldErrorView,
> {
    if text == no_date() {
        Ok(None)
    } else {
        match read {
            Ok(date) => Ok(Some(date)),
            Err(reason) => Err(FieldErrorView::Date { reason }),
        }
    }
}

/// The value of a date-and-time field, where `read` is what the date reader
/// made of its text.
pub open spec fn date_time_of(read: Result<DateTime, Seq<char>>) -> Result<
    DateTime,
    FieldErrorView,
> {
    match read {
        Ok(moment) => Ok(moment),
        Err(reason) => Err(FieldErrorView::Date { reason }),
    }
}

fn same_text(a: &str, b: &str) -> (same: bool)
    ensures
        same == (a@ == b@),
{
    a.to_owned() == b.to_owned()
}

fn flag(text: &str, yes: &str, no: &str) -> (read: Result<Option<bool>, FieldError>)
    ensures
        field_view(read) == flag_of(text@, yes@, no@),
{
    if same_text(text, yes) {
        Ok(Some(true))
    } else if same_text(text, no) {
        Ok(Some(false))
    } else {
        Err(FieldError::Flag { text: text.to_owned() })
    }
}

/// Reads a field that says whether something is settled or still going on:
/// `0` is yes, `1` is no.
pub fn de_bool_opt(s: &str) -> (read: Result<Option<bool>, FieldError>)
    ensures
        field_view(read) == flag_of(s@, seq!['0'], seq!['1']),
{
    proof {
        reveal_strlit("0");
        reveal_strlit("1");
        assert("0"@ =~= seq!['0']);
        assert("1"@ =~= seq!['1']);
    }
    flag(s, "0", "1")
}

/// Reads a field that says whether a guide is complete: `1` is yes, `2` is
/// no.
pub fn de_completion(s: &str) -> (read: Result<Option<bool>, FieldError>)
    ensures
        field_view(read) == flag_of(s@, seq!['1'], seq!['2']),
{
    proof {
        reveal_strlit("1");
        reveal_strlit("2");
        assert("1"@ =~= seq!['1']);
        assert("2"@ =~= seq!['2']);
    }
    flag(s, "1", "2")
}

/// Settles the value of a date field from its text and from what the date
/// reader made of that text.
pub fn date_field(s: &str, read: Result<Date, String>) -> (value: Result<Option<Date>, FieldError>)
    ensures
        field_view(value) == date_of(s@, read_view(read)),
{
    proof {
        reveal_strlit("00000000");
        assert("00000000"@ =~= no_date());
    }
    if same_text(s, "00000000") {
        Ok(None)
    } else {
        match read {
            Ok(date) => Ok(Some(date)),
            Err(reason) => Err(FieldError::Date { reason }),
        }
    }
}

/// Reads a date field. Eight zeros stand for no date; any other text is
/// read by `chrono` as year, month and day.
pub fn de_date_opt(s: &str) -> (value: Result<Option<Date>, FieldError>)
    ensures
        field_view(value) == date_of(s@, parsed_date(s@, date_format())),
{
    proof {
        reveal_strlit("%Y%m%d");
        assert("%Y%m%d"@ =~= date_format());
    }
    date_field(s, parse_date(s, "%Y%m%d"))
}

/// Settles the value of a date-and-time field from what the date reader
/// made of its text.
pub fn date_time_field(read: Result<DateTime, String>) -> (value: Result<DateTime, FieldError>)
    ensures
        field_view(value) == date_time_of(read_view(read)),
{
    match read {
        Ok(moment) => Ok(moment),
        Err(reason) => Err(FieldError::Date { reason }),
    }
}

/// Reads a date-and-time field: the text is read by `chrono` as year,
/// month, day, hour, minute and second.
pub fn de_datetime(s: &str) -> (value: Result<DateTime, FieldError>)
    ensures
        field_view(value) == date_time_of(parsed_date_time(s@, date_time_format())),
{
    proof {
        reveal_strlit("%Y%m%d%H%M%S");
        assert("%Y%m%d%H%M%S"@ =~= date_time_format());
    }
    date_time_field(parse_date_time(s, "%Y%m%d%H%M%S"))
}

} // verus!
