//! The decisions of the command-line client.
//!
//! The client takes an action (`get` or `set`), a standard in which to
//! write the time, and, for `set`, the time to set. It sets the clock where
//! asked, then reads the clock and writes the time. What it is asked to do
//! is decided here, before the clock is touched; reading the arguments and
//! touching the clock are left to the program.

use vstd::prelude::*;
use vstd::string::StringExecFns;
use crate::text::{DatetimeError, Standard};
use crate::timestamp::{CalendarTimestamp, Instant};

verus! {

/// What the client is asked to do.
#[derive(Clone, Copy, Debug, PartialEq, Eq)]
pub enum Action {
    /// Read the clock and write the time.
    GetTime,
    /// Set the clock, then read it and write the time.
    SetTime,
}

/// A request that can be carried out.
#[derive(Clone, Copy, Debug, PartialEq, Eq)]
pub enum Request {
    /// Write the time in the standard.
    GetTime(Standard),
    /// Set the clock to the instant, then write the time in the standard.
    SetTime(Standard, CalendarTimestamp),
}

/// Why the arguments are no request.
#[derive(Clone, Copy, Debug, PartialEq, Eq)]
pub enum CliError {
    /// The action is `set` and no datetime was given.
    MissingDatetime,
    /// The format selector names no standard.
    UnknownStandard,
    /// The datetime could not be read in the standard.
    Datetime(DatetimeError),
}

/// The value of a [`Request`]: the same request over the value of its
/// instant.
pub enum RequestView {
    /// See [`Request::GetTime`].
    GetTime(Standard),
    /// See [`Request::SetTime`].
    SetTime(Standard, Instant),
}

impl View for Request {
    type V = RequestView;

    open spec fn view(&self) -> RequestView {
        match *self {
            Request::GetTime(std) => RequestView::GetTime(std),
            Request::SetTime(std, target) => RequestView::SetTime(std, target@),
        }
    }
}

impl Action {
    /// The action that a selector names: `set` is [`Action::SetTime`], and
    /// every other text is [`Action::GetTime`].
    pub open spec fn spec_parse(selector: Seq<char>) -> Action {
        if selector == "set"@ {
            Action::SetTime
        } else {
            Action::GetTime
        }
    }

    /// Reads an action selector.
    pub fn parse(selector: &str) -> (r: Action)
        ensures
            r == Self::spec_parse(selector@),
    {
        let given = selector.to_owned();
        let set = "set".to_owned();
        if given == set {
            Action::SetTime
        } else {
            Action::GetTime
        }
    }
}

/// What [`plan`] returns, over the values of the instants.
///
/// For `set` the datetime is looked for first, then the standard, then the
/// datetime is read; the first of these that fails is the error.
pub open spec fn spec_plan(action: Seq<char>, std: Seq<char>, datetime: Option<Seq<char>>) -> Result<
    RequestView,
    CliError,
> {
    match Action::spec_parse(action) {
        Action::GetTime => match Standard::spec_parse(std) {
            None => Err(CliError::UnknownStandard),
            Some(standard) => Ok(RequestView::GetTime(standard)),
        },
        Action::SetTime => match datetime {
            None => Err(CliError::MissingDatetime),
            Some(text) => match Standard::spec_parse(std) {
                None => Err(CliError::UnknownStandard),
                Some(standard) => match standard.spec_parse_datetime(text) {
                    Err(e) => Err(CliError::Datetime(e)),
                    Ok(target) => Ok(RequestView::SetTime(standard, target)),
                },
            },
        },
    }
}

/// The texts of an optional argument.
pub open spec fn text_of(argument: Option<&str>) -> Option<Seq<char>> {
    match argument {
        None => None,
        Some(text) => Some(text@),
    }
}

/// Decides what the arguments ask for, before anything is done.
///
/// A datetime given with `get` is ignored.
pub fn plan(action: &str, std: &str, datetime: Option<&str>) -> (r: Result<Request, CliError>)
    ensures
        match r {
            Ok(request) => spec_plan(action@, std@, text_of(datetime)) == Ok::<
                RequestView,
                CliError,
            >(request@),
            Err(e) => spec_plan(action@, std@, text_of(datetime)) == Err::<RequestView, CliError>(
                e,
            ),
        },
{
    match Action::parse(action) {
        Action::GetTime => match Standard::parse(std) {
            None => Err(CliError::UnknownStandard),
            Some(standard) => Ok(Request::GetTime(standard)),
        },
        Action::SetTime => match datetime {
            None => Err(CliError::MissingDatetime),
            Some(text) => match Standard::parse(std) {
                None => Err(CliError::UnknownStandard),
                Some(standard) => match standard.parse_datetime(text) {
                    Err(e) => Err(CliError::Datetime(e)),
                    Ok(target) => Ok(Request::SetTime(standard, target)),
                },
            },
        },
    }
}

impl CliError {
    /// The text of [`CliError::message`] for selector `std` and datetime
    /// `datetime`.
    pub open spec fn spec_message(self, std: Seq<char>, datetime: Seq<char>) -> Seq<char> {
        match self {
            CliError::MissingDatetime => "`--datetime` is required when using `--action set`"@,
            CliError::UnknownStandard => "Unknown standard "@ + std,
            CliError::Datetime(_) => "Unable to parse "@ + datetime + " according to "@ + std,
        }
    }

    /// What to tell the user: for a datetime that could not be read, the
    /// datetime and the standard it was read in.
    pub fn message(&self, std: &str, datetime: &str) -> (text: String)
        ensures
            text@ == self.spec_message(std@, datetime@),
    {
        match self {
            CliError::MissingDatetime => String::from_str(
                "`--datetime` is required when using `--action set`",
            ),
            CliError::UnknownStandard => String::from_str("Unknown standard ").concat(std),
            CliError::Datetime(_) => String::from_str("Unable to parse ").concat(datetime).concat(
                " according to ",
            ).concat(std),
        }
    }
}

} // verus!
