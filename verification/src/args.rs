//! The arguments of the administrative commands: a label alone, a list, or
//! named members, read into one form for each command.

use vstd::prelude::*;
use vstd::string::*;
use crate::json::{item, member, text_of, unsigned_of, JsonValue};
use crate::period::{
    captured,
    parse_time_period,
    period_pattern,
    period_read,
    PeriodError,
};

verus! {

/// Why the arguments of a command were refused.
#[derive(Clone, Copy, Debug, PartialEq, Eq, Structural)]
pub enum ArgsError {
    /// The arguments are neither a text, nor a list, nor named members.
    InvalidType,
    /// No label is given.
    LabelMissing,
    /// The label is no text.
    LabelNotString,
    /// The budget is no unsigned integer.
    BudgetNotInteger,
    /// The interval is no text.
    IntervalNotString,
    /// The interval is no period of time.
    Interval(PeriodError),
    /// An interval is given without a budget.
    IntervalWithoutBudget,
    /// An interval is given with a budget of zero.
    ZeroBudgetWithInterval,
}

/// The message that goes with an [`ArgsError`]; that of an interval which
/// is no period of time is made from the interval itself.
pub fn args_error_message(error: ArgsError) -> (r: String)
    ensures
        r@ == match error {
            ArgsError::InvalidType => "Invalid argument type"@,
            ArgsError::LabelMissing => "label missing"@,
            ArgsError::LabelNotString => "label is not a string"@,
            ArgsError::BudgetNotInteger => "budget_msat is not an integer"@,
            ArgsError::IntervalNotString => "interval is not a string"@,
            ArgsError::Interval(_) => "interval is not a period of time"@,
            ArgsError::IntervalWithoutBudget => "Must set `budget_msat` if you use `interval`"@,
            ArgsError::ZeroBudgetWithInterval => "`budget_msat` must be greater than 0 if you use `interval`"@,
        },
{
    match error {
        ArgsError::InvalidType => "Invalid argument type".to_owned(),
        ArgsError::LabelMissing => "label missing".to_owned(),
        ArgsError::LabelNotString => "label is not a string".to_owned(),
        ArgsError::BudgetNotInteger => "budget_msat is not an integer".to_owned(),
        ArgsError::IntervalNotString => "interval is not a string".to_owned(),
        ArgsError::Interval(_) => "interval is not a period of time".to_owned(),
        ArgsError::IntervalWithoutBudget => "Must set `budget_msat` if you use `interval`".to_owned(),
        ArgsError::ZeroBudgetWithInterval => "`budget_msat` must be greater than 0 if you use `interval`".to_owned(),
    }
}

/// The three places of a command's arguments, where the arguments are a
/// list or named members: the label, the budget and the interval.
pub open spec fn places(args: JsonValue) -> Option<
    (Option<JsonValue>, Option<JsonValue>, Option<JsonValue>),
> {
    match args {
        JsonValue::Array(_) => Some((item(args, 0), item(args, 1), item(args, 2))),
        JsonValue::Object(_) => Some(
            (member(args, "label"@), member(args, "budget_msat"@), member(args, "interval"@)),
        ),
        _ => None,
    }
}

/// The label of a command that must have one.
pub open spec fn label_required(args: JsonValue) -> Result<Seq<char>, ArgsError> {
    match args {
        JsonValue::Text(s) => Ok(s@),
        _ => match places(args) {
            None => Err(ArgsError::InvalidType),
            Some((None, _, _)) => Err(ArgsError::LabelMissing),
            Some((Some(v), _, _)) => match text_of(v) {
                Some(s) => Ok(s),
                None => Err(ArgsError::LabelNotString),
            },
        },
    }
}

/// The label of a command that may go without one.
pub open spec fn label_optional(args: JsonValue) -> Result<Option<Seq<char>>, ArgsError> {
    match args {
        JsonValue::Text(s) => Ok(Some(s@)),
        _ => match places(args) {
            None => Err(ArgsError::InvalidType),
            Some((None, _, _)) => Ok(None),
            Some((Some(v), _, _)) => match text_of(v) {
                Some(s) => Ok(Some(s)),
                None => Err(ArgsError::LabelNotString),
            },
        },
    }
}

/// Label, budget and interval as they stand in the arguments, the
/// interval still as text.
pub struct RawArgs {
    pub label: String,
    pub budget_msat: Option<u64>,
    pub interval: Option<String>,
}

/// The view of [`RawArgs`].
pub struct RawArgsView {
    pub label: Seq<char>,
    pub budget_msat: Option<u64>,
    pub interval: Option<Seq<char>>,
}

impl DeepView for RawArgs {
    type V = RawArgsView;

    open spec fn deep_view(&self) -> RawArgsView {
        RawArgsView {
            label: self.label@,
            budget_msat: self.budget_msat,
            interval: self.interval.deep_view(),
        }
    }
}

/// Label, budget and interval as they stand in the arguments. A text
/// alone is a label; in a list they stand in this order; among named
/// members they are `label`, `budget_msat` and `interval`. The label must
/// be there and be a text, the budget an unsigned integer, the interval a
/// text.
pub open spec fn raw_args(args: JsonValue) -> Result<RawArgsView, ArgsError> {
    match label_required(args) {
        Err(e) => Err(e),
        Ok(label) => match places(args) {
            None => Ok(RawArgsView { label, budget_msat: None, interval: None }),
            Some((_, budget, interval)) => if budget is Some && unsigned_of(budget->0) is None {
                Err(ArgsError::BudgetNotInteger)
            } else if interval is Some && text_of(interval->0) is None {
                Err(ArgsError::IntervalNotString)
            } else {
                Ok(
                    RawArgsView {
                        label,
                        budget_msat: match budget {
                            Some(b) => unsigned_of(b),
                            None => None,
                        },
                        interval: match interval {
                            Some(t) => text_of(t),
                            None => None,
                        },
                    },
                )
            },
        },
    }
}

/// One side of a result by its view, the error as it is.
pub open spec fn viewed<T: DeepView, E>(r: Result<T, E>) -> Result<T::V, E> {
    match r {
        Ok(v) => Ok(v.deep_view()),
        Err(e) => Err(e),
    }
}

/// A borrowed value, where there is one, is the value that was looked for.
pub open spec fn same(found: Option<&JsonValue>, wanted: Option<JsonValue>) -> bool {
    match found {
        Some(v) => wanted == Some(*v),
        None => wanted is None,
    }
}

fn three_places(args: &JsonValue) -> (r: Option<
    (Option<&JsonValue>, Option<&JsonValue>, Option<&JsonValue>),
>)
    ensures
        match (r, places(*args)) {
            (Some((a, b, c)), Some((x, y, z))) => same(a, x) && same(b, y) && same(c, z),
            (None, None) => true,
            _ => false,
        },
{
    match args {
        JsonValue::Array(_) => Some((args.at(0), args.at(1), args.at(2))),
        JsonValue::Object(_) => Some(
            (args.get("label"), args.get("budget_msat"), args.get("interval")),
        ),
        _ => None,
    }
}

/// Reads the label of a command that must have one.
pub fn parse_revoke_args(args: &JsonValue) -> (r: Result<String, ArgsError>)
    ensures
        viewed(r) == label_required(*args),
{
    match args {
        JsonValue::Text(s) => Ok(s.clone()),
        _ => match three_places(args) {
            None => Err(ArgsError::InvalidType),
            Some((None, _, _)) => Err(ArgsError::LabelMissing),
            Some((Some(v), _, _)) => match v.as_str() {
                Some(s) => Ok(s.clone()),
                None => Err(ArgsError::LabelNotString),
            },
        },
    }
}

/// Reads the label of a command that may go without one.
pub fn parse_list_args(args: &JsonValue) -> (r: Result<Option<String>, ArgsError>)
    ensures
        viewed(r) == label_optional(*args),
{
    match args {
        JsonValue::Text(s) => Ok(Some(s.clone())),
        _ => match three_places(args) {
            None => Err(ArgsError::InvalidType),
            Some((None, _, _)) => Ok(None),
            Some((Some(v), _, _)) => match v.as_str() {
                Some(s) => Ok(Some(s.clone())),
                None => Err(ArgsError::LabelNotString),
            },
        },
    }
}

/// Reads label, budget and interval as they stand in the arguments.
pub fn parse_raw_args(args: &JsonValue) -> (r: Result<RawArgs, ArgsError>)
    ensures
        viewed(r) == raw_args(*args),
{
    let label = match parse_revoke_args(args) {
        Ok(l) => l,
        Err(e) => {
            return Err(e);
        },
    };
    match three_places(args) {
        None => Ok(RawArgs { label, budget_msat: None, interval: None }),
        Some((_, budget, interval)) => {
            let budget_msat = match budget {
                Some(b) => match b.as_u64() {
                    Some(n) => Some(n),
                    None => {
                        return Err(ArgsError::BudgetNotInteger);
                    },
                },
                None => None,
            };
            let interval_text = match interval {
                Some(t) => match t.as_str() {
                    Some(s) => Some(s.clone()),
                    None => {
                        return Err(ArgsError::IntervalNotString);
                    },
                },
                None => None,
            };
            Ok(RawArgs { label, budget_msat, interval: interval_text })
        },
    }
}

/// Label, budget and interval of a command, once the interval is read: an
/// interval that is no period is refused, and so is one without a budget
/// or with a budget of zero.
pub open spec fn settled_args(
    label: Seq<char>,
    budget_msat: Option<u64>,
    interval: Option<Result<u64, PeriodError>>,
) -> Result<(Seq<char>, Option<u64>, Option<u64>), ArgsError> {
    match interval {
        None => Ok((label, budget_msat, None)),
        Some(Err(e)) => Err(ArgsError::Interval(e)),
        Some(Ok(secs)) => if budget_msat is None {
            Err(ArgsError::IntervalWithoutBudget)
        } else if budget_msat->0 == 0 {
            Err(ArgsError::ZeroBudgetWithInterval)
        } else {
            Ok((label, budget_msat, Some(secs)))
        },
    }
}

/// Settles label, budget and interval of a command, once the interval is read.
pub fn settle_full_args(
    label: String,
    budget_msat: Option<u64>,
    interval: Option<Result<u64, PeriodError>>,
) -> (r: Result<(String, Option<u64>, Option<u64>), ArgsError>)
    ensures
        viewed(r) == settled_args(label@, budget_msat, interval),
        r matches Ok(found) ==> crate::budget::budget_request_fits(found.1, found.2),
{
    match interval {
        None => Ok((label, budget_msat, None)),
        Some(Err(e)) => Err(ArgsError::Interval(e)),
        Some(Ok(secs)) => match budget_msat {
            None => Err(ArgsError::IntervalWithoutBudget),
            Some(b) => {
                if b == 0 {
                    Err(ArgsError::ZeroBudgetWithInterval)
                } else {
                    Ok((label, budget_msat, Some(secs)))
                }
            },
        },
    }
}

/// Label, budget and interval of a command, as its arguments give them.
pub open spec fn full_args(args: JsonValue) -> Result<
    (Seq<char>, Option<u64>, Option<u64>),
    ArgsError,
> {
    match raw_args(args) {
        Err(e) => Err(e),
        Ok(raw) => settled_args(
            raw.label,
            raw.budget_msat,
            match raw.interval {
                Some(text) => Some(period_read(captured(period_pattern(), text))),
                None => None,
            },
        ),
    }
}

/// Reads label, budget and interval of a command from its arguments.
pub fn parse_full_args(args: &JsonValue) -> (r: Result<
    (String, Option<u64>, Option<u64>),
    ArgsError,
>)
    ensures
        viewed(r) == full_args(*args),
        r matches Ok(found) ==> crate::budget::budget_request_fits(found.1, found.2),
{
    let raw = match parse_raw_args(args) {
        Ok(raw) => raw,
        Err(e) => {
            return Err(e);
        },
    };
    let interval = match &raw.interval {
        Some(text) => Some(parse_time_period(text.as_str())),
        None => None,
    };
    settle_full_args(raw.label, raw.budget_msat, interval)
}

} // verus!
