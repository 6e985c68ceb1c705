//! Power plans as the operating system lists them, and the question whether
//! a plan id resolves to one of them.

use crate::scan::contains;
use crate::scan::fields_in_span;
use crate::scan::fields_of;
use crate::scan::find;
use crate::scan::find_char;
use crate::scan::find_char_in_span;
use crate::scan::find_in_span;
use crate::scan::lines_in_span;
use crate::scan::lines_of;
use crate::scan::rfind_char;
use crate::scan::rfind_char_in_span;
use crate::scan::span_texts;
use crate::scan::trim_span;
use crate::scan::trim_trailing_span;
use crate::scan::trimmed;
use crate::scan::without_trailing;
use crate::scan::Span;
use crate::text::eq_ignoring_ascii_case;
use crate::text::same_ignoring_ascii_case;
use crate::text::to_chars;
use vstd::prelude::*;
use vstd::string::StrSliceExecFns;

verus! {

/// One power plan of the operating system.
#[derive(Debug)]
pub struct PowerPlan {
    pub guid: String,
    pub name: String,
    pub is_active: bool,
}

/// A power plan as specifications see it.
pub struct PowerPlanView {
    pub guid: Seq<char>,
    pub name: Seq<char>,
    pub is_active: bool,
}

impl View for PowerPlan {
    type V = PowerPlanView;

    open spec fn view(&self) -> PowerPlanView {
        PowerPlanView { guid: self.guid@, name: self.name@, is_active: self.is_active }
    }
}

/// A plan id resolves when some listed plan carries it; ids are compared
/// without regard to the case of their hexadecimal digits.
pub open spec fn plan_resolves(plans: Seq<PowerPlan>, guid: Seq<char>) -> bool {
    exists|i: int| 0 <= i < plans.len() && same_ignoring_ascii_case(#[trigger] plans[i].guid@, guid)
}

/// The single entry point through which callers ask about power plans.
pub struct PowerPlanController;

impl PowerPlanController {
    /// Whether `guid_str` names one of the listed plans.
    pub fn check_if_scheme_is_valid(plans: &Vec<PowerPlan>, guid_str: &str) -> (r: bool)
        ensures
            r == plan_resolves(plans@, guid_str@),
    {
        let mut i: usize = 0;
        while i < plans.len()
            invariant
                i <= plans@.len(),
                forall|k: int|
                    0 <= k < i ==> !same_ignoring_ascii_case(#[trigger] plans@[k].guid@, guid_str@),
            decreases plans@.len() - i,
        {
            if eq_ignoring_ascii_case(plans[i].guid.as_str(), guid_str) {
                return true;
            }
            i += 1;
        }
        false
    }
}

/// The plans of a list as specifications see them.
pub open spec fn plan_views(plans: Seq<PowerPlan>) -> Seq<PowerPlanView> {
    plans.map_values(|p: PowerPlan| p@)
}

/// The word that stands before the id of a plan in the system's listing.
pub open spec fn guid_marker() -> Seq<char> {
    "GUID:"@
}

/// The rule of dashes that ends the heading of the system's listing.
pub open spec fn listing_rule() -> Seq<char> {
    "-----------------------------------"@
}

/// The name in the label of a plan: what stands between the first opening
/// and the last closing bracket, or the whole label where the brackets are
/// missing or the wrong way round; in either case without the asterisks at
/// its end and the white space around it.
pub open spec fn plan_name(label: Seq<char>) -> Seq<char> {
    match (find_char(label, '('), rfind_char(label, ')')) {
        (Some(open), Some(close)) => if 0 <= open < close <= label.len() {
            trimmed(without_trailing(label.subrange(open + 1, close), '*'))
        } else {
            trimmed(without_trailing(label, '*'))
        },
        _ => trimmed(without_trailing(label, '*')),
    }
}

/// The plan that a line of the listing describes. After the marker come the
/// fields of the line, set apart by two spaces or more: the id, then the
/// label. An asterisk at the end of the label marks the active plan.
pub open spec fn plan_of_line(line: Seq<char>) -> Option<PowerPlanView> {
    let text = trimmed(line);
    match find(text, guid_marker()) {
        None => None,
        Some(i) => if 0 <= i && i + guid_marker().len() <= text.len() {
            let fields = fields_of(text.skip(i + guid_marker().len()));
            if fields.len() == 0 {
                None
            } else {
                let label = if fields.len() > 1 {
                    trimmed(fields[1])
                } else {
                    Seq::<char>::empty()
                };
                Some(
                    PowerPlanView {
                        guid: trimmed(fields[0]),
                        name: plan_name(label),
                        is_active: label.len() > 0 && label.last() == '*',
                    },
                )
            }
        } else {
            None
        },
    }
}

/// A line that holds nothing but white space.
pub open spec fn is_blank(line: Seq<char>) -> bool {
    trimmed(line).len() == 0
}

/// A line that holds the rule of dashes.
pub open spec fn is_rule(line: Seq<char>) -> bool {
    !is_blank(line) && contains(line, listing_rule())
}

/// One of the lines is the rule that ends the heading.
pub open spec fn heading_ended(lines: Seq<Seq<char>>) -> bool {
    exists|k: int| 0 <= k < lines.len() && is_rule(#[trigger] lines[k])
}

/// The plans that the lines of a listing describe: every line after the
/// heading that holds the marker and describes a plan gives one, in order.
pub open spec fn listed_plans(lines: Seq<Seq<char>>) -> Seq<PowerPlanView>
    decreases lines.len(),
{
    if lines.len() == 0 {
        Seq::empty()
    } else {
        let before = listed_plans(lines.drop_last());
        let line = lines.last();
        if !is_blank(line) && !is_rule(line) && heading_ended(lines.drop_last()) && contains(
            line,
            guid_marker(),
        ) {
            match plan_of_line(line) {
                Some(plan) => before.push(plan),
                None => before,
            }
        } else {
            before
        }
    }
}

/// The plans that the text of a listing describes.
pub open spec fn parsed_plans(output: Seq<char>) -> Seq<PowerPlanView> {
    listed_plans(lines_of(output))
}

/// The text of a window as a string of its own.
pub fn span_text(text: &str, chars: &Vec<char>, span: Span) -> (r: String)
    requires
        chars@ == text@,
        span.within(chars@.len()),
    ensures
        r@ == span.of(chars@),
{
    text.substring_char(span.start, span.end).to_owned()
}

/// The name in the label that the window holds.
pub fn name_in_label(text: &str, chars: &Vec<char>, label: Span) -> (r: String)
    requires
        chars@ == text@,
        label.within(chars@.len()),
    ensures
        r@ == plan_name(label.of(chars@)),
{
    let open = find_char_in_span(chars, label, '(');
    let close = rfind_char_in_span(chars, label, ')');
    let inner = match (open, close) {
        (Some(o), Some(c)) => {
            if o < c {
                let inner = Span { start: label.start + o + 1, end: label.start + c };
                assert(inner.of(chars@) =~= label.of(chars@).subrange(o + 1, c as int));
                inner
            } else {
                label
            }
        },
        _ => label,
    };
    let bare = trim_trailing_span(chars, inner, '*');
    let name = trim_span(chars, bare);
    span_text(text, chars, name)
}

/// The plan that the line in the window describes.
pub fn plan_in_span(text: &str, chars: &Vec<char>, line: Span) -> (r: Option<PowerPlan>)
    requires
        chars@ == text@,
        line.within(chars@.len()),
    ensures
        match r {
            Some(plan) => plan_of_line(line.of(chars@)) == Some(plan@),
            None => plan_of_line(line.of(chars@)) is None,
        },
{
    let marker = to_chars("GUID:");
    let body = trim_span(chars, line);
    match find_in_span(chars, body, &marker) {
        None => None,
        Some(i) => {
            let rest = Span { start: body.start + i + marker.len(), end: body.end };
            assert(rest.of(chars@) =~= body.of(chars@).skip(i + marker@.len()));
            let fields = fields_in_span(chars, rest);
            if fields.len() == 0 {
                return None;
            }
            let guid = trim_span(chars, fields[0]);
            let label = if fields.len() > 1 {
                trim_span(chars, fields[1])
            } else {
                let none = Span { start: body.end, end: body.end };
                assert(none.of(chars@) =~= Seq::<char>::empty());
                none
            };
            let is_active = label.len() > 0 && chars[label.end - 1] == '*';
            Some(
                PowerPlan {
                    guid: span_text(text, chars, guid),
                    name: name_in_label(text, chars, label),
                    is_active,
                },
            )
        },
    }
}

/// The plan that one line of the system's listing describes.
pub fn parse_plan_line(line: &str) -> (r: Option<PowerPlan>)
    ensures
        match r {
            Some(plan) => plan_of_line(line@) == Some(plan@),
            None => plan_of_line(line@) is None,
        },
{
    let chars = to_chars(line);
    let whole = Span { start: 0, end: chars.len() };
    assert(whole.of(chars@) =~= line@);
    plan_in_span(line, &chars, whole)
}

/// Reads the system's listing of power plans.
pub fn parse_power_plans(output: &str) -> (r: Result<Vec<PowerPlan>, String>)
    ensures
        r matches Ok(plans) && plan_views(plans@) == parsed_plans(output@),
{
    let chars = to_chars(output);
    let whole = Span { start: 0, end: chars.len() };
    assert(whole.of(chars@) =~= output@);
    let rule = to_chars("-----------------------------------");
    let marker = to_chars("GUID:");
    let lines = lines_in_span(&chars, whole);
    let ghost texts = span_texts(lines@, chars@);
    let mut plans: Vec<PowerPlan> = Vec::new();
    let mut found_header = false;
    let mut i: usize = 0;
    while i < lines.len()
        invariant
            chars@ == output@,
            rule@ == listing_rule(),
            marker@ == guid_marker(),
            texts == span_texts(lines@, chars@),
            texts == lines_of(output@),
            forall|k: int| 0 <= k < lines@.len() ==> (#[trigger] lines@[k]).within(chars@.len()),
            i <= lines@.len(),
            found_header == heading_ended(texts.take(i as int)),
            plan_views(plans@) == listed_plans(texts.take(i as int)),
        decreases lines@.len() - i,
    {
        let line = lines[i];
        proof {
            let longer = texts.take(i + 1);
            assert(longer.drop_last() =~= texts.take(i as int));
            if is_rule(line.of(chars@)) {
                assert(is_rule(longer[i as int]));
            }
        }
        let body = trim_span(&chars, line);
        if body.len() > 0 {
            if find_in_span(&chars, line, &rule).is_some() {
                found_header = true;
            } else if found_header && find_in_span(&chars, line, &marker).is_some() {
                match plan_in_span(output, &chars, line) {
                    Some(plan) => {
                        plans.push(plan);
                    },
                    None => {},
                }
            }
        }
        i += 1;
    }
    assert(texts.take(i as int) =~= texts);
    Ok(plans)
}

/// What decoding a run of bytes as GBK gives: the text, and whether some
/// bytes were malformed and replaced. A byte order mark at the start of the
/// bytes selects the encoding it stands for and is left out of the text.
pub uninterp spec fn gbk_decoded(bytes: Seq<u8>) -> (Seq<char>, bool);

/// The longest run of bytes that is handed to the decoder: the decoder sizes
/// its buffer at three times the input and rounds up to a power of two.
pub open spec fn max_decodable_len() -> int {
    (usize::MAX / 8) as int
}

/// Calls `encoding_rs::Encoding::decode` on `encoding_rs::GBK`. The result
/// is the decoded text together with the flag that says whether malformed
/// bytes were replaced; both depend on the bytes alone. Inputs on which the
/// decoder's size calculation could overflow are left out.
#[verifier::external_body]
fn gbk_decode(bytes: &[u8]) -> (r: (String, bool))
    requires
        bytes@.len() <= max_decodable_len(),
    ensures
        (r.0@, r.1) == gbk_decoded(bytes@),
{
    let (text, _, had_errors) = encoding_rs::GBK.decode(bytes);
    (text.into_owned(), had_errors)
}

/// Why the outcome of a power-plan command could not be used.
#[derive(Debug)]
pub enum PlanCommandError {
    /// The output is longer than the decoder takes.
    OutputTooLong,
    /// The output is not well-formed GBK.
    DecodeFailed,
    /// The command failed; this is what it wrote to its error stream.
    Failed(String),
    /// The command went well, but its output names no plan.
    NoGuid,
    /// The plan is the active one and cannot be deleted.
    ActivePlan,
}

/// An error as specifications see it.
pub enum PlanCommandErrorView {
    OutputTooLong,
    DecodeFailed,
    Failed(Seq<char>),
    NoGuid,
    ActivePlan,
}

impl View for PlanCommandError {
    type V = PlanCommandErrorView;

    open spec fn view(&self) -> PlanCommandErrorView {
        match self {
            PlanCommandError::OutputTooLong => PlanCommandErrorView::OutputTooLong,
            PlanCommandError::DecodeFailed => PlanCommandErrorView::DecodeFailed,
            PlanCommandError::Failed(message) => PlanCommandErrorView::Failed(message@),
            PlanCommandError::NoGuid => PlanCommandErrorView::NoGuid,
            PlanCommandError::ActivePlan => PlanCommandErrorView::ActivePlan,
        }
    }
}

/// The text that the bytes of a command's output stand for, or the reason
/// why they are refused: they are too long for the decoder, or not
/// well-formed.
pub open spec fn decoded_text(bytes: Seq<u8>) -> Result<Seq<char>, PlanCommandErrorView> {
    if bytes.len() > max_decodable_len() {
        Err(PlanCommandErrorView::OutputTooLong)
    } else if gbk_decoded(bytes).1 {
        Err(PlanCommandErrorView::DecodeFailed)
    } else {
        Ok(gbk_decoded(bytes).0)
    }
}

/// Decodes the output of a command. Output that is too long, or that holds
/// malformed bytes, is refused.
pub fn decode_output(bytes: &[u8]) -> (r: Result<String, PlanCommandError>)
    ensures
        match r {
            Ok(text) => decoded_text(bytes@) == Ok::<Seq<char>, PlanCommandErrorView>(text@),
            Err(e) => decoded_text(bytes@) == Err::<Seq<char>, PlanCommandErrorView>(e@),
        },
{
    if bytes.len() > usize::MAX / 8 {
        return Err(PlanCommandError::OutputTooLong);
    }
    let (text, had_errors) = gbk_decode(bytes);
    accept_decoded(text, had_errors)
}

/// Takes decoded output only if nothing in it had to be replaced.
pub fn accept_decoded(text: String, had_errors: bool) -> (r: Result<String, PlanCommandError>)
    ensures
        match r {
            Ok(t) => !had_errors && t@ == text@,
            Err(e) => had_errors && e@ == PlanCommandErrorView::DecodeFailed,
        },
{
    if had_errors {
        Err(PlanCommandError::DecodeFailed)
    } else {
        Ok(text)
    }
}

/// Reads the plans from the bytes that the system's listing command wrote.
pub fn read_power_plans(stdout: &[u8]) -> (r: Result<Vec<PowerPlan>, PlanCommandError>)
    ensures
        match r {
            Ok(plans) => decoded_text(stdout@) is Ok && plan_views(plans@) == parsed_plans(
                decoded_text(stdout@)->Ok_0,
            ),
            Err(e) => decoded_text(stdout@) == Err::<Seq<char>, PlanCommandErrorView>(e@),
        },
{
    match decode_output(stdout) {
        Ok(text) => match parse_power_plans(text.as_str()) {
            Ok(plans) => Ok(plans),
            Err(_) => Err(PlanCommandError::DecodeFailed),
        },
        Err(e) => Err(e),
    }
}

/// The first of the lines, at or after `from`, that holds the marker.
pub open spec fn first_marked_from(lines: Seq<Seq<char>>, from: int) -> Option<int>
    decreases lines.len() - from,
{
    if from < 0 || from >= lines.len() {
        None
    } else if contains(lines[from], guid_marker()) {
        Some(from)
    } else {
        first_marked_from(lines, from + 1)
    }
}

/// The id that a line names: what stands after the first marker, up to the
/// next marker if there is one, without the white space around it.
pub open spec fn guid_after_marker(line: Seq<char>) -> Seq<char> {
    match find(line, guid_marker()) {
        Some(i) => if 0 <= i && i + guid_marker().len() <= line.len() {
            let rest = line.skip(i + guid_marker().len());
            match find(rest, guid_marker()) {
                Some(j) => if 0 <= j <= rest.len() {
                    trimmed(rest.take(j))
                } else {
                    trimmed(rest)
                },
                None => trimmed(rest),
            }
        } else {
            Seq::empty()
        },
        None => Seq::empty(),
    }
}

/// The id that the output of a command names: the one on the first line
/// that holds the marker.
pub open spec fn extracted_guid(output: Seq<char>) -> Option<Seq<char>> {
    match first_marked_from(lines_of(output), 0) {
        Some(k) => if 0 <= k < lines_of(output).len() {
            Some(guid_after_marker(lines_of(output)[k]))
        } else {
            None
        },
        None => None,
    }
}

/// Finds the id of the plan that the output of a command names.
pub fn extract_guid(output: &str) -> (r: Option<String>)
    ensures
        match r {
            Some(guid) => extracted_guid(output@) == Some(guid@),
            None => extracted_guid(output@) is None,
        },
{
    let chars = to_chars(output);
    let whole = Span { start: 0, end: chars.len() };
    assert(whole.of(chars@) =~= output@);
    let marker = to_chars("GUID:");
    let lines = lines_in_span(&chars, whole);
    let ghost texts = span_texts(lines@, chars@);
    let mut k: usize = 0;
    while k < lines.len()
        invariant
            chars@ == output@,
            marker@ == guid_marker(),
            texts == span_texts(lines@, chars@),
            texts == lines_of(output@),
            forall|j: int| 0 <= j < lines@.len() ==> (#[trigger] lines@[j]).within(chars@.len()),
            k <= lines@.len(),
            first_marked_from(texts, 0) == first_marked_from(texts, k as int),
        decreases lines@.len() - k,
    {
        let line = lines[k];
        match find_in_span(&chars, line, &marker) {
            Some(i) => {
                let rest = Span { start: line.start + i + marker.len(), end: line.end };
                assert(rest.of(chars@) =~= line.of(chars@).skip(i + marker@.len()));
                let piece = match find_in_span(&chars, rest, &marker) {
                    Some(j) => {
                        let piece = Span { start: rest.start, end: rest.start + j };
                        assert(piece.of(chars@) =~= rest.of(chars@).take(j as int));
                        piece
                    },
                    None => rest,
                };
                let guid = trim_span(&chars, piece);
                return Some(span_text(output, &chars, guid));
            },
            None => {},
        }
        k += 1;
    }
    None
}

/// The id of the new plan from the outcome of a command that creates one,
/// once its output is decoded.
pub fn guid_from_decoded(output: &str) -> (r: Result<String, PlanCommandError>)
    ensures
        match r {
            Ok(guid) => extracted_guid(output@) == Some(guid@),
            Err(e) => extracted_guid(output@) is None && e@ == PlanCommandErrorView::NoGuid,
        },
{
    match extract_guid(output) {
        Some(guid) => Ok(guid),
        None => Err(PlanCommandError::NoGuid),
    }
}

/// What a failed command gives: the text that it wrote to its error stream,
/// or the reason why that text is refused.
pub open spec fn failure_of(stderr: Seq<u8>) -> PlanCommandErrorView {
    match decoded_text(stderr) {
        Ok(message) => PlanCommandErrorView::Failed(message),
        Err(e) => e,
    }
}

/// The outcome of a command that only succeeds or fails.
pub open spec fn command_result(success: bool, stderr: Seq<u8>) -> Result<
    (),
    PlanCommandErrorView,
> {
    if success {
        Ok(())
    } else {
        Err(failure_of(stderr))
    }
}

/// The outcome of a command that creates a plan: the id that its output
/// names.
pub open spec fn created_guid(success: bool, stdout: Seq<u8>, stderr: Seq<u8>) -> Result<
    Seq<char>,
    PlanCommandErrorView,
> {
    if !success {
        Err(failure_of(stderr))
    } else {
        match decoded_text(stdout) {
            Err(e) => Err(e),
            Ok(text) => match extracted_guid(text) {
                Some(guid) => Ok(guid),
                None => Err(PlanCommandErrorView::NoGuid),
            },
        }
    }
}

/// The outcome of a command that only succeeds or fails: a failed command
/// gives what it wrote to its error stream.
pub fn command_outcome(success: bool, stderr: &[u8]) -> (r: Result<(), PlanCommandError>)
    ensures
        match r {
            Ok(()) => command_result(success, stderr@) is Ok,
            Err(e) => command_result(success, stderr@) == Err::<(), PlanCommandErrorView>(e@),
        },
{
    if success {
        return Ok(());
    }
    match decode_output(stderr) {
        Ok(message) => Err(PlanCommandError::Failed(message)),
        Err(e) => Err(e),
    }
}

/// The id of the new plan from the outcome of a command that creates one.
pub fn guid_from_command(success: bool, stdout: &[u8], stderr: &[u8]) -> (r: Result<
    String,
    PlanCommandError,
>)
    ensures
        match r {
            Ok(guid) => created_guid(success, stdout@, stderr@) == Ok::<
                Seq<char>,
                PlanCommandErrorView,
            >(guid@),
            Err(e) => created_guid(success, stdout@, stderr@) == Err::<
                Seq<char>,
                PlanCommandErrorView,
            >(e@),
        },
{
    match command_outcome(success, stderr) {
        Err(e) => Err(e),
        Ok(()) => match decode_output(stdout) {
            Ok(text) => guid_from_decoded(text.as_str()),
            Err(e) => Err(e),
        },
    }
}

/// Whether some listed plan carries exactly this id and is the active one.
pub open spec fn is_active_plan(plans: Seq<PowerPlan>, guid: Seq<char>) -> bool {
    exists|i: int| 0 <= i < plans.len() && (#[trigger] plans[i]).guid@ == guid && plans[i].is_active
}

/// Refuses the deletion of the active plan.
pub fn check_deletable(plans: &Vec<PowerPlan>, guid: &str) -> (r: Result<(), PlanCommandError>)
    ensures
        match r {
            Ok(()) => !is_active_plan(plans@, guid@),
            Err(e) => is_active_plan(plans@, guid@) && e@ == PlanCommandErrorView::ActivePlan,
        },
{
    let mut i: usize = 0;
    while i < plans.len()
        invariant
            i <= plans@.len(),
            forall|k: int|
                0 <= k < i ==> !((#[trigger] plans@[k]).guid@ == guid@ && plans@[k].is_active),
        decreases plans@.len() - i,
    {
        if plans[i].is_active && crate::text::str_eq(plans[i].guid.as_str(), guid) {
            return Err(PlanCommandError::ActivePlan);
        }
        i += 1;
    }
    Ok(())
}

} // verus!
