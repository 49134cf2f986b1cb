//! The exception codec: reports of raised exceptions as structured values.

use vstd::prelude::*;
use crate::json::{members_view, Json, JsonModel, JsonNumber};
use crate::text::optional_text;

verus! {

/// One frame of a call stack.
#[derive(Debug, PartialEq, Eq)]
pub struct Frame {
    /// The label of the source the frame is in.
    pub filename: String,
    pub start_line: u32,
    pub start_column: u32,
    pub end_line: u32,
    pub end_column: u32,
    /// The name of the frame; absent for code at module level.
    pub frame_name: Option<String>,
    /// The source line to show with the frame.
    pub preview_line: Option<String>,
    /// Whether the caret under the source line is left out.
    pub hide_caret: bool,
    /// Whether the name of the frame is left out.
    pub hide_frame_name: bool,
}

/// The mathematical model of a [`Frame`].
pub struct FrameModel {
    pub filename: Seq<char>,
    pub start_line: u32,
    pub start_column: u32,
    pub end_line: u32,
    pub end_column: u32,
    pub frame_name: Option<Seq<char>>,
    pub preview_line: Option<Seq<char>>,
    pub hide_caret: bool,
    pub hide_frame_name: bool,
}

impl View for Frame {
    type V = FrameModel;

    open spec fn view(&self) -> FrameModel {
        FrameModel {
            filename: self.filename@,
            start_line: self.start_line,
            start_column: self.start_column,
            end_line: self.end_line,
            end_column: self.end_column,
            frame_name: optional_text(self.frame_name),
            preview_line: optional_text(self.preview_line),
            hide_caret: self.hide_caret,
            hide_frame_name: self.hide_frame_name,
        }
    }
}

/// A raised exception as the engine reports it: a one-line summary, the
/// name of the exception's kind, and the call stack, outermost frame first.
#[derive(Debug, PartialEq, Eq)]
pub struct ExceptionReport {
    pub summary: String,
    pub exc_type: String,
    pub traceback: Vec<Frame>,
}

/// The mathematical model of an [`ExceptionReport`].
pub struct ReportModel {
    pub summary: Seq<char>,
    pub exc_type: Seq<char>,
    pub traceback: Seq<FrameModel>,
}

impl View for ExceptionReport {
    type V = ReportModel;

    open spec fn view(&self) -> ReportModel {
        ReportModel {
            summary: self.summary@,
            exc_type: self.exc_type@,
            traceback: self.traceback@.map_values(|f: Frame| f@),
        }
    }
}

/// The kind of the report that the bridge makes itself, of what it does
/// not carry out.
pub open spec fn bridge_error_kind() -> Seq<char> {
    "NotImplementedError"@
}

/// The report that the bridge makes itself: the message as its summary, the
/// kind of the bridge's own errors, and no call stack.
pub open spec fn bridge_report(message: Seq<char>) -> ReportModel {
    ReportModel { summary: message, exc_type: bridge_error_kind(), traceback: Seq::empty() }
}

/// Makes the report of an error of the bridge's own.
pub fn make_bridge_report(message: &str) -> (report: ExceptionReport)
    ensures
        report@ == bridge_report(message@),
{
    let report = ExceptionReport {
        summary: message.to_owned(),
        exc_type: "NotImplementedError".to_owned(),
        traceback: Vec::new(),
    };
    assert(report@.traceback =~= Seq::<FrameModel>::empty());
    report
}

/// The structured form of a line or column number.
pub open spec fn position(n: u32) -> JsonModel {
    JsonModel::Number(JsonNumber::Int(n as i64))
}

/// A text member where the text is present, no member where it is absent.
pub open spec fn optional_member(name: Seq<char>, text: Option<Seq<char>>) -> Seq<(Seq<char>, JsonModel)> {
    match text {
        Some(t) => seq![(name, JsonModel::Text(t))],
        None => seq![],
    }
}

/// A member that holds `true` where the flag is set, no member where it is not.
pub open spec fn flag_member(name: Seq<char>, flag: bool) -> Seq<(Seq<char>, JsonModel)> {
    if flag {
        seq![(name, JsonModel::Bool(true))]
    } else {
        seq![]
    }
}

/// The members of the structured form of a frame.
pub open spec fn frame_members(f: FrameModel) -> Seq<(Seq<char>, JsonModel)> {
    seq![
        ("filename"@, JsonModel::Text(f.filename)),
        ("start_line"@, position(f.start_line)),
        ("start_column"@, position(f.start_column)),
        ("end_line"@, position(f.end_line)),
        ("end_column"@, position(f.end_column)),
    ] + optional_member("frame_name"@, f.frame_name) + optional_member("preview_line"@, f.preview_line)
        + flag_member("hide_caret"@, f.hide_caret) + flag_member("hide_frame_name"@, f.hide_frame_name)
}

/// The structured form of a frame.
pub open spec fn frame_json(f: FrameModel) -> JsonModel {
    JsonModel::Object(frame_members(f))
}

/// The members that repeat the place of the last frame at the top level of
/// a report, for readers that know no call stack.
pub open spec fn last_frame_members(f: FrameModel) -> Seq<(Seq<char>, JsonModel)> {
    seq![
        ("filename"@, JsonModel::Text(f.filename)),
        ("line_number"@, position(f.start_line)),
        ("column_number"@, position(f.start_column)),
    ] + optional_member("source_code"@, f.preview_line)
}

/// The members of the structured form of a report.
pub open spec fn exception_members(r: ReportModel) -> Seq<(Seq<char>, JsonModel)> {
    let head = seq![("message"@, JsonModel::Text(r.summary)), ("exc_type"@, JsonModel::Text(r.exc_type))];
    if r.traceback.len() > 0 {
        head + last_frame_members(r.traceback.last()) + seq![
            ("traceback"@, JsonModel::Array(r.traceback.map_values(|f: FrameModel| frame_json(f)))),
        ]
    } else {
        head
    }
}

/// The structured form of a report: the summary, the kind, and where the
/// call stack is not empty, the place of its last frame and every frame in
/// order.
pub open spec fn exception_json(r: ReportModel) -> JsonModel {
    JsonModel::Object(exception_members(r))
}

/// Makes a member that holds a text.
fn text_member(name: &str, text: &String) -> (m: (String, Json))
    ensures
        m.0@ == name@,
        m.1@ == JsonModel::Text(text@),
{
    (name.to_owned(), Json::String(text.clone()))
}

/// Makes a member that holds a line or column number.
fn position_member(name: &str, n: u32) -> (m: (String, Json))
    ensures
        m.0@ == name@,
        m.1@ == position(n),
{
    (name.to_owned(), Json::Number(JsonNumber::Int(n as i64)))
}

/// Appends a text member where the text is present.
fn push_optional(members: &mut Vec<(String, Json)>, name: &str, text: &Option<String>)
    ensures
        members_view(final(members)@) == members_view(old(members)@) + optional_member(
            name@,
            optional_text(*text),
        ),
{
    match text {
        Some(t) => {
            members.push(text_member(name, t));
        },
        None => {},
    }
    assert(members_view(members@) =~= members_view(old(members)@) + optional_member(
        name@,
        optional_text(*text),
    ));
}

/// Appends a member that holds `true` where the flag is set.
fn push_flag(members: &mut Vec<(String, Json)>, name: &str, flag: bool)
    ensures
        members_view(final(members)@) == members_view(old(members)@) + flag_member(name@, flag),
{
    if flag {
        members.push((name.to_owned(), Json::Bool(true)));
    }
    assert(members_view(members@) =~= members_view(old(members)@) + flag_member(name@, flag));
}

/// Encodes a frame.
pub fn frame_to_json(frame: &Frame) -> (j: Json)
    ensures
        j@ == frame_json(frame@),
{
    let mut members: Vec<(String, Json)> = Vec::new();
    members.push(text_member("filename", &frame.filename));
    members.push(position_member("start_line", frame.start_line));
    members.push(position_member("start_column", frame.start_column));
    members.push(position_member("end_line", frame.end_line));
    members.push(position_member("end_column", frame.end_column));
    assert(members_view(members@) =~= seq![
        ("filename"@, JsonModel::Text(frame@.filename)),
        ("start_line"@, position(frame@.start_line)),
        ("start_column"@, position(frame@.start_column)),
        ("end_line"@, position(frame@.end_line)),
        ("end_column"@, position(frame@.end_column)),
    ]);
    push_optional(&mut members, "frame_name", &frame.frame_name);
    push_optional(&mut members, "preview_line", &frame.preview_line);
    push_flag(&mut members, "hide_caret", frame.hide_caret);
    push_flag(&mut members, "hide_frame_name", frame.hide_frame_name);
    Json::Object(members)
}

/// Encodes the report of a raised exception.
pub fn monty_exception_to_json(e: &ExceptionReport) -> (j: Json)
    ensures
        j@ == exception_json(e@),
{
    let mut members: Vec<(String, Json)> = Vec::new();
    members.push(text_member("message", &e.summary));
    members.push(text_member("exc_type", &e.exc_type));
    let ghost head = seq![
        ("message"@, JsonModel::Text(e@.summary)),
        ("exc_type"@, JsonModel::Text(e@.exc_type)),
    ];
    assert(members_view(members@) =~= head);
    let count = e.traceback.len();
    if count > 0 {
        let last = &e.traceback[count - 1];
        assert(last@ == e@.traceback.last());
        members.push(text_member("filename", &last.filename));
        members.push(position_member("line_number", last.start_line));
        members.push(position_member("column_number", last.start_column));
        assert(members_view(members@) =~= head + seq![
            ("filename"@, JsonModel::Text(last@.filename)),
            ("line_number"@, position(last@.start_line)),
            ("column_number"@, position(last@.start_column)),
        ]);
        push_optional(&mut members, "source_code", &last.preview_line);
        assert(members_view(members@) =~= head + last_frame_members(last@));
        let mut frames: Vec<Json> = Vec::new();
        let mut i: usize = 0;
        while i < count
            invariant
                i <= count,
                count == e.traceback.len(),
                frames.len() == i,
                forall|k: int| 0 <= k < i ==> (#[trigger] frames@[k])@ == frame_json(e.traceback@[k]@),
            decreases count - i,
        {
            let f = frame_to_json(&e.traceback[i]);
            frames.push(f);
            i += 1;
        }
        let list = Json::Array(frames);
        assert(list@->Array_0 =~= e@.traceback.map_values(|f: FrameModel| frame_json(f)));
        members.push(("traceback".to_owned(), list));
        assert(members_view(members@) =~= exception_members(e@));
    }
    Json::Object(members)
}

} // verus!
