//! The tools about access, calendars, accounts and deletions.

use crate::error::{invalid, mcp_err, mcp_invalid, reports, McpError, McpErrorKind};
use crate::event::{after_fetch, failed, given_span, EventStep};
use crate::model::{AuthorizationStatus, CalendarInfo, EventItem, EventSpan, Real, SourceInfo, StoreError};
use crate::output::{calendar_shown, calendars_shown, show_calendars, show_sources, source_of, AuthStatusOutput, CalendarOutput, CoordinateOutput, DeletedResponse, ListResponse, RequestAccessOutput, SourceOutput};
use crate::request::{ColorChoice, DeleteReminderListRequest, EventIdRequest, ReminderIdRequest, UpdateEventCalendarRequest, UpdateReminderListRequest};
use crate::server::EventKitServer;
use crate::text::opt_view;
use crate::words::{auth_remediation, auth_status_str, auth_status_text, bad_color, bad_span, color_rgba, hex_pair, hex_value, is_hex_color, mend, names_nearest, parse_hex, span_named, spans_are_this_or_future, worse};
use vstd::prelude::*;
use vstd::string::*;

verus! {

// ---------------------------------------------------------------------------
// Access
// ---------------------------------------------------------------------------

impl EventKitServer {
    /// Tells the permissions, and the next step where one is missing.
    pub fn auth_status(&self, reminders: AuthorizationStatus, events: AuthorizationStatus) -> (o:
        AuthStatusOutput)
        ensures
            o.reminders@ == auth_status_text(reminders),
            o.events@ == auth_status_text(events),
            opt_view(o.remediation) == mend(worse(reminders, events)),
    {
        AuthStatusOutput {
            reminders: auth_status_str(reminders),
            events: auth_status_str(events),
            remediation: auth_remediation(reminders, events),
        }
    }

    /// Tells what came of asking for access, with the permission afterwards.
    pub fn request_access(
        &self,
        reply: Result<bool, StoreError>,
        status: AuthorizationStatus,
    ) -> (r: Result<RequestAccessOutput, McpError>)
        ensures
            match reply {
                Ok(granted) => r is Ok && r->Ok_0.granted == granted && r->Ok_0.status@
                    == auth_status_text(status),
                Err(e) => r is Err && reports(r->Err_0, e),
            },
    {
        match reply {
            Ok(granted) => Ok(RequestAccessOutput { granted, status: auth_status_str(status) }),
            Err(e) => Err(mcp_err(&e)),
        }
    }

    /// Tells where the user is; a failure is told in its own words.
    pub fn get_current_location(&self, reply: Result<(Real, Real), String>) -> (r: Result<
        CoordinateOutput,
        McpError,
    >)
        ensures
            match reply {
                Ok((latitude, longitude)) => r == Ok::<CoordinateOutput, McpError>(
                    CoordinateOutput { latitude, longitude },
                ),
                Err(message) => r == Err::<CoordinateOutput, McpError>(
                    McpError { kind: McpErrorKind::Internal, message },
                ),
            },
    {
        match reply {
            Ok((latitude, longitude)) => Ok(CoordinateOutput { latitude, longitude }),
            Err(message) => Err(McpError { kind: McpErrorKind::Internal, message }),
        }
    }
}

// ---------------------------------------------------------------------------
// Calendars and accounts
// ---------------------------------------------------------------------------

/// An answer that lists calendars.
pub open spec fn calendars_answered(
    reply: Result<Vec<CalendarInfo>, StoreError>,
    r: Result<ListResponse<CalendarOutput>, McpError>,
) -> bool {
    match reply {
        Ok(infos) => {
            &&& r is Ok
            &&& calendars_shown(infos@, r->Ok_0.items@)
            &&& r->Ok_0.count == infos@.len()
        },
        Err(e) => r is Err && reports(r->Err_0, e),
    }
}

/// An answer that shows a calendar.
pub open spec fn calendar_answered(
    reply: Result<CalendarInfo, StoreError>,
    r: Result<CalendarOutput, McpError>,
) -> bool {
    match reply {
        Ok(info) => r is Ok && calendar_shown(info, r->Ok_0),
        Err(e) => r is Err && reports(r->Err_0, e),
    }
}

/// An answer that names what was deleted.
pub open spec fn deletion_answered(
    id: String,
    reply: Result<(), StoreError>,
    r: Result<DeletedResponse, McpError>,
) -> bool {
    match reply {
        Ok(_) => r == Ok::<DeletedResponse, McpError>(DeletedResponse { id }),
        Err(e) => r is Err && reports(r->Err_0, e),
    }
}

fn answer_calendars(reply: Result<Vec<CalendarInfo>, StoreError>) -> (r: Result<
    ListResponse<CalendarOutput>,
    McpError,
>)
    ensures
        calendars_answered(reply, r),
{
    match reply {
        Ok(infos) => {
            let items: Vec<CalendarOutput> = show_calendars(&infos);
            Ok(ListResponse { count: items.len(), items })
        },
        Err(e) => Err(mcp_err(&e)),
    }
}

fn answer_calendar(reply: Result<CalendarInfo, StoreError>) -> (r: Result<
    CalendarOutput,
    McpError,
>)
    ensures
        calendar_answered(reply, r),
{
    match reply {
        Ok(info) => Ok(CalendarOutput::from_info(&info)),
        Err(e) => Err(mcp_err(&e)),
    }
}

fn answer_deletion(id: String, reply: Result<(), StoreError>) -> (r: Result<
    DeletedResponse,
    McpError,
>)
    ensures
        deletion_answered(id, reply, r),
{
    match reply {
        Ok(_) => Ok(DeletedResponse { id }),
        Err(e) => Err(mcp_err(&e)),
    }
}

/// Red, green, blue and opacity of a color, each as a share of the whole.
#[derive(Clone, Copy, PartialEq, Eq, Structural, Debug)]
pub struct Rgba {
    pub red: u16,
    pub green: u16,
    pub blue: u16,
    pub opacity: u16,
    pub whole: u16,
}

/// A change to a calendar. An absent field is left as it is.
#[derive(PartialEq, Eq, Debug)]
pub struct CalendarChange {
    pub id: String,
    pub name: Option<String>,
    pub color: Option<Rgba>,
}

/// The numbers of a color: thousandths for one of the palette, and for one in
/// hexadecimal, if it can be read, parts of 255 with full opacity.
pub open spec fn chosen_rgba(choice: ColorChoice) -> Option<Rgba> {
    match choice {
        ColorChoice::Named(c) => Some(
            Rgba {
                red: color_rgba(c).0,
                green: color_rgba(c).1,
                blue: color_rgba(c).2,
                opacity: color_rgba(c).3,
                whole: 1000,
            },
        ),
        ColorChoice::Hex(s) => if is_hex_color(s@) {
            Some(
                Rgba {
                    red: hex_pair(s@, 1) as u16,
                    green: hex_pair(s@, 3) as u16,
                    blue: hex_pair(s@, 5) as u16,
                    opacity: 255,
                    whole: 255,
                },
            )
        } else {
            None
        },
    }
}

/// What comes of a request to change a calendar: the change, unless the color
/// cannot be read.
pub open spec fn change_asked(
    id: String,
    name: Option<String>,
    color: Option<ColorChoice>,
    r: Result<CalendarChange, McpError>,
) -> bool {
    match color {
        None => r == Ok::<CalendarChange, McpError>(CalendarChange { id, name, color: None }),
        Some(choice) => match chosen_rgba(choice) {
            Some(rgba) => r == Ok::<CalendarChange, McpError>(
                CalendarChange { id, name, color: Some(rgba) },
            ),
            None => r is Err && choice is Hex && invalid(r->Err_0, bad_color(choice->Hex_0@)),
        },
    }
}

fn read_color(choice: ColorChoice) -> (r: Result<Rgba, McpError>)
    ensures
        match chosen_rgba(choice) {
            Some(rgba) => r == Ok::<Rgba, McpError>(rgba),
            None => r is Err && choice is Hex && invalid(r->Err_0, bad_color(choice->Hex_0@)),
        },
{
    match choice {
        ColorChoice::Named(c) => {
            let (red, green, blue, opacity): (u16, u16, u16, u16) = c.to_rgba();
            Ok(Rgba { red, green, blue, opacity, whole: 1000 })
        },
        ColorChoice::Hex(s) => match parse_hex(s.as_str()) {
            Some((red, green, blue)) => Ok(
                Rgba {
                    red: red as u16,
                    green: green as u16,
                    blue: blue as u16,
                    opacity: 255,
                    whole: 255,
                },
            ),
            None => {
                let mut m: String = "invalid color '".to_owned();
                m.append(s.as_str());
                m.append(
                    "'. Use red, orange, yellow, green, blue, purple, brown, pink, teal, or a hex color such as #FF0000.",
                );
                Err(mcp_invalid(m))
            },
        },
    }
}

fn change_calendar(id: String, name: Option<String>, color: Option<ColorChoice>) -> (r: Result<
    CalendarChange,
    McpError,
>)
    ensures
        change_asked(id, name, color, r),
{
    match color {
        None => Ok(CalendarChange { id, name, color: None }),
        Some(choice) => match read_color(choice) {
            Ok(rgba) => Ok(CalendarChange { id, name, color: Some(rgba) }),
            Err(e) => Err(e),
        },
    }
}

impl EventKitServer {
    /// Lists the reminder lists.
    pub fn list_reminder_lists(&self, reply: Result<Vec<CalendarInfo>, StoreError>) -> (r: Result<
        ListResponse<CalendarOutput>,
        McpError,
    >)
        ensures
            calendars_answered(reply, r),
    {
        answer_calendars(reply)
    }

    /// Lists the event calendars.
    pub fn list_calendars(&self, reply: Result<Vec<CalendarInfo>, StoreError>) -> (r: Result<
        ListResponse<CalendarOutput>,
        McpError,
    >)
        ensures
            calendars_answered(reply, r),
    {
        answer_calendars(reply)
    }

    /// Shows the calendar that new events go to.
    pub fn get_default_event_calendar(&self, reply: Result<CalendarInfo, StoreError>) -> (r: Result<
        CalendarOutput,
        McpError,
    >)
        ensures
            calendar_answered(reply, r),
    {
        answer_calendar(reply)
    }

    /// Shows the reminder list that was created.
    pub fn create_reminder_list(&self, reply: Result<CalendarInfo, StoreError>) -> (r: Result<
        CalendarOutput,
        McpError,
    >)
        ensures
            calendar_answered(reply, r),
    {
        answer_calendar(reply)
    }

    /// Shows the event calendar that was created.
    pub fn create_event_calendar(&self, reply: Result<CalendarInfo, StoreError>) -> (r: Result<
        CalendarOutput,
        McpError,
    >)
        ensures
            calendar_answered(reply, r),
    {
        answer_calendar(reply)
    }

    /// Updates a reminder list: the change.
    pub fn update_reminder_list(&self, params: UpdateReminderListRequest) -> (r: Result<
        CalendarChange,
        McpError,
    >)
        ensures
            change_asked(params.list_id, params.name, params.color, r),
    {
        change_calendar(params.list_id, params.name, params.color)
    }

    /// Updates an event calendar: the change.
    pub fn update_event_calendar(&self, params: UpdateEventCalendarRequest) -> (r: Result<
        CalendarChange,
        McpError,
    >)
        ensures
            change_asked(params.calendar_id, params.name, params.color, r),
    {
        change_calendar(params.calendar_id, params.name, params.color)
    }

    /// Shows the calendar or reminder list that was updated.
    pub fn update_calendar_reply(&self, reply: Result<CalendarInfo, StoreError>) -> (r: Result<
        CalendarOutput,
        McpError,
    >)
        ensures
            calendar_answered(reply, r),
    {
        answer_calendar(reply)
    }

    /// Names the reminder list that was deleted.
    pub fn delete_reminder_list(
        &self,
        params: DeleteReminderListRequest,
        reply: Result<(), StoreError>,
    ) -> (r: Result<DeletedResponse, McpError>)
        ensures
            deletion_answered(params.list_id, reply, r),
    {
        answer_deletion(params.list_id, reply)
    }

    /// Names the event calendar that was deleted.
    pub fn delete_event_calendar(
        &self,
        params: DeleteReminderListRequest,
        reply: Result<(), StoreError>,
    ) -> (r: Result<DeletedResponse, McpError>)
        ensures
            deletion_answered(params.list_id, reply, r),
    {
        answer_deletion(params.list_id, reply)
    }

    /// Lists the accounts.
    pub fn list_sources(&self, reply: Result<Vec<SourceInfo>, StoreError>) -> (r: Result<
        ListResponse<SourceOutput>,
        McpError,
    >)
        ensures
            match reply {
                Ok(infos) => {
                    &&& r is Ok
                    &&& r->Ok_0.items@ == infos@.map_values(|s: SourceInfo| source_of(s))
                    &&& r->Ok_0.count == infos@.len()
                },
                Err(e) => r is Err && reports(r->Err_0, e),
            },
    {
        match reply {
            Ok(infos) => {
                let items: Vec<SourceOutput> = show_sources(&infos);
                Ok(ListResponse { count: items.len(), items })
            },
            Err(e) => Err(mcp_err(&e)),
        }
    }
}

// ---------------------------------------------------------------------------
// Deleting reminders and events
// ---------------------------------------------------------------------------

/// Whether later occurrences are deleted too, if the span can be read.
pub open spec fn deletes_future(span: Option<Seq<char>>, affect_future: bool) -> Option<bool> {
    match span_named(span) {
        Some(s) => Some(s == EventSpan::Future || affect_future),
        None => None,
    }
}

/// An event to be deleted, with the later ones of its series or without.
#[derive(PartialEq, Eq, Debug)]
pub struct EventDeletion {
    pub id: String,
    pub affect_future: bool,
}

impl EventKitServer {
    /// Names the reminder that was deleted.
    pub fn delete_reminder(&self, params: ReminderIdRequest, reply: Result<(), StoreError>) -> (r:
        Result<DeletedResponse, McpError>)
        ensures
            deletion_answered(params.reminder_id, reply, r),
    {
        answer_deletion(params.reminder_id, reply)
    }

    /// Deletes an event: what to delete. Later occurrences go too if the span
    /// or the older flag says so.
    pub fn delete_event(&self, params: EventIdRequest) -> (r: Result<EventDeletion, McpError>)
        ensures
            match deletes_future(opt_view(params.span), params.affect_future) {
                Some(affect_future) => r == Ok::<EventDeletion, McpError>(
                    EventDeletion { id: params.event_id, affect_future },
                ),
                None => r is Err && params.span is Some && invalid(
                    r->Err_0,
                    bad_span(params.span->0@),
                ),
            },
    {
        let span: EventSpan = match given_span(&params.span) {
            Ok(s) => s,
            Err(e) => return Err(e),
        };
        let affect_future: bool = span == EventSpan::Future || params.affect_future;
        Ok(EventDeletion { id: params.event_id, affect_future })
    }

    /// Names the event that was deleted.
    pub fn delete_event_reply(&self, id: String, reply: Result<(), StoreError>) -> (r: Result<
        DeletedResponse,
        McpError,
    >)
        ensures
            deletion_answered(id, reply, r),
    {
        answer_deletion(id, reply)
    }
}

/// Whatever span a request names besides, the older flag makes it delete what
/// the span "future" deletes.
pub proof fn affect_future_is_span_future(span: Option<Seq<char>>)
    requires
        span_named(span) is Some,
    ensures
        deletes_future(span, true) == deletes_future(Some("future"@), false),
{
    reveal_strlit("this");
    reveal_strlit("future");
    assert("this"@.len() != "future"@.len());
}

/// Deleting with the span "future" asks for the later ones of the series too,
/// and once the store has no such event, fetching it shows none: the answer is
/// the store's error.
pub proof fn deleted_series_is_not_shown(
    affect_future: bool,
    fetched: Result<EventItem, StoreError>,
    answer: EventStep,
)
    requires
        fetched is Err,
        after_fetch(answer, fetched),
    ensures
        deletes_future(Some("future"@), affect_future) == Some(true),
        failed(answer, fetched->Err_0),
        answer->Done_0 is Err,
{
    reveal_strlit("this");
    reveal_strlit("future");
    assert("this"@.len() != "future"@.len());
}

/// A change to a calendar has the name that is supplied, and the color that is
/// supplied: for one of the palette its thousandths, for one in hexadecimal
/// what its digits say, with full opacity. It is refused only where a color is
/// supplied that is neither.
pub proof fn calendar_is_changed_as_requested(
    id: String,
    name: Option<String>,
    color: Option<ColorChoice>,
    r: Result<CalendarChange, McpError>,
)
    requires
        change_asked(id, name, color, r),
    ensures
        r is Err ==> color is Some && color->0 is Hex && !is_hex_color(color->0->Hex_0@),
        r matches Ok(change) ==> {
            &&& change.id == id
            &&& change.name == name
            &&& (change.color is Some <==> color is Some)
            &&& color is Some && color->0 is Named ==> {
                let c = color->0->Named_0;
                let rgba = change.color->0;
                &&& rgba.whole == 1000
                &&& (rgba.red, rgba.green, rgba.blue, rgba.opacity) == color_rgba(c)
            }
            &&& color is Some && color->0 is Hex ==> {
                let digits = color->0->Hex_0@;
                let rgba = change.color->0;
                &&& digits.len() == 7
                &&& rgba.whole == 255
                &&& rgba.opacity == 255
                &&& rgba.red == digit(digits[1]) * 16 + digit(digits[2])
                &&& rgba.green == digit(digits[3]) * 16 + digit(digits[4])
                &&& rgba.blue == digit(digits[5]) * 16 + digit(digits[6])
            }
        },
{
    if color is Some && color->0 is Hex && r is Ok {
        let digits = color->0->Hex_0@;
        assert(hex_value(digits[1]) is Some && hex_value(digits[2]) is Some);
        assert(hex_value(digits[3]) is Some && hex_value(digits[4]) is Some);
        assert(hex_value(digits[5]) is Some && hex_value(digits[6]) is Some);
    }
}

/// The number that a hexadecimal digit stands for.
pub open spec fn digit(c: char) -> int {
    if c as int <= 57 {
        c as int - 48
    } else if c as int <= 70 {
        c as int - 55
    } else {
        c as int - 87
    }
}

/// Two colors that are supplied in hexadecimal and give the same change are the
/// same color: no digit goes unread.
pub proof fn hex_colors_are_told_apart(a: Seq<char>, b: Seq<char>)
    requires
        is_hex_color(a),
        is_hex_color(b),
        hex_pair(a, 1) == hex_pair(b, 1),
        hex_pair(a, 3) == hex_pair(b, 3),
        hex_pair(a, 5) == hex_pair(b, 5),
    ensures
        forall|i: int| 1 <= i < 7 ==> hex_value(#[trigger] a[i]) == hex_value(b[i]),
{
    lemma_pair_read(a, b, 1);
    lemma_pair_read(a, b, 3);
    lemma_pair_read(a, b, 5);
    assert forall|i: int| 1 <= i < 7 implies hex_value(#[trigger] a[i]) == hex_value(b[i]) by {
        if i == 1 || i == 2 {
        } else if i == 3 || i == 4 {
        } else {
        }
    }
}

proof fn lemma_pair_read(a: Seq<char>, b: Seq<char>, at: int)
    requires
        is_hex_color(a),
        is_hex_color(b),
        1 <= at < 6,
        hex_pair(a, at) == hex_pair(b, at),
    ensures
        hex_value(a[at]) == hex_value(b[at]),
        hex_value(a[at + 1]) == hex_value(b[at + 1]),
{
    lemma_hex_digit(a[at]);
    lemma_hex_digit(a[at + 1]);
    lemma_hex_digit(b[at]);
    lemma_hex_digit(b[at + 1]);
}

proof fn lemma_hex_digit(c: char)
    ensures
        hex_value(c) matches Some(v) ==> v < 16,
{
}

/// A calendar is answered with what the store says of it.
pub proof fn calendar_is_answered_as_it_is(
    reply: Result<CalendarInfo, StoreError>,
    r: Result<CalendarOutput, McpError>,
)
    requires
        calendar_answered(reply, r),
    ensures
        r is Ok <==> reply is Ok,
        reply matches Ok(c) ==> {
            let o = r->Ok_0;
            &&& o.id == c.identifier
            &&& o.title == c.title
            &&& o.source == c.source
            &&& o.source_id == c.source_id
            &&& o.allows_modifications == c.allows_modifications
            &&& o.is_immutable == c.is_immutable
            &&& o.is_subscribed == c.is_subscribed
            &&& o.entity_types@ == c.allowed_entity_types@
            &&& o.supported_event_availabilities@ == c.supported_event_availabilities@
            &&& (c.color is None ==> o.color@ == "none"@)
            &&& c.color matches Some(distances) ==> names_nearest(distances@, o.color@)
        },
{
}

/// Calendars are answered all, in their order, with their number.
pub proof fn every_calendar_is_answered(
    infos: Vec<CalendarInfo>,
    r: Result<ListResponse<CalendarOutput>, McpError>,
)
    requires
        calendars_answered(Ok(infos), r),
    ensures
        r is Ok,
        r->Ok_0.count == infos@.len(),
        r->Ok_0.items@.len() == infos@.len(),
        forall|i: int|
            0 <= i < infos@.len() ==> (#[trigger] r->Ok_0.items@[i]).id == infos@[i].identifier
                && r->Ok_0.items@[i].title == infos@[i].title,
{
    assert forall|i: int| 0 <= i < infos@.len() implies calendar_shown(
        infos@[i],
        #[trigger] r->Ok_0.items@[i],
    ) by {}
}

/// Later occurrences of an event are deleted exactly where the span is "future"
/// or the older flag is set, and a word that is no span deletes nothing.
pub proof fn deletion_reaches_as_far_as_is_named(span: Option<Seq<char>>, affect_future: bool)
    ensures
        deletes_future(span, affect_future) == Some(true) <==> (span == Some("future"@) || (
        affect_future && (span is None || span == Some("this"@)))),
        deletes_future(span, affect_future) == Some(false) <==> !affect_future && (span is None
            || span == Some("this"@)),
{
    spans_are_this_or_future(span);
    reveal_strlit("this");
    reveal_strlit("future");
    assert("this"@.len() != "future"@.len());
}

} // verus!
