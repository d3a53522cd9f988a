//! The edits that follow once a reminder or an event has been saved: its
//! alarms, its geofence and its recurrence.

use crate::model::{AlarmDraft, AlarmInfo, AlarmProximity, Real, RecurrenceRule, StoreError, StructuredLocation, ONE_HUNDRED_BITS};
use crate::recurrence::{cannot_recur, parse_recurrence_param, recurrence_is_as_supplied, recurrence_outcome, rule_is_as_supplied};
use crate::request::{AlarmParam, GeofenceInput, RecurrenceParam, StructuredLocationInput};
use crate::text::{is_text, opt_view};
use crate::words::{proximity_named, proximity_of, to_proximity};
use vstd::prelude::*;

verus! {

/// One edit of a saved item.
#[derive(PartialEq, Eq, Debug)]
pub enum Edit {
    /// Remove the alarm at an index.
    RemoveAlarm(usize),
    /// Add an alarm behind the others.
    AddAlarm(AlarmDraft),
    /// Attach a geofence.
    SetGeofence(StructuredLocation, AlarmProximity),
    /// Replace the recurrence rule.
    SetRecurrence(RecurrenceRule),
    /// Remove every recurrence rule.
    ClearRecurrence,
}

// ---------------------------------------------------------------------------
// Places
// ---------------------------------------------------------------------------

/// The place of a geofence.
pub open spec fn geofence_place(g: GeofenceInput) -> StructuredLocation {
    StructuredLocation {
        title: g.title,
        latitude: g.latitude,
        longitude: g.longitude,
        radius: g.radius_meters,
    }
}

/// The place and the crossing of a geofence that may be absent.
pub open spec fn geofence_of(g: Option<GeofenceInput>) -> Option<
    (StructuredLocation, AlarmProximity),
> {
    match g {
        Some(f) => Some((geofence_place(f), proximity_of(f.proximity))),
        None => None,
    }
}

/// The place and the crossing of a geofence that may be absent.
pub fn to_geofence(g: Option<GeofenceInput>) -> (r: Option<(StructuredLocation, AlarmProximity)>)
    ensures
        r == geofence_of(g),
{
    match g {
        Some(f) => {
            let proximity: AlarmProximity = to_proximity(f.proximity);
            Some(
                (
                    StructuredLocation {
                        title: f.title,
                        latitude: f.latitude,
                        longitude: f.longitude,
                        radius: f.radius_meters,
                    },
                    proximity,
                ),
            )
        },
        None => None,
    }
}

/// The place that an event is given.
pub open spec fn place_of(s: StructuredLocationInput) -> StructuredLocation {
    StructuredLocation {
        title: s.title,
        latitude: s.latitude,
        longitude: s.longitude,
        radius: s.radius_meters,
    }
}

/// The place that an event is given, if any.
pub open spec fn opt_place_of(s: Option<StructuredLocationInput>) -> Option<StructuredLocation> {
    match s {
        Some(p) => Some(place_of(p)),
        None => None,
    }
}

/// The place that an event is given, if any.
pub fn to_place(s: Option<StructuredLocationInput>) -> (r: Option<StructuredLocation>)
    ensures
        r == opt_place_of(s),
{
    match s {
        Some(p) => Some(
            StructuredLocation {
                title: p.title,
                latitude: p.latitude,
                longitude: p.longitude,
                radius: p.radius_meters,
            },
        ),
        None => None,
    }
}

// ---------------------------------------------------------------------------
// Alarms
// ---------------------------------------------------------------------------

/// The place of an alarm: only with a title and both coordinates. Without a
/// radius it is a hundred meters wide.
pub open spec fn alarm_place(param: AlarmParam) -> Option<StructuredLocation> {
    match (param.location_title, param.latitude, param.longitude) {
        (Some(title), Some(latitude), Some(longitude)) => Some(
            StructuredLocation {
                title,
                latitude,
                longitude,
                radius: match param.radius {
                    Some(radius) => radius,
                    None => (Real { bits: ONE_HUNDRED_BITS }),
                },
            },
        ),
        _ => None,
    }
}

/// The alarm that a request describes.
pub open spec fn alarm_of(param: AlarmParam) -> AlarmDraft {
    AlarmDraft {
        relative_offset: param.relative_offset,
        proximity: proximity_named(opt_view(param.proximity)),
        location: alarm_place(param),
        email_address: param.email_address,
        sound_name: param.sound_name,
        url: param.url,
    }
}

/// The alarms that a request describes.
pub open spec fn alarms_of(params: Seq<AlarmParam>) -> Seq<AlarmDraft> {
    params.map_values(|p: AlarmParam| alarm_of(p))
}

/// The alarm that a request describes.
pub fn alarm_param_to_info(param: &AlarmParam) -> (alarm: AlarmDraft)
    ensures
        alarm == alarm_of(*param),
{
    let proximity: AlarmProximity = if is_text(&param.proximity, "enter") {
        AlarmProximity::Enter
    } else if is_text(&param.proximity, "leave") {
        AlarmProximity::Leave
    } else {
        AlarmProximity::Off
    };
    let location: Option<StructuredLocation> = match (
        &param.location_title,
        param.latitude,
        param.longitude,
    ) {
        (Some(title), Some(latitude), Some(longitude)) => Some(
            StructuredLocation {
                title: title.clone(),
                latitude,
                longitude,
                radius: match param.radius {
                    Some(radius) => radius,
                    None => Real { bits: ONE_HUNDRED_BITS },
                },
            },
        ),
        _ => None,
    };
    AlarmDraft {
        relative_offset: param.relative_offset,
        proximity,
        location,
        email_address: param.email_address.clone(),
        sound_name: param.sound_name.clone(),
        url: param.url.clone(),
    }
}

/// Removes `n` alarms, from the last to the first.
pub open spec fn removals(n: nat) -> Seq<Edit> {
    Seq::new(n, |i: int| Edit::RemoveAlarm((n - 1 - i) as usize))
}

/// Adds alarms in their order.
pub open spec fn additions(params: Seq<AlarmParam>) -> Seq<Edit> {
    params.map_values(|p: AlarmParam| Edit::AddAlarm(alarm_of(p)))
}

/// Replaces `existing` alarms by those of a request.
pub open spec fn alarm_edits(existing: nat, params: Seq<AlarmParam>) -> Seq<Edit> {
    removals(existing) + additions(params)
}

/// How many alarms there are to be removed; where they cannot be read, none.
pub open spec fn count_held(held: Result<Vec<AlarmInfo>, StoreError>) -> nat {
    match held {
        Ok(alarms) => alarms@.len(),
        Err(_) => 0,
    }
}

/// The edits that replace the alarms of an item.
pub fn plan_alarms(held: &Result<Vec<AlarmInfo>, StoreError>, params: &Vec<AlarmParam>) -> (edits:
    Vec<Edit>)
    ensures
        edits@ == alarm_edits(count_held(*held), params@),
{
    let n: usize = match held {
        Ok(alarms) => alarms.len(),
        Err(_) => 0,
    };
    let mut edits: Vec<Edit> = Vec::new();
    let mut left: usize = n;
    while left > 0
        invariant
            left <= n,
            n == count_held(*held),
            edits@ == removals(n as nat).take(n - left),
        decreases left,
    {
        left = left - 1;
        edits.push(Edit::RemoveAlarm(left));
    }
    assert(removals(n as nat).take(n as int) =~= removals(n as nat));
    let mut i: usize = 0;
    while i < params.len()
        invariant
            i <= params@.len(),
            edits@ == removals(n as nat) + additions(params@).take(i as int),
        decreases params@.len() - i,
    {
        edits.push(Edit::AddAlarm(alarm_param_to_info(&params[i])));
        assert(additions(params@).take(i + 1) =~= additions(params@).take(i as int).push(
            additions(params@)[i as int],
        ));
        i = i + 1;
    }
    assert(additions(params@).take(i as int) =~= additions(params@));
    edits
}

/// What an edit leaves of the alarms of an item, as the store carries it out.
/// An index that no alarm has changes nothing; what a geofence does is not
/// looked at here.
pub open spec fn alarms_after(held: Seq<AlarmDraft>, edit: Edit) -> Seq<AlarmDraft> {
    match edit {
        Edit::RemoveAlarm(i) => if i < held.len() {
            held.remove(i as int)
        } else {
            held
        },
        Edit::AddAlarm(alarm) => held.push(alarm),
        _ => held,
    }
}

/// What the first `n` edits leave of the alarms of an item.
pub open spec fn alarms_after_all(held: Seq<AlarmDraft>, edits: Seq<Edit>, n: nat) -> Seq<
    AlarmDraft,
>
    decreases n,
{
    if n == 0 {
        held
    } else {
        alarms_after(alarms_after_all(held, edits, (n - 1) as nat), edits[n - 1])
    }
}

proof fn removing_counts_down(held: Seq<AlarmDraft>, edits: Seq<Edit>, n: nat)
    requires
        held.len() <= usize::MAX,
        n <= held.len() <= edits.len(),
        edits.take(held.len() as int) == removals(held.len()),
    ensures
        alarms_after_all(held, edits, n) == held.take(held.len() - n),
    decreases n,
{
    if n > 0 {
        removing_counts_down(held, edits, (n - 1) as nat);
        assert(edits[n - 1] == edits.take(held.len() as int)[n - 1]);
        let before = held.take(held.len() - (n - 1));
        assert(before.remove(held.len() - n) =~= held.take(held.len() - n));
    } else {
        assert(held.take(held.len() as int) =~= held);
    }
}

proof fn adding_counts_up(
    held: Seq<AlarmDraft>,
    params: Seq<AlarmParam>,
    edits: Seq<Edit>,
    n: nat,
)
    requires
        held.len() <= usize::MAX,
        edits == alarm_edits(held.len(), params),
        n <= params.len(),
    ensures
        alarms_after_all(held, edits, held.len() + n) == alarms_of(params).take(n as int),
    decreases n,
{
    if n > 0 {
        adding_counts_up(held, params, edits, (n - 1) as nat);
        assert(edits[held.len() + n - 1] == additions(params)[n - 1]);
        assert(alarms_of(params).take(n - 1).push(alarm_of(params[n - 1])) =~= alarms_of(
            params,
        ).take(n as int));
    } else {
        assert(edits.take(held.len() as int) =~= removals(held.len()));
        removing_counts_down(held, edits, held.len());
        assert(held.take(0) =~= alarms_of(params).take(0));
    }
}

/// Whatever alarms an item has, the edits leave it with those of the request
/// and no others.
pub proof fn alarms_are_replaced(held: Seq<AlarmDraft>, params: Seq<AlarmParam>)
    requires
        held.len() <= usize::MAX,
    ensures
        ({
            let edits = alarm_edits(held.len(), params);
            alarms_after_all(held, edits, edits.len()) == alarms_of(params)
        }),
{
    let edits = alarm_edits(held.len(), params);
    adding_counts_up(held, params, edits, params.len());
    assert(alarms_of(params).take(params.len() as int) =~= alarms_of(params));
}

// ---------------------------------------------------------------------------
// Geofence and recurrence
// ---------------------------------------------------------------------------

/// Attaches a geofence, if there is one.
pub open spec fn geofence_edits(g: Option<GeofenceInput>) -> Seq<Edit> {
    match geofence_of(g) {
        Some((place, proximity)) => seq![Edit::SetGeofence(place, proximity)],
        None => Seq::empty(),
    }
}

/// Sets the recurrence that a request describes, given what came of reading
/// it. One that cannot be read changes nothing; an empty frequency clears,
/// where clearing is offered.
pub open spec fn recurrence_edits(
    recurrence: Option<RecurrenceParam>,
    clearable: bool,
    rule: Result<RecurrenceRule, String>,
) -> Seq<Edit> {
    match recurrence {
        Some(params) => if clearable && params.frequency@.len() == 0 {
            seq![Edit::ClearRecurrence]
        } else {
            match rule {
                Ok(r) => seq![Edit::SetRecurrence(r)],
                Err(_) => Seq::empty(),
            }
        },
        None => Seq::empty(),
    }
}

/// What may come of reading a recurrence that may be absent.
pub open spec fn recurrence_read(
    recurrence: Option<RecurrenceParam>,
    rule: Result<RecurrenceRule, String>,
) -> bool {
    recurrence matches Some(params) ==> recurrence_outcome(params, rule)
}

/// `edits` may follow the edits of the alarms.
pub open spec fn later_edits(
    geofence: Option<GeofenceInput>,
    recurrence: Option<RecurrenceParam>,
    clearable: bool,
    edits: Seq<Edit>,
) -> bool {
    exists|rule: Result<RecurrenceRule, String>| #[trigger]
        recurrence_read(recurrence, rule) && edits == geofence_edits(geofence) + recurrence_edits(
            recurrence,
            clearable,
            rule,
        )
}

/// The edits that follow those of the alarms, given what came of reading the
/// recurrence.
pub fn edits_from(
    geofence: Option<GeofenceInput>,
    recurrence: &Option<RecurrenceParam>,
    clearable: bool,
    rule: Result<RecurrenceRule, String>,
) -> (edits: Vec<Edit>)
    ensures
        edits@ == geofence_edits(geofence) + recurrence_edits(*recurrence, clearable, rule),
{
    let mut edits: Vec<Edit> = Vec::new();
    if let Some((place, proximity)) = to_geofence(geofence) {
        edits.push(Edit::SetGeofence(place, proximity));
    }
    if let Some(params) = recurrence {
        if clearable && params.frequency.as_str().is_empty() {
            edits.push(Edit::ClearRecurrence);
        } else if let Ok(r) = rule {
            edits.push(Edit::SetRecurrence(r));
        }
    }
    edits
}

/// The edits that follow those of the alarms.
pub fn plan_later(
    geofence: Option<GeofenceInput>,
    recurrence: &Option<RecurrenceParam>,
    clearable: bool,
) -> (edits: Vec<Edit>)
    ensures
        later_edits(geofence, *recurrence, clearable, edits@),
{
    let rule: Result<RecurrenceRule, String> = match recurrence {
        Some(params) => parse_recurrence_param(params),
        None => Err(String::new()),
    };
    let ghost read: Result<RecurrenceRule, String> = rule;
    let edits: Vec<Edit> = edits_from(geofence, recurrence, clearable, rule);
    assert(recurrence_read(*recurrence, read));
    edits
}

// ---------------------------------------------------------------------------
// What a request asks for is what is saved
// ---------------------------------------------------------------------------

/// The place has the title, the position and the radius that were supplied.
pub open spec fn is_place(
    place: StructuredLocation,
    title: Seq<char>,
    latitude: Real,
    longitude: Real,
    radius: Real,
) -> bool {
    &&& place.title@ == title
    &&& place.latitude == latitude
    &&& place.longitude == longitude
    &&& place.radius == radius
}

/// An event is given the place that is supplied, and none without one.
pub proof fn place_is_as_supplied(s: Option<StructuredLocationInput>)
    ensures
        opt_place_of(s) is Some <==> s is Some,
        s matches Some(p) ==> is_place(
            opt_place_of(s)->0,
            p.title@,
            p.latitude,
            p.longitude,
            p.radius_meters,
        ),
{
}

/// A geofence has the place that is supplied and goes off at the crossing that
/// is supplied; there is none without one.
pub proof fn geofence_is_as_supplied(g: Option<GeofenceInput>)
    ensures
        geofence_of(g) is Some <==> g is Some,
        g matches Some(f) ==> {
            &&& is_place(
                (geofence_of(g)->0).0,
                f.title@,
                f.latitude,
                f.longitude,
                f.radius_meters,
            )
            &&& ((geofence_of(g)->0).1 is Enter <==> f.proximity is Enter)
            &&& ((geofence_of(g)->0).1 is Leave <==> f.proximity is Leave)
        },
{
}

/// An alarm has what is supplied for it. It has a place exactly where a title
/// and both coordinates are supplied, and the place is a hundred meters wide
/// where no radius is. It goes off at a crossing exactly where "enter" or
/// "leave" is supplied.
pub proof fn alarm_is_as_supplied(param: AlarmParam)
    ensures
        ({
            let alarm = alarm_of(param);
            &&& alarm.relative_offset == param.relative_offset
            &&& alarm.email_address == param.email_address
            &&& alarm.sound_name == param.sound_name
            &&& alarm.url == param.url
            &&& (alarm.proximity is Enter <==> opt_view(param.proximity) == Some("enter"@))
            &&& (alarm.proximity is Leave <==> opt_view(param.proximity) == Some("leave"@))
            &&& (alarm.location is Some <==> param.location_title is Some && param.latitude is Some
                && param.longitude is Some)
            &&& alarm.location matches Some(place) ==> is_place(
                place,
                param.location_title->0@,
                param.latitude->0,
                param.longitude->0,
                if param.radius is Some {
                    param.radius->0
                } else {
                    Real { bits: 0x4059_0000_0000_0000 }
                },
            )
        }),
{
    reveal_strlit("enter");
    reveal_strlit("leave");
    assert("enter"@[0] != "leave"@[0]);
}

/// The edit concerns the recurrence.
pub open spec fn is_recurrence_edit(edit: Edit) -> bool {
    edit is SetRecurrence || edit is ClearRecurrence
}

/// After the alarms comes the geofence that is supplied, if there is one, and
/// then the recurrence that is supplied. A recurrence is set unless its
/// frequency is no frequency, one of its values is out of range or its end
/// means no point; it is never dropped for another reason.
pub proof fn later_edits_are_as_supplied(
    geofence: Option<GeofenceInput>,
    recurrence: Option<RecurrenceParam>,
    clearable: bool,
    edits: Seq<Edit>,
)
    requires
        later_edits(geofence, recurrence, clearable, edits),
    ensures
        edits.len() <= 2,
        geofence matches Some(g) ==> {
            &&& edits.len() > 0
            &&& edits[0] is SetGeofence
            &&& is_place(
                edits[0]->SetGeofence_0,
                g.title@,
                g.latitude,
                g.longitude,
                g.radius_meters,
            )
            &&& (edits[0]->SetGeofence_1 is Enter <==> g.proximity is Enter)
            &&& (edits[0]->SetGeofence_1 is Leave <==> g.proximity is Leave)
        },
        forall|i: int|
            0 <= i < edits.len() && (#[trigger] edits[i]) is SetGeofence ==> geofence is Some && i
                == 0,
        recurrence is None ==> forall|i: int|
            0 <= i < edits.len() ==> !is_recurrence_edit(#[trigger] edits[i]),
        recurrence is Some && clearable && recurrence->0.frequency@.len() == 0 ==> edits.len() > 0
            && edits.last() is ClearRecurrence,
        recurrence is Some && !(clearable && recurrence->0.frequency@.len() == 0) ==> {
            ||| edits.len() > 0 && edits.last() is SetRecurrence && rule_is_as_supplied(
                recurrence->0,
                edits.last()->SetRecurrence_0,
            )
            ||| cannot_recur(recurrence->0) && forall|i: int|
                0 <= i < edits.len() ==> !is_recurrence_edit(#[trigger] edits[i])
        },
{
    let rule = choose|rule: Result<RecurrenceRule, String>| #[trigger]
        recurrence_read(recurrence, rule) && edits == geofence_edits(geofence) + recurrence_edits(
            recurrence,
            clearable,
            rule,
        );
    if let Some(params) = recurrence {
        recurrence_is_as_supplied(params, rule);
    }
}

/// As many alarms are removed as there are, from the last to the first, so that
/// no index is out of date; none is where they cannot be read. Those that are
/// supplied are added behind them, in their order.
pub proof fn every_held_alarm_is_removed(
    reply: Result<Vec<AlarmInfo>, StoreError>,
    params: Seq<AlarmParam>,
)
    ensures
        ({
            let edits = alarm_edits(count_held(reply), params);
            let n = if reply is Ok {
                reply->Ok_0@.len() as int
            } else {
                0
            };
            &&& edits.len() == n + params.len()
            &&& forall|i: int|
                0 <= i < n ==> (#[trigger] edits[i]) is RemoveAlarm && (n <= usize::MAX
                    ==> edits[i]->RemoveAlarm_0 == n - 1 - i)
            &&& forall|i: int|
                0 <= i < params.len() ==> #[trigger] edits[n + i] == Edit::AddAlarm(
                    alarm_of(params[i]),
                )
        }),
{
}

} // verus!
