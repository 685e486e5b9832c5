//! Events of a space: details, deletion, search, renaming, listing and
//! creation.
use crate::datetime::{date_at_midnight, dt_le, dt_not_after, midnight, valid_date};
use crate::insert::view_push_events;
use crate::model::{Event, Row};
use crate::paginate::{page_of, paginate};
use crate::queries::{load_member_ctx, member_ctx};
use crate::store::{rview, DbError, DbView, Store};
use crate::table::{
    any_match, delete_rows, delete_where, find_index, find_row, first_match, select_rows,
    sort_desc, sort_rows_desc, update_rows, update_where,
};
use crate::text::{eq_ignore_case, ilike, ilike_holds, ilike_pattern_ok, ilike_pattern_valid, same_ignore_case};
use crate::types::{
    opt_reply, AddEvent, AddUserToFolderPath, ChannelPathInfo, EditEvent, MailChannelPathInfo,
    OptionalResponse, PaginateQuery, PathInfo,
};
use vstd::prelude::*;
use vstd::string::StringExecFns;

verus! {

/// Events of a space whose name matches the pattern.
pub open spec fn event_name_ilike(space_id: i32, pat: Seq<char>) -> spec_fn(Event) -> bool {
    |e: Event| e.space_id == space_id && ilike_pattern_ok(pat) && ilike(e.event_name@, pat)
}

/// Events of a space.
pub open spec fn events_of_space(space_id: i32) -> spec_fn(Event) -> bool {
    |e: Event| e.space_id == space_id
}

/// Events of a space whose name or description matches the pattern.
pub open spec fn event_text_ilike(space_id: i32, pat: Seq<char>) -> spec_fn(Event) -> bool {
    |e: Event| e.space_id == space_id && ilike_pattern_ok(pat) && (ilike(e.event_name@, pat) || ilike(e.event_description@, pat))
}

/// Events of a space named `name`, ignoring case.
pub open spec fn event_named_like(space_id: i32, name: Seq<char>) -> spec_fn(Event) -> bool {
    |e: Event| e.space_id == space_id && eq_ignore_case(e.event_name@, name)
}

/// The event with the given id.
pub open spec fn event_id_is(id: i32) -> spec_fn(Event) -> bool {
    |e: Event| e.id == id
}

/// Order of events by date.
pub open spec fn event_date_le() -> spec_fn(Event, Event) -> bool {
    |a: Event, b: Event| dt_le(a.event_date, b.event_date)
}

/// An event with a new name and description.
pub open spec fn with_event_text(name: String, desc: String) -> spec_fn(Event) -> Event {
    |e: Event| Event { event_name: name, event_description: desc, ..e }
}

/// The search pattern `%text%`.
pub open spec fn contains_pattern(text: Seq<char>) -> Seq<char> {
    "%"@ + text + "%"@
}

/// The pattern `%text%` that finds `text` anywhere.
pub fn make_contains_pattern(text: &String) -> (r: String)
    ensures
        r@ == contains_pattern(text@),
{
    let mut p = String::from_str("%");
    p.append(text.as_str());
    p.append("%");
    p
}

/// A listing of events: the total that the page reports and the page.
pub open spec fn event_listing(rows: Seq<Event>, q: PaginateQuery) -> Result<(i64, Seq<Event>), DbError> {
    match page_of(sort_desc(rows, event_date_le()), q.page, q.per_page) {
        Err(e) => Err(e),
        Ok((p, t)) => Ok((t as i64, p)),
    }
}

/// Sorts events latest first and cuts out the page.
fn list_events(rows: &Vec<Event>, q: &PaginateQuery) -> (r: Result<(i64, Vec<Event>), DbError>)
    ensures
        match event_listing(rows@, *q) {
            Err(e) => r == Err::<(i64, Vec<Event>), DbError>(e),
            Ok((t, p)) => r matches Ok((n, v)) && n == t && v@ == p,
        },
{
    let le = |a: &Event, b: &Event| -> (x: bool) ensures x == event_date_le()(*a, *b), { dt_not_after(&a.event_date, &b.event_date) };
    let sorted = sort_rows_desc(rows, le, Ghost(event_date_le()));
    match paginate(&sorted, q.page, q.per_page) {
        Ok((v, t)) => Ok((t, v)),
        Err(e) => Err(e),
    }
}

/// An event of the named space, found by name, for a member.
pub fn get_event_details_db(db: &Store, uid: i32, space_name: &ChannelPathInfo) -> (r: Result<
    OptionalResponse<String, Event>,
    DbError,
>)
    ensures
        rview(r) == match member_ctx(db@, uid, space_name.info@) {
            Err(e) => Err(e),
            Ok((u, s, m)) => if !ilike_pattern_ok(space_name.channel@) {
                Err(DbError::BadPattern)
            } else {
                match first_match(db@.events, event_name_ilike(s.id, space_name.channel@)) {
                    None => Err(DbError::NotFound),
                    Some(e) => Ok((true, Some("event details"@), Some(e))),
                }
            },
        },
{
    let (_u, s, _m) = match load_member_ctx(db, uid, space_name.info.as_str()) {
        Ok(x) => x,
        Err(e) => return Err(e),
    };
    let pat = &space_name.channel;
    if !ilike_pattern_valid(pat.as_str()) {
        return Err(DbError::BadPattern);
    }
    let sid = s.id;
    let pred = |e: &Event| -> (b: bool) ensures b == event_name_ilike(sid, pat@)(*e), { e.space_id == sid && ilike_holds(e.event_name.as_str(), pat.as_str()) };
    match find_row(&db.events, pred, Ghost(event_name_ilike(sid, pat@))) {
        Some(e) => Ok(opt_reply(true, "event details", Some(e))),
        None => Err(DbError::NotFound),
    }
}

/// A member of the named space deletes the event with the given id.
pub fn delete_event_db(db: &mut Store, uid: i32, space_name: &AddUserToFolderPath) -> (r: Result<
    OptionalResponse<String, String>,
    DbError,
>)
    ensures
        match member_ctx(old(db)@, uid, space_name.info@) {
            Err(e) => rview(r) == Err::<(bool, Option<Seq<char>>, Option<Seq<char>>), DbError>(e)
                && final(db)@ == old(db)@,
            Ok(_) => final(db)@ == (DbView { events: delete_where(old(db)@.events, event_id_is(space_name.id)), ..old(db)@ })
                && rview(r) == Ok::<(bool, Option<Seq<char>>, Option<Seq<char>>), DbError>(
                (true, Some("Event deleted successfully"@), None),
            ),
        },
{
    match load_member_ctx(db, uid, space_name.info.as_str()) {
        Ok(_) => {},
        Err(e) => return Err(e),
    }
    let id = space_name.id;
    let pred = |e: &Event| -> (b: bool) ensures b == event_id_is(id)(*e), { e.id == id };
    delete_rows(&mut db.events, pred, Ghost(event_id_is(id)));
    Ok(opt_reply(true, "Event deleted successfully", None))
}

/// A member searches the events of the named space whose name or
/// description contains the text (`ILIKE '%text%'`), latest first, paginated.
pub fn search_event_db(db: &Store, uid: i32, space_name: &MailChannelPathInfo, item: &PaginateQuery) -> (r:
    Result<OptionalResponse<String, (i64, Vec<Event>)>, DbError>)
    ensures
        rview(r) == match member_ctx(db@, uid, space_name.info@) {
            Err(e) => Err(e),
            Ok((u, s, m)) => {
                let pat = contains_pattern(space_name.name@);
                if !ilike_pattern_ok(pat) {
                    Err(DbError::BadPattern)
                } else {
                    match event_listing(db@.events.filter(event_text_ilike(s.id, pat)), *item) {
                        Err(e) => Err(e),
                        Ok(l) => Ok((true, Some("Search results gotten sucssfully"@), Some(l))),
                    }
                }
            },
        },
{
    let (_u, s, _m) = match load_member_ctx(db, uid, space_name.info.as_str()) {
        Ok(x) => x,
        Err(e) => return Err(e),
    };
    let pat = make_contains_pattern(&space_name.name);
    if !ilike_pattern_valid(pat.as_str()) {
        return Err(DbError::BadPattern);
    }
    let sid = s.id;
    let p = &pat;
    let pred = |e: &Event| -> (b: bool) ensures b == event_text_ilike(sid, p@)(*e), { e.space_id == sid && (ilike_holds(e.event_name.as_str(), p.as_str()) || ilike_holds(e.event_description.as_str(), p.as_str())) };
    let found = select_rows(&db.events, pred, Ghost(event_text_ilike(sid, pat@)));
    match list_events(&found, item) {
        Ok(l) => Ok(opt_reply(true, "Search results gotten sucssfully", Some(l))),
        Err(e) => Err(e),
    }
}

/// The space has an event of this name, ignoring case.
pub open spec fn event_name_clash(v: DbView, space_id: i32, name: Seq<char>) -> bool {
    any_match(v.events, event_named_like(space_id, name))
}

/// Whether the space has an event of this name, ignoring case.
fn event_name_taken(db: &Store, space_id: i32, name: &String) -> (r: bool)
    ensures
        r == event_name_clash(db@, space_id, name@),
{
    let pred = |e: &Event| -> (b: bool) ensures b == event_named_like(space_id, name@)(*e), { e.space_id == space_id && same_ignore_case(e.event_name.as_str(), name.as_str()) };
    let found = find_index(&db.events, pred, Ghost(event_named_like(space_id, name@)));
    proof {
        if found is Some {
            assert(event_named_like(space_id, name@)(db@.events[found->0 as int]));
        }
    }
    found.is_some()
}

/// A member renames and re-describes the event with the given id, unless
/// an event of the space already has the new name (ignoring case).
pub fn edit_event_db(db: &mut Store, uid: i32, space_name: &AddUserToFolderPath, item: &EditEvent) -> (r:
    Result<OptionalResponse<String, String>, DbError>)
    ensures
        match member_ctx(old(db)@, uid, space_name.info@) {
            Err(e) => rview(r) == Err::<(bool, Option<Seq<char>>, Option<Seq<char>>), DbError>(e)
                && final(db)@ == old(db)@,
            Ok((u, s, m)) => if event_name_clash(old(db)@, s.id, item.event_name@) {
                final(db)@ == old(db)@ && rview(r) == Ok::<
                    (bool, Option<Seq<char>>, Option<Seq<char>>),
                    DbError,
                >((false, Some("A similar event name already exist for this space"@), None))
            } else {
                final(db)@ == (DbView { events: update_where(old(db)@.events, event_id_is(space_name.id), with_event_text(item.event_name, item.event_description)), ..old(db)@ })
                    && rview(r) == Ok::<(bool, Option<Seq<char>>, Option<Seq<char>>), DbError>(
                    (true, Some("Event updated successfully"@), None),
                )
            },
        },
{
    let (_u, s, _m) = match load_member_ctx(db, uid, space_name.info.as_str()) {
        Ok(x) => x,
        Err(e) => return Err(e),
    };
    if event_name_taken(db, s.id, &item.event_name) {
        return Ok(opt_reply(false, "A similar event name already exist for this space", None));
    }
    let id = space_name.id;
    let name = &item.event_name;
    let desc = &item.event_description;
    let pred = |e: &Event| -> (b: bool) ensures b == event_id_is(id)(*e), { e.id == id };
    let f = |e: &Event| -> (r: Event) ensures r == with_event_text(*name, *desc)(*e), { Event { event_name: name.clone(), event_description: desc.clone(), ..e.duplicate() } };
    update_rows(&mut db.events, pred, f, Ghost(event_id_is(id)), Ghost(with_event_text(*name, *desc)));
    Ok(opt_reply(true, "Event updated successfully", None))
}

/// The events of the named space, latest first, paginated.
pub fn get_events_db(db: &Store, uid: i32, space_name: &PathInfo, item: &PaginateQuery) -> (r: Result<
    OptionalResponse<String, (i64, Vec<Event>)>,
    DbError,
>)
    ensures
        rview(r) == match member_ctx(db@, uid, space_name.info@) {
            Err(e) => Err(e),
            Ok((u, s, m)) => match event_listing(db@.events.filter(events_of_space(s.id)), *item) {
                Err(e) => Err(e),
                Ok(l) => Ok((true, Some("Event gotten successfully"@), Some(l))),
            },
        },
{
    let (_u, s, _m) = match load_member_ctx(db, uid, space_name.info.as_str()) {
        Ok(x) => x,
        Err(e) => return Err(e),
    };
    let sid = s.id;
    let pred = |e: &Event| -> (b: bool) ensures b == events_of_space(sid)(*e), { e.space_id == sid };
    let found = select_rows(&db.events, pred, Ghost(events_of_space(sid)));
    match list_events(&found, item) {
        Ok(l) => Ok(opt_reply(true, "Event gotten successfully", Some(l))),
        Err(e) => Err(e),
    }
}

/// The date of an event or task given as a year and `[month, day, ..]`:
/// midnight of that date, or `None` where the list is too short or the date
/// does not exist.
pub open spec fn requested_date(year: i32, md: Seq<u32>) -> Option<crate::datetime::DateTime> {
    if md.len() < 2 || !valid_date(year as int, md[0] as int, md[1] as int) {
        None
    } else {
        Some(midnight(year, md[0], md[1]))
    }
}

/// Reads the requested date.
pub fn read_date(year: i32, md: &Vec<u32>) -> (r: Option<crate::datetime::DateTime>)
    ensures
        r == requested_date(year, md@),
{
    if md.len() < 2 {
        return None;
    }
    date_at_midnight(year, md[0], md[1])
}

/// A member creates an event in the named space under a name that no event
/// of the space has (ignoring case), dated midnight of the given day; a day
/// that does not exist fails the request.
pub fn create_event_db(db: &mut Store, uid: i32, space_name: &PathInfo, item: &AddEvent) -> (r: Result<
    OptionalResponse<String, Event>,
    DbError,
>)
    requires
        old(db)@.ids.events < i32::MAX,
    ensures
        match member_ctx(old(db)@, uid, space_name.info@) {
            Err(e) => rview(r) == Err::<(bool, Option<Seq<char>>, Option<Event>), DbError>(e)
                && final(db)@ == old(db)@,
            Ok((u, s, m)) => if event_name_clash(old(db)@, s.id, item.event_name@) {
                final(db)@ == old(db)@ && rview(r) == Ok::<
                    (bool, Option<Seq<char>>, Option<Event>),
                    DbError,
                >((false, Some("A similar event name already exist for this space"@), None))
            } else {
                match requested_date(item.year, item.event_date@) {
                    None => rview(r) == Err::<(bool, Option<Seq<char>>, Option<Event>), DbError>(
                        DbError::Failure,
                    ) && final(db)@ == old(db)@,
                    Some(d) => {
                        let e = Event {
                            id: old(db)@.ids.events,
                            event_name: item.event_name,
                            event_description: item.event_description,
                            reminded: false,
                            event_date: d,
                            space_id: s.id,
                        };
                        final(db)@ == view_push_events(old(db)@, e) && rview(r) == Ok::<
                            (bool, Option<Seq<char>>, Option<Event>),
                            DbError,
                        >(
                            (
                                true,
                                Some(
                                    "Event created successfully. Space members would be notified on set date"@,
                                ),
                                Some(e),
                            ),
                        )
                    },
                }
            },
        },
{
    let (_u, s, _m) = match load_member_ctx(db, uid, space_name.info.as_str()) {
        Ok(x) => x,
        Err(e) => return Err(e),
    };
    if event_name_taken(db, s.id, &item.event_name) {
        return Ok(opt_reply(false, "A similar event name already exist for this space", None));
    }
    let d = match read_date(item.year, &item.event_date) {
        Some(d) => d,
        None => return Err(DbError::Failure),
    };
    let e = db.insert_events(item.event_name.clone(), item.event_description.clone(), false, d, s.id);
    Ok(
        opt_reply(
            true,
            "Event created successfully. Space members would be notified on set date",
            Some(e),
        ),
    )
}

} // verus!
