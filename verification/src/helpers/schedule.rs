//! The daily reminder job: events that fall on the current day and have not
//! been reminded yet are marked reminded, and the members of each event's
//! space are collected to be mailed.
use crate::controllers::space_controller::{member_user_key, members_of_space, users_in_space};
use crate::datetime::{same_day, DateTime};
use crate::model::{Event, Row, Space, SpaceUser, User};
use crate::queries::{find_space, space_row};
use crate::store::{DbView, Store};
use crate::table::{join_rows, select_rows, update_rows, update_where};
use vstd::prelude::*;

verus! {

/// Events not reminded yet whose date is the day of `today`.
pub open spec fn due(today: DateTime) -> spec_fn(Event) -> bool {
    |e: Event| !e.reminded && same_day(e.event_date, today)
}

/// Events whose id is one of `ids`.
pub open spec fn id_among(ids: Seq<i32>) -> spec_fn(Event) -> bool {
    |e: Event| ids.contains(e.id)
}

/// An event marked as reminded.
pub open spec fn mark_reminded() -> spec_fn(Event) -> Event {
    |e: Event| Event { reminded: true, ..e }
}

/// The ids of the given events, in order.
pub open spec fn ids_of(es: Seq<Event>) -> Seq<i32> {
    es.map_values(|e: Event| e.id)
}

/// Every due event names an existing space.
pub open spec fn spaces_known(v: DbView, today: DateTime) -> bool {
    forall|i: int| 0 <= i < v.events.filter(due(today)).len()
        ==> #[trigger] space_row(v, v.events.filter(due(today))[i].space_id) is Some
}

/// A reminder to send: the event, its space and the space's members.
pub struct Reminder {
    pub event: Event,
    pub space: Space,
    pub members: Vec<(SpaceUser, User)>,
}

impl View for Reminder {
    type V = (Event, Space, Seq<(SpaceUser, User)>);

    open spec fn view(&self) -> (Event, Space, Seq<(SpaceUser, User)>) {
        (self.event, self.space, self.members@)
    }
}

/// Whether every due event names an existing space, as the job needs.
pub fn reminders_ready(db: &Store, today: DateTime) -> (r: bool)
    ensures
        r == spaces_known(db@, today),
{
    let pred = |e: &Event| -> (b: bool) ensures b == due(today)(*e), {
        !e.reminded && e.event_date.year == today.year && e.event_date.month == today.month && e.event_date.day == today.day
    };
    let items = select_rows(&db.events, pred, Ghost(due(today)));
    let mut i: usize = 0;
    while i < items.len()
        invariant
            i <= items.len(),
            items@ == db@.events.filter(due(today)),
            forall|j: int| 0 <= j < i ==> #[trigger] space_row(db@, items@[j].space_id) is Some,
        decreases items.len() - i,
    {
        if find_space(db, items[i].space_id).is_none() {
            return false;
        }
        i = i + 1;
    }
    true
}

/// The store after the job: every event sharing its id with a due event is
/// marked reminded.
pub open spec fn after_reminders(v: DbView, today: DateTime) -> DbView {
    DbView { events: update_where(v.events, id_among(ids_of(v.events.filter(due(today)))), mark_reminded()), ..v }
}

/// The reminder due for an event.
pub open spec fn reminder_for(v: DbView, e: Event) -> (Event, Space, Seq<(SpaceUser, User)>) {
    let s = space_row(v, e.space_id)->0;
    (e, s, users_in_space(v, s.id))
}

/// Marking the event `id` after the events of `ids` marks the events of both.
proof fn lemma_mark_twice(s: Seq<Event>, ids: Seq<i32>, id: i32)
    ensures
        update_where(update_where(s, id_among(ids), mark_reminded()), id_among(seq![id]), mark_reminded())
            == update_where(s, id_among(ids.push(id)), mark_reminded()),
{
    let lhs = update_where(update_where(s, id_among(ids), mark_reminded()), id_among(seq![id]), mark_reminded());
    let rhs = update_where(s, id_among(ids.push(id)), mark_reminded());
    assert forall|k: int| 0 <= k < s.len() implies #[trigger] lhs[k] == rhs[k] by {
        let x = s[k];
        assert(ids.push(id).contains(x.id) <==> (ids.contains(x.id) || x.id == id)) by {
            if ids.contains(x.id) {
                let j = choose|j: int| 0 <= j < ids.len() && ids[j] == x.id;
                assert(ids.push(id)[j] == x.id);
            }
            if x.id == id {
                assert(ids.push(id)[ids.len() as int] == id);
            }
            if ids.push(id).contains(x.id) {
                let j = choose|j: int| 0 <= j < ids.push(id).len() && ids.push(id)[j] == x.id;
                if j < ids.len() {
                    assert(ids[j] == x.id);
                }
            }
        }
        assert(seq![id].contains(x.id) <==> x.id == id) by {
            if x.id == id {
                assert(seq![id][0] == id);
            }
        }
    }
    assert(lhs =~= rhs);
}

/// Runs the reminder job for the day of `today`: every due event is marked
/// reminded, and for each of them, in table order, the event, its space and
/// the space's members (with their accounts) are returned to be mailed.
pub fn run_job(db: &mut Store, today: DateTime) -> (r: Vec<Reminder>)
    requires
        spaces_known(old(db)@, today),
    ensures
        final(db)@ == after_reminders(old(db)@, today),
        r@.len() == old(db)@.events.filter(due(today)).len(),
        forall|i: int| 0 <= i < r@.len() ==> #[trigger] r@[i]@ == reminder_for(old(db)@, old(db)@.events.filter(due(today))[i]),
{
    let ghost orig = db@;
    let pred = |e: &Event| -> (b: bool) ensures b == due(today)(*e), {
        !e.reminded && e.event_date.year == today.year && e.event_date.month == today.month && e.event_date.day == today.day
    };
    let items = select_rows(&db.events, pred, Ghost(due(today)));
    let ghost due_list = items@;
    let mut out: Vec<Reminder> = Vec::new();
    let mut k: usize = 0;
    assert(update_where(orig.events, id_among(ids_of(due_list).take(0)), mark_reminded()) =~= orig.events);
    while k < items.len()
        invariant
            k <= items.len(),
            items@ == due_list,
            due_list == orig.events.filter(due(today)),
            spaces_known(orig, today),
            db@ == (DbView { events: update_where(orig.events, id_among(ids_of(due_list).take(k as int)), mark_reminded()), ..orig }),
            out@.len() == k,
            forall|i: int| 0 <= i < k ==> #[trigger] out@[i]@ == reminder_for(orig, due_list[i]),
        decreases items.len() - k,
    {
        let e = items[k].duplicate();
        let id = e.id;
        proof {
            lemma_mark_twice(orig.events, ids_of(due_list).take(k as int), id);
            assert(ids_of(due_list).take(k as int).push(id) =~= ids_of(due_list).take(k + 1));
        }
        let sel = |x: &Event| -> (b: bool) ensures b == id_among(seq![id])(*x), {
            proof {
                assert(seq![id].contains(x.id) <==> x.id == id) by {
                    if x.id == id {
                        assert(seq![id][0] == id);
                    }
                }
            }
            x.id == id
        };
        let mark = |x: &Event| -> (y: Event) ensures y == mark_reminded()(*x), { Event { reminded: true, ..x.duplicate() } };
        update_rows(&mut db.events, sel, mark, Ghost(id_among(seq![id])), Ghost(mark_reminded()));
        assert(space_row(orig, due_list[k as int].space_id) is Some);
        let s = match find_space(db, e.space_id) {
            Some(s) => s,
            None => {
                assert(false);
                return out;
            },
        };
        let sid = s.id;
        let mp = |m: &SpaceUser| -> (b: bool) ensures b == members_of_space(sid)(*m), { m.space_id == sid };
        let members = select_rows(&db.spaces_users, mp, Ghost(members_of_space(sid)));
        let key = |m: &SpaceUser, u: &User| -> (b: bool) ensures b == member_user_key()(*m, *u), { u.id == m.user_id };
        let joined = join_rows(&members, &db.users, key, Ghost(member_user_key()));
        out.push(Reminder { event: e, space: s, members: joined });
        k = k + 1;
    }
    assert(ids_of(due_list).take(k as int) =~= ids_of(due_list));
    out
}

/// The nanoseconds from the instant `now` to the instant `next`, each
/// given as Unix seconds and the nanoseconds past them.
pub open spec fn nanos_between(now_secs: int, now_nanos: int, next_secs: int, next_nanos: int) -> int {
    (next_secs - now_secs) * 1_000_000_000 + (next_nanos - now_nanos)
}

/// A count of nanoseconds as whole milliseconds, truncated toward zero.
pub open spec fn whole_millis(d: int) -> int {
    if d >= 0 {
        d / 1_000_000
    } else {
        -((-d) / 1_000_000)
    }
}

/// The delay before the next run of the daily job, in milliseconds: the
/// whole milliseconds from `now` to the next run at `next` (Unix seconds
/// and nanoseconds), taken as `u64` the way a cast takes it, so a negative
/// count wraps around.
pub fn delay_millis(now_secs: i64, now_nanos: u32, next_secs: i64, next_nanos: u32) -> (r: u64)
    requires
        now_nanos < 1_000_000_000,
        next_nanos < 1_000_000_000,
        -0x7fff_ffff_ffff_ffff <= whole_millis(nanos_between(now_secs as int, now_nanos as int, next_secs as int, next_nanos as int))
            <= 0x7fff_ffff_ffff_ffff,
    ensures
        ({
            let ms = whole_millis(nanos_between(now_secs as int, now_nanos as int, next_secs as int, next_nanos as int));
            r == if ms >= 0 {
                ms
            } else {
                ms + 0x1_0000_0000_0000_0000
            }
        }),
{
    let secs: i128 = (next_secs as i128) - (now_secs as i128);
    let nanos: i128 = (next_nanos as i128) - (now_nanos as i128);
    assert(-0x1_0000_0000_0000_0000 <= secs <= 0x1_0000_0000_0000_0000);
    assert(-0x1_0000_0000_0000_0000 * 1_000_000_000 <= secs * 1_000_000_000 <= 0x1_0000_0000_0000_0000 * 1_000_000_000) by (nonlinear_arith)
        requires -0x1_0000_0000_0000_0000 <= secs <= 0x1_0000_0000_0000_0000;
    let d: i128 = secs * 1_000_000_000 + nanos;
    let ms: i128 = if d >= 0 {
        d / 1_000_000
    } else {
        -((-d) / 1_000_000)
    };
    if ms >= 0 {
        ms as u64
    } else {
        (ms + 0x1_0000_0000_0000_0000i128) as u64
    }
}

} // verus!
