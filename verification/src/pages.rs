//! What the pages show: the decisions behind the ride page, the navigation
//! bar and the driver's standing, from plain values.

use vstd::prelude::*;
use crate::clock::Timestamp;
use crate::ids::{first_field, uuid_first_field};
use crate::schema::person::{Person, PersonView};
use crate::schema::ride::Ride;
use crate::schema::session::Session;
use crate::text::{
    all_decimal_digits, decimal_text, decimal_value, hex_lower_text, hex_value, lemma_decimal_text_reads_back,
    lemma_hex_lower_text_reads_back,
    push_decimal, push_hex_lower, push_signed_decimal, signed_decimal_text,
};

verus! {

/// What a visitor can do about a seat on a ride.
#[derive(Debug)]
pub enum SeatAction {
    /// Give up the seat the visitor holds.
    Unreserve,
    /// Reserve a seat; the button is disabled with `notice` when no seat can
    /// be had.
    Reserve { enabled: bool, notice: String },
    /// Nothing (the visitor drives the ride).
    Nothing,
}

/// The decisions behind a ride's page.
#[derive(Debug)]
pub struct RideDetails {
    /// The ride's short identifier: the first field of its UUID in hexadecimal.
    pub short_id: String,
    /// Whether the visitor drives the ride (and may delete it).
    pub am_driver: bool,
    /// Whether the driver's reputation is shown as positive.
    pub positive_reputation: bool,
    /// The passengers' heading, "Passageiros (taken/seats)".
    pub passengers_label: String,
    /// Whether the ride has already departed.
    pub is_past: bool,
    /// Whether every seat is taken.
    pub is_full: bool,
    pub action: SeatAction,
}

/// How many passengers a ride takes: its seats, none where the count is negative.
pub open spec fn capacity(seats: i32) -> nat {
    if seats < 0 {
        0
    } else {
        seats as nat
    }
}

/// Whether `who` is among the passengers.
pub open spec fn holds_seat(riders: Seq<Person>, who: Seq<char>) -> bool {
    exists|i: int| 0 <= i < riders.len() && (#[trigger] riders[i]@).email == who
}

/// Whether the visitor drives the ride.
pub open spec fn drives(ride: Ride, viewer: Option<&Session>) -> bool {
    viewer matches Some(s) && ride.driver@ == s.creator@
}

/// Whether the visitor holds a seat on the ride.
pub open spec fn reserved(riders: Seq<Person>, viewer: Option<&Session>) -> bool {
    viewer matches Some(s) && holds_seat(riders, s.creator@)
}

/// The reason no seat can be had, if there is one.
pub open spec fn unavailable_notice(is_past: bool, is_full: bool) -> Seq<char> {
    if is_past {
        "Essa corrida já foi finalizada"@
    } else if is_full {
        "Não há vagas"@
    } else {
        ""@
    }
}

/// The passengers' heading.
pub open spec fn passengers_label_text(taken: nat, seats: i32) -> Seq<char> {
    "Passageiros ("@ + decimal_text(taken) + "/"@ + signed_decimal_text(seats as int) + ")"@
}

/// The passengers' heading counts the passengers: after "Passageiros (" comes
/// a run of digits, closed by "/", whose value is the number of passengers;
/// the heading ends with ")".
pub proof fn lemma_passengers_label_counts_riders(taken: nat, seats: i32)
    ensures
        ({
            let l = passengers_label_text(taken, seats);
            &&& l.len() > 13
            &&& l.subrange(0, 13) == "Passageiros ("@
            &&& l.last() == ')'
            &&& exists|k: int|
                13 < k < l.len() && #[trigger] l[k] == '/' && all_decimal_digits(l.subrange(13, k))
                    && decimal_value(l.subrange(13, k)) == taken
        }),
{
    reveal_strlit("Passageiros (");
    reveal_strlit("/");
    reveal_strlit(")");
    lemma_decimal_text_reads_back(taken);
    let d = decimal_text(taken);
    let l = passengers_label_text(taken, seats);
    let k: int = 13 + d.len() as int;
    assert(l.subrange(0, 13) =~= "Passageiros ("@);
    assert(l.subrange(13, k) =~= d);
    assert(l[k] == '/');
}

/// The address of a person's profile.
pub open spec fn profile_link_text(email: Seq<char>) -> Seq<char> {
    "/profiles/"@ + email
}

/// The address of the profile of the person with `email`.
pub fn profile_link(email: &str) -> (r: String)
    ensures
        r@ == profile_link_text(email@),
{
    let mut link = String::from_str("/profiles/");
    link.append(email);
    link
}

fn holds_seat_exec(riders: &Vec<Person>, who: &String) -> (r: bool)
    ensures
        r == holds_seat(riders@, who@),
        r == exists|i: int| 0 <= i < riders@.len() && (#[trigger] riders@[i]@).email == who@,
{
    let mut i: usize = 0;
    while i < riders.len()
        invariant
            i <= riders@.len(),
            forall|j: int| 0 <= j < i ==> (#[trigger] riders@[j]@).email != who@,
        decreases riders@.len() - i,
    {
        if *riders[i].email() == *who {
            assert(riders@[i as int]@.email == who@);
            return true;
        }
        i = i + 1;
    }
    false
}

/// Holding a seat does not depend on where in the list the passenger is:
/// nobody holds a seat on an empty list, a passenger added at the end or at
/// the front holds one, and adding someone else keeps whoever held one.
pub proof fn lemma_holds_seat_any_position(riders: Seq<Person>, p: Person, who: Seq<char>, i: int)
    ensures
        !holds_seat(Seq::<Person>::empty(), who),
        holds_seat(riders.push(p), who) <==> (holds_seat(riders, who) || p@.email == who),
        holds_seat(seq![p] + riders, who) <==> (p@.email == who || holds_seat(riders, who)),
        0 <= i < riders.len() && riders[i]@.email == who ==> holds_seat(riders, who),
{
    let pushed = riders.push(p);
    if holds_seat(pushed, who) {
        let j = choose|j: int| 0 <= j < pushed.len() && (#[trigger] pushed[j]@).email == who;
        if j < riders.len() {
            assert(riders[j]@.email == who);
        }
    }
    if holds_seat(riders, who) {
        let j = choose|j: int| 0 <= j < riders.len() && (#[trigger] riders[j]@).email == who;
        assert(pushed[j] == riders[j]);
        let front = seq![p] + riders;
        assert(front[j + 1] == riders[j]);
    }
    if p@.email == who {
        assert(pushed[riders.len() as int] == p);
        assert((seq![p] + riders)[0] == p);
    }
    let front = seq![p] + riders;
    if holds_seat(front, who) {
        let j = choose|j: int| 0 <= j < front.len() && (#[trigger] front[j]@).email == who;
        if j > 0 {
            assert(front[j] == riders[j - 1]);
        }
    }
    if 0 <= i < riders.len() && riders[i]@.email == who {
        assert(holds_seat(riders, who));
    }
}

/// The decisions behind the page of `ride`, seen by `viewer` (nobody when not
/// logged in) at `now`, with the ride's passengers and the driver's reputation.
pub fn ride_details(
    ride: &Ride,
    viewer: Option<&Session>,
    riders: &Vec<Person>,
    driver_reputation: i64,
    now: Timestamp,
) -> (d: RideDetails)
    ensures
        d.short_id@ == hex_lower_text(uuid_first_field(ride.id)),
        hex_value(d.short_id@) * 0x1_0000_0000_0000_0000_0000_0000 <= ride.id,
        (ride.id as nat) < (hex_value(d.short_id@) + 1) * 0x1_0000_0000_0000_0000_0000_0000,
        d.am_driver == drives(*ride, viewer),
        d.am_driver == (viewer matches Some(s) && ride.driver@ == s.creator@),
        d.is_full == (ride.seats < 0 || riders@.len() >= ride.seats),
        d.is_past == (now.secs > ride.departure.secs || (now.secs == ride.departure.secs
            && now.nanos > ride.departure.nanos)),
        d.action matches SeatAction::Reserve { enabled, notice } ==> (enabled == !(d.is_past || d.is_full)
            && (d.is_past ==> notice@ == "Essa corrida já foi finalizada"@)
            && (!d.is_past && d.is_full ==> notice@ == "Não há vagas"@)
            && (!d.is_past && !d.is_full ==> notice@.len() == 0)),
        (d.action is Nothing) <==> (!(d.action is Unreserve) && d.am_driver),
        d.positive_reputation == (driver_reputation >= 0),
        d.passengers_label@ == passengers_label_text(riders@.len(), ride.seats),
        d.is_past == now.later_than(ride.departure),
        d.is_full == (riders@.len() >= capacity(ride.seats)),
        reserved(riders@, viewer) ==> d.action is Unreserve,
        (viewer matches Some(s) && exists|i: int| 0 <= i < riders@.len() && (#[trigger] riders@[i]@).email == s.creator@)
            ==> d.action is Unreserve,
        (d.action is Unreserve) ==> (viewer matches Some(s) && exists|i: int|
            0 <= i < riders@.len() && (#[trigger] riders@[i]@).email == s.creator@),
        !reserved(riders@, viewer) && drives(*ride, viewer) ==> d.action is Nothing,
        !reserved(riders@, viewer) && !drives(*ride, viewer) ==> (d.action matches SeatAction::Reserve { enabled, notice }
            && enabled == !(d.is_past || d.is_full)
            && notice@ == unavailable_notice(d.is_past, d.is_full)),
{
    let mut short_id = String::new();
    let first = first_field(ride.id);
    push_hex_lower(&mut short_id, first as u64);
    proof {
        lemma_hex_lower_text_reads_back(first as nat);
        assert(short_id@ =~= hex_lower_text(first as nat));
    }
    let am_driver = match viewer {
        Some(s) => ride.driver == s.creator,
        None => false,
    };
    let is_past = now.is_after(&ride.departure);
    let capacity: usize = if ride.seats < 0 { 0 } else { ride.seats as usize };
    let is_full = riders.len() >= capacity;
    let already_reserved = match viewer {
        Some(s) => holds_seat_exec(riders, &s.creator),
        None => false,
    };
    let mut passengers_label = String::from_str("Passageiros (");
    push_decimal(&mut passengers_label, riders.len() as u64);
    passengers_label.append("/");
    push_signed_decimal(&mut passengers_label, ride.seats as i64);
    passengers_label.append(")");
    let action = if already_reserved {
        SeatAction::Unreserve
    } else if !am_driver {
        let notice: &str = if is_past {
            "Essa corrida já foi finalizada"
        } else if is_full {
            "Não há vagas"
        } else {
            ""
        };
        proof {
            reveal_strlit("");
        }
        SeatAction::Reserve { enabled: !(is_past || is_full), notice: String::from_str(notice) }
    } else {
        SeatAction::Nothing
    };
    RideDetails {
        short_id,
        am_driver,
        positive_reputation: driver_reputation >= 0,
        passengers_label,
        is_past,
        is_full,
        action,
    }
}

/// The links of the navigation bar besides the logo.
#[derive(Debug)]
pub enum NavbarLinks {
    /// The logo alone (the session is not to be shown).
    LogoOnly,
    /// The logged-in person's profile and the logout page.
    LoggedIn { profile: String },
    /// The login page.
    LoggedOut,
}

/// The links of the navigation bar for `session`, when the session is to be shown.
pub fn navbar_links(session: Option<&Session>, show_session: bool) -> (r: NavbarLinks)
    ensures
        !show_session ==> r is LogoOnly,
        show_session && session is None ==> r is LoggedOut,
        show_session ==> (session matches Some(s) ==> (r matches NavbarLinks::LoggedIn { profile }
            && profile@ == profile_link_text(s.creator@))),
{
    if show_session {
        match session {
            Some(s) => NavbarLinks::LoggedIn { profile: profile_link(s.creator.as_str()) },
            None => NavbarLinks::LoggedOut,
        }
    } else {
        NavbarLinks::LogoOnly
    }
}

/// Thumbs up minus thumbs down.
pub open spec fn rating_balance(ratings: Seq<Option<bool>>) -> int
    decreases ratings.len(),
{
    if ratings.len() == 0 {
        0
    } else {
        rating_balance(ratings.drop_last()) + match ratings.last() {
            Some(true) => 1int,
            Some(false) => -1int,
            None => 0int,
        }
    }
}

/// A driver's reputation from the ratings passengers gave on the driver's
/// rides: one point up for each thumb up, one down for each thumb down.
pub fn reputation(ratings: &Vec<Option<bool>>) -> (r: i64)
    requires
        ratings@.len() <= i64::MAX,
    ensures
        r == rating_balance(ratings@),
{
    let mut balance: i64 = 0;
    let mut i: usize = 0;
    while i < ratings.len()
        invariant
            i <= ratings@.len(),
            ratings@.len() <= i64::MAX,
            balance == rating_balance(ratings@.subrange(0, i as int)),
            -(i as int) <= balance <= i,
        decreases ratings@.len() - i,
    {
        proof {
            assert(ratings@.subrange(0, i as int + 1).drop_last() =~= ratings@.subrange(0, i as int));
        }
        match ratings[i] {
            Some(true) => balance = balance + 1,
            Some(false) => balance = balance - 1,
            None => {},
        }
        i = i + 1;
    }
    proof {
        assert(ratings@.subrange(0, ratings@.len() as int) =~= ratings@);
    }
    balance
}

} // verus!
