//! The watch face: its catalog, its four slots, and the update engine.
use vstd::prelude::*;
use crate::catalog::{build_catalog, catalog_wf, ImageDescriptor};
use crate::host::{HostReply, HostRequest, ImageHandle, WatchFaceError};
use crate::layout::{fresh_slot, InitPhase, InitStep, Initializer, Slot, SLOT_COUNT};

verus! {

/// A time of day, as shown on the face.
#[derive(Clone, Copy, Debug, PartialEq, Eq, Structural)]
pub struct Time {
    pub hour: u8,
    pub minute: u8,
}

/// A time of day in range: hour in 0..=23, minute in 0..=59.
pub open spec fn time_wf(t: Time) -> bool {
    t.hour < 24 && t.minute < 60
}

/// The digit that slot `k` shows for time `t`: tens of the hour, units of the
/// hour, tens of the minute, units of the minute.
pub open spec fn digit_spec(t: Time, k: nat) -> u8 {
    if k == 0 {
        t.hour / 10
    } else if k == 1 {
        t.hour % 10
    } else if k == 2 {
        t.minute / 10
    } else {
        t.minute % 10
    }
}

/// The four digits of `t`, in slot order.
pub open spec fn digits_spec(t: Time) -> Seq<u8> {
    seq![digit_spec(t, 0), digit_spec(t, 1), digit_spec(t, 2), digit_spec(t, 3)]
}

/// The catalog index that each slot is bound to.
pub open spec fn bindings(slots: Seq<Slot>) -> Seq<u8> {
    slots.map_values(|s: Slot| s.bound)
}

/// `s` re-pointed at the glyph `d`, all else kept.
pub open spec fn rebound(s: Slot, d: u8) -> Slot {
    Slot { bound: d, ..s }
}

/// The host accepted every one of the first `i + 1` rebind requests.
pub open spec fn accepted_through(replies: Seq<bool>, i: int) -> bool {
    forall|j: int| 0 <= j <= i ==> #[trigger] replies[j]
}

/// The slots after an update to `t` in which the host answered the rebind
/// requests, in slot order, with `replies`: each slot up to the first refusal
/// shows its digit of `t`, the rest are untouched.
pub open spec fn updated_slots(slots: Seq<Slot>, t: Time, replies: Seq<bool>) -> Seq<Slot> {
    Seq::new(
        slots.len(),
        |k: int|
            if accepted_through(replies, k) {
                rebound(slots[k], digit_spec(t, k as nat))
            } else {
                slots[k]
            },
    )
}

/// After an update to a time in range that the host accepted throughout, the
/// slots are bound to exactly the four digits of that time, whatever they
/// showed before; positions and handles stay.
pub proof fn lemma_update_shows_time(slots: Seq<Slot>, t: Time, replies: Seq<bool>)
    requires
        slots.len() == SLOT_COUNT,
        time_wf(t),
        replies.len() >= SLOT_COUNT,
        accepted_through(replies, 3),
    ensures
        bindings(updated_slots(slots, t, replies)) == digits_spec(t),
        forall|k: int|
            0 <= k < SLOT_COUNT ==> {
                &&& (#[trigger] updated_slots(slots, t, replies)[k]).handle == slots[k].handle
                &&& updated_slots(slots, t, replies)[k].x == slots[k].x
                &&& updated_slots(slots, t, replies)[k].y == slots[k].y
            },
{
    let u = updated_slots(slots, t, replies);
    assert forall|k: int| 0 <= k < SLOT_COUNT implies accepted_through(replies, k) by {
        assert forall|j: int| 0 <= j <= k implies #[trigger] replies[j] by {
            assert(0 <= j <= 3);
        }
    }
    assert(bindings(u) =~= digits_spec(t));
}

/// Updating twice to the same time, with the host accepting both times, gives
/// the same slots, and so the same bindings, after the second update as after
/// the first.
pub proof fn lemma_update_idempotent(
    slots: Seq<Slot>,
    t: Time,
    first: Seq<bool>,
    second: Seq<bool>,
)
    requires
        slots.len() == SLOT_COUNT,
        time_wf(t),
        first.len() >= SLOT_COUNT,
        second.len() >= SLOT_COUNT,
        accepted_through(first, 3),
        accepted_through(second, 3),
    ensures
        updated_slots(updated_slots(slots, t, first), t, second) == updated_slots(slots, t, first),
        bindings(updated_slots(updated_slots(slots, t, first), t, second)) == digits_spec(t),
{
    let once = updated_slots(slots, t, first);
    let twice = updated_slots(once, t, second);
    lemma_update_shows_time(slots, t, first);
    lemma_update_shows_time(once, t, second);
    assert forall|k: int| 0 <= k < SLOT_COUNT implies #[trigger] twice[k] == once[k] by {
        assert(bindings(once)[k] == digits_spec(t)[k]);
        assert(bindings(twice)[k] == digits_spec(t)[k]);
    }
    assert(twice =~= once);
}

/// From slots that show time `t1`, an accepted update to `t2` changes the
/// binding of exactly those slots whose digit differs between the two times;
/// every other slot is left as it was. Every slot is still sent its request,
/// changed or not (see `HandDrawnWatchFace::rebind_request`).
pub proof fn lemma_update_changes_only_new_digits(
    slots: Seq<Slot>,
    t1: Time,
    t2: Time,
    replies: Seq<bool>,
)
    requires
        slots.len() == SLOT_COUNT,
        time_wf(t1),
        time_wf(t2),
        bindings(slots) == digits_spec(t1),
        replies.len() >= SLOT_COUNT,
        accepted_through(replies, 3),
    ensures
        forall|k: int|
            0 <= k < SLOT_COUNT ==> ((#[trigger] updated_slots(slots, t2, replies)[k]).bound
                != slots[k].bound <==> digit_spec(t1, k as nat) != digit_spec(t2, k as nat)),
        forall|k: int|
            0 <= k < SLOT_COUNT && digit_spec(t1, k as nat) == digit_spec(t2, k as nat)
                ==> #[trigger] updated_slots(slots, t2, replies)[k] == slots[k],
{
    let u = updated_slots(slots, t2, replies);
    lemma_update_shows_time(slots, t2, replies);
    assert forall|k: int| 0 <= k < SLOT_COUNT implies {
        &&& ((#[trigger] u[k]).bound != slots[k].bound <==> digit_spec(t1, k as nat)
            != digit_spec(t2, k as nat))
        &&& (digit_spec(t1, k as nat) == digit_spec(t2, k as nat) ==> u[k] == slots[k])
    } by {
        assert(bindings(slots)[k] == digits_spec(t1)[k]);
        assert(bindings(u)[k] == digits_spec(t2)[k]);
    }
}

/// The digit slot `k` shows for `t`.
pub fn digit(t: Time, k: usize) -> (r: u8)
    requires
        time_wf(t),
        k < SLOT_COUNT,
    ensures
        r == digit_spec(t, k as nat),
        r < 10,
{
    if k == 0 {
        t.hour / 10
    } else if k == 1 {
        t.hour % 10
    } else if k == 2 {
        t.minute / 10
    } else {
        t.minute % 10
    }
}

/// The four digits of `t`, in slot order.
pub fn digits(t: Time) -> (r: Vec<u8>)
    requires
        time_wf(t),
    ensures
        r@ == digits_spec(t),
{
    let mut r: Vec<u8> = Vec::new();
    let mut k: usize = 0;
    while k < SLOT_COUNT
        invariant
            k <= SLOT_COUNT,
            time_wf(t),
            r@ == digits_spec(t).take(k as int),
        decreases SLOT_COUNT - k,
    {
        r.push(digit(t, k));
        proof {
            assert(digits_spec(t).take(k + 1) =~= digits_spec(t).take(k as int).push(
                digit_spec(t, k as nat),
            ));
        }
        k = k + 1;
    }
    assert(digits_spec(t).take(4) =~= digits_spec(t));
    r
}

/// Number of host requests that creating the slots takes: create, position
/// and bind, for each of the four slots.
pub const INIT_REQUESTS: usize = 12;

/// The reply that the `i`-th request of slot creation hopes for: a new
/// object for a creation, acceptance for a position or a first binding.
pub open spec fn reply_fits(r: HostReply, i: nat) -> bool {
    if i % 3 == 0 {
        r is Created
    } else {
        r == HostReply::Accepted
    }
}

/// The error with which slot creation stops when its `i`-th request fails.
pub open spec fn init_error(i: nat) -> WatchFaceError {
    if i % 3 == 0 {
        WatchFaceError::WidgetCreationError
    } else if i % 3 == 1 {
        WatchFaceError::PositioningError
    } else {
        WatchFaceError::RebindError
    }
}

/// Each of the first `i + 1` replies of slot creation is the one hoped for.
pub open spec fn init_fits_through(replies: Seq<HostReply>, i: int) -> bool {
    forall|j: int| 0 <= j <= i ==> reply_fits(#[trigger] replies[j], j as nat)
}

/// The handle in a creation reply.
pub open spec fn created_handle(r: HostReply) -> ImageHandle {
    match r {
        HostReply::Created(h) => h,
        _ => 0,
    }
}

/// The four slots that slot creation makes from `replies` when every reply
/// fits.
pub open spec fn created_slots(replies: Seq<HostReply>) -> Seq<Slot> {
    Seq::new(SLOT_COUNT as nat, |k: int| fresh_slot(k as nat, created_handle(replies[3 * k])))
}

/// An update in progress: the time being shown and the next slot to rebind.
#[derive(Clone, Copy, Debug, PartialEq, Eq, Structural)]
pub struct UpdateRun {
    pub time: Time,
    pub next: usize,
}

/// The watch face: four slots on screen and the ten glyphs they can show.
pub struct HandDrawnWatchFace {
    pub slots: Vec<Slot>,
    pub bitmaps: Vec<ImageDescriptor>,
}

impl HandDrawnWatchFace {
    /// Four slots, a well-formed catalog, and every slot bound to an entry of
    /// it.
    pub open spec fn wf(&self) -> bool {
        &&& self.slots@.len() == SLOT_COUNT
        &&& catalog_wf(self.bitmaps@)
        &&& forall|k: int| 0 <= k < SLOT_COUNT ==> #[trigger] self.slots@[k].bound < 10
    }

    /// Assembles a face from four created slots, building the catalog.
    pub fn from_slots(slots: Vec<Slot>) -> (r: HandDrawnWatchFace)
        requires
            slots@.len() == SLOT_COUNT,
            forall|k: int| 0 <= k < SLOT_COUNT ==> #[trigger] slots@[k].bound < 10,
        ensures
            r.wf(),
            r.slots@ == slots@,
    {
        HandDrawnWatchFace { slots, bitmaps: build_catalog() }
    }

    /// Creates the face. `replies[i]` is the host's answer to the `i`-th
    /// request of slot creation (see `Initializer`); requests stop at the
    /// first answer that does not fit. The face is returned only when all
    /// twelve fit, else the error of the failed request and no slot at all.
    pub fn new(replies: &Vec<HostReply>) -> (r: Result<HandDrawnWatchFace, WatchFaceError>)
        requires
            replies@.len() >= INIT_REQUESTS,
        ensures
            init_fits_through(replies@, 11) ==> (r matches Ok(f) && f.wf() && f.slots@
                == created_slots(replies@)),
            !init_fits_through(replies@, 11) ==> exists|i: int|
                0 <= i < INIT_REQUESTS && init_fits_through(replies@, i - 1) && !reply_fits(
                    #[trigger] replies@[i],
                    i as nat,
                ) && r == Err::<HandDrawnWatchFace, WatchFaceError>(init_error(i as nat)),
    {
        let mut init = Initializer::new();
        let mut i: usize = 0;
        loop
            invariant
                replies@.len() >= INIT_REQUESTS,
                i < INIT_REQUESTS,
                init.wf(),
                init_fits_through(replies@, i - 1),
                init.slots@.len() == i / 3,
                i % 3 == 0 ==> init.phase == InitPhase::Create,
                i % 3 == 1 ==> init.phase == InitPhase::Position(created_handle(replies@[i - 1])),
                i % 3 == 2 ==> init.phase == InitPhase::Bind(created_handle(replies@[i - 2])),
                forall|m: int|
                    0 <= m < init.slots@.len() ==> #[trigger] init.slots@[m] == fresh_slot(
                        m as nat,
                        created_handle(replies@[3 * m]),
                    ),
            decreases INIT_REQUESTS - i,
        {
            let reply = replies[i];
            let ghost slots_before = init.slots@;
            let step = init.on_reply(reply);
            proof {
                if !reply_fits(reply, i as nat) {
                    assert(!init_fits_through(replies@, 11));
                }
            }
            match step {
                InitStep::Continue(n) => {
                    init = n;
                    proof {
                        assert(init_fits_through(replies@, i as int));
                        if i % 3 == 2 {
                            let m: int = i as int / 3;
                            assert(init.slots@[m] == fresh_slot(
                                m as nat,
                                created_handle(replies@[3 * m]),
                            ));
                        }
                    }
                    i = i + 1;
                },
                InitStep::Ready(s) => {
                    proof {
                        assert(init_fits_through(replies@, 11));
                        assert(s@ =~= created_slots(replies@));
                    }
                    return Ok(HandDrawnWatchFace::from_slots(s));
                },
                InitStep::Failed(e) => {
                    return Err(e);
                },
            }
        }
    }

    /// Starts an update to `time`, beginning with the top-left slot.
    pub fn begin_update(&self, time: Time) -> (r: UpdateRun)
        requires
            time_wf(time),
        ensures
            r == (UpdateRun { time, next: 0 }),
    {
        UpdateRun { time, next: 0 }
    }

    /// The request that re-points the next slot of `run` at its digit. It is
    /// made whatever the slot shows now.
    pub fn rebind_request(&self, run: &UpdateRun) -> (r: HostRequest)
        requires
            self.wf(),
            time_wf(run.time),
            run.next < SLOT_COUNT,
        ensures
            r == (HostRequest::SetSource {
                handle: self.slots@[run.next as int].handle,
                glyph: digit_spec(run.time, run.next as nat),
            }),
    {
        HostRequest::SetSource {
            handle: self.slots[run.next].handle,
            glyph: digit(run.time, run.next),
        }
    }

    /// Takes the host's answer to `rebind_request`. On acceptance the slot is
    /// bound to its digit and the run moves on; it returns `Some(Ok(()))` once
    /// all four slots are done. On refusal the run stops with `RebindError`,
    /// leaving the slots as they are.
    pub fn on_rebind_reply(&mut self, run: &mut UpdateRun, accepted: bool) -> (r: Option<
        Result<(), WatchFaceError>,
    >)
        requires
            old(self).wf(),
            time_wf(old(run).time),
            old(run).next < SLOT_COUNT,
        ensures
            final(self).wf(),
            final(self).bitmaps@ == old(self).bitmaps@,
            final(run).time == old(run).time,
            accepted ==> {
                &&& final(self).slots@ == old(self).slots@.update(
                    old(run).next as int,
                    rebound(
                        old(self).slots@[old(run).next as int],
                        digit_spec(old(run).time, old(run).next as nat),
                    ),
                )
                &&& final(run).next == old(run).next + 1
                &&& r == if final(run).next == SLOT_COUNT {
                    Some(Ok::<(), WatchFaceError>(()))
                } else {
                    None
                }
            },
            !accepted ==> {
                &&& final(self).slots@ == old(self).slots@
                &&& final(run).next == old(run).next
                &&& r == Some(Err::<(), WatchFaceError>(WatchFaceError::RebindError))
            },
    {
        if !accepted {
            return Some(Err(WatchFaceError::RebindError));
        }
        let k = run.next;
        let mut s = self.slots[k];
        s.bound = digit(run.time, k);
        self.slots.set(k, s);
        run.next = k + 1;
        if run.next == SLOT_COUNT {
            Some(Ok(()))
        } else {
            None
        }
    }

    /// Shows `time`. `replies[k]` is the host's answer to the rebind request
    /// of slot `k`; requests go out in slot order and stop at the first
    /// refusal, which makes the update fail with `RebindError`.
    pub fn update(&mut self, time: Time, replies: &Vec<bool>) -> (r: Result<(), WatchFaceError>)
        requires
            old(self).wf(),
            time_wf(time),
            replies@.len() >= SLOT_COUNT,
        ensures
            final(self).wf(),
            final(self).bitmaps@ == old(self).bitmaps@,
            final(self).slots@ == updated_slots(old(self).slots@, time, replies@),
            r == if accepted_through(replies@, 3) {
                Ok::<(), WatchFaceError>(())
            } else {
                Err(WatchFaceError::RebindError)
            },
    {
        let mut run = self.begin_update(time);
        loop
            invariant
                old(self).wf(),
                self.wf(),
                self.bitmaps@ == old(self).bitmaps@,
                run.time == time,
                time_wf(time),
                run.next < SLOT_COUNT,
                replies@.len() >= SLOT_COUNT,
                accepted_through(replies@, run.next - 1),
                forall|k: int|
                    0 <= k < SLOT_COUNT ==> #[trigger] self.slots@[k] == if k < run.next {
                        rebound(old(self).slots@[k], digit_spec(time, k as nat))
                    } else {
                        old(self).slots@[k]
                    },
            decreases SLOT_COUNT - run.next,
        {
            let k = run.next;
            let ghost before = self.slots@;
            let step = self.on_rebind_reply(&mut run, replies[k]);
            match step {
                Some(res) => {
                    proof {
                        if replies@[k as int] {
                            assert(accepted_through(replies@, 3));
                        } else {
                            assert(!accepted_through(replies@, 3));
                            assert forall|j: int| k <= j < SLOT_COUNT implies !accepted_through(
                                replies@,
                                j,
                            ) by {}
                        }
                        let upd = updated_slots(old(self).slots@, time, replies@);
                        assert forall|j: int| 0 <= j < SLOT_COUNT implies #[trigger] self.slots@[j]
                            == upd[j] by {
                            assert(before[j] == if j < k {
                                rebound(old(self).slots@[j], digit_spec(time, j as nat))
                            } else {
                                old(self).slots@[j]
                            });
                            if j < k {
                                assert(accepted_through(replies@, j));
                            } else if j == k && replies@[k as int] {
                                assert(accepted_through(replies@, j));
                            } else {
                                assert(!accepted_through(replies@, j));
                            }
                        }
                        assert(self.slots@ =~= upd);
                    }
                    return res;
                },
                None => {},
            }
        }
    }
}

} // verus!
