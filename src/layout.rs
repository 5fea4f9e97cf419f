//! The four digit slots: where they sit, and how they are created.
use vstd::prelude::*;
use crate::host::{HostReply, HostRequest, ImageHandle, WatchFaceError};

verus! {

/// Number of digit slots on the face.
pub const SLOT_COUNT: usize = 4;

/// One digit slot: a fixed screen position and the host image object placed
/// there. `bound` is the catalog index of the glyph that the object shows.
#[derive(Clone, Copy, Debug, PartialEq, Eq, Structural)]
pub struct Slot {
    pub x: i32,
    pub y: i32,
    pub handle: ImageHandle,
    pub bound: u8,
}

/// Horizontal position of slot `k`: top-left, top-right, bottom-left,
/// bottom-right in that order.
pub open spec fn slot_x(k: nat) -> i32 {
    if k == 0 || k == 2 { 40 } else { 120 }
}

/// Vertical position of slot `k`.
pub open spec fn slot_y(k: nat) -> i32 {
    if k < 2 { 20 } else { 120 }
}

/// Slot `k` as created: at its fixed position, holding `handle`, showing the
/// glyph of digit 0.
pub open spec fn fresh_slot(k: nat, handle: ImageHandle) -> Slot {
    Slot { x: slot_x(k), y: slot_y(k), handle, bound: 0 }
}

/// The screen position of slot `k`.
pub fn slot_position(k: usize) -> (r: (i32, i32))
    requires
        k < SLOT_COUNT,
    ensures
        r == (slot_x(k as nat), slot_y(k as nat)),
{
    let x: i32 = if k == 0 || k == 2 { 40 } else { 120 };
    let y: i32 = if k < 2 { 20 } else { 120 };
    (x, y)
}

/// The step that slot creation has reached for the slot being made.
#[derive(Clone, Copy, Debug, PartialEq, Eq, Structural)]
pub enum InitPhase {
    /// The image object has yet to be created.
    Create,
    /// The object exists and has yet to be positioned.
    Position(ImageHandle),
    /// The object is positioned and has yet to show its first glyph.
    Bind(ImageHandle),
}

/// Creates the four slots one host request at a time: for each slot in
/// order, create an image object, position it, and bind it to digit 0.
pub struct Initializer {
    pub slots: Vec<Slot>,
    pub phase: InitPhase,
}

/// Where a reply has taken slot creation.
pub enum InitStep {
    /// More requests are needed.
    Continue(Initializer),
    /// All four slots are created, positioned and bound.
    Ready(Vec<Slot>),
    /// The host refused a request; no slot is handed out.
    Failed(WatchFaceError),
}

impl Initializer {
    /// Every slot made so far sits at its place and shows digit 0, and at
    /// least one slot is still to come.
    pub open spec fn wf(&self) -> bool {
        &&& self.slots@.len() < SLOT_COUNT
        &&& forall|k: int| 0 <= k < self.slots@.len() ==> #[trigger] self.slots@[k] == fresh_slot(
            k as nat,
            self.slots@[k].handle,
        )
    }

    /// No slot made yet; the first request creates an image object.
    pub fn new() -> (r: Initializer)
        ensures
            r.wf(),
            r.slots@.len() == 0,
            r.phase == InitPhase::Create,
    {
        Initializer { slots: Vec::new(), phase: InitPhase::Create }
    }

    /// The request to hand the host next.
    pub fn request(&self) -> (r: HostRequest)
        requires
            self.wf(),
        ensures
            r == match self.phase {
                InitPhase::Create => HostRequest::CreateImage,
                InitPhase::Position(h) => HostRequest::SetPosition {
                    handle: h,
                    x: slot_x(self.slots@.len()),
                    y: slot_y(self.slots@.len()),
                },
                InitPhase::Bind(h) => HostRequest::SetSource { handle: h, glyph: 0 },
            },
    {
        match self.phase {
            InitPhase::Create => HostRequest::CreateImage,
            InitPhase::Position(h) => {
                let (x, y) = slot_position(self.slots.len());
                HostRequest::SetPosition { handle: h, x, y }
            },
            InitPhase::Bind(h) => HostRequest::SetSource { handle: h, glyph: 0 },
        }
    }

    /// Takes the host's reply to `self.request()`. Any reply but the one the
    /// request hopes for ends creation with the error of that request.
    pub fn on_reply(self, reply: HostReply) -> (r: InitStep)
        requires
            self.wf(),
        ensures
            match (self.phase, reply) {
                (InitPhase::Create, HostReply::Created(h)) => r matches InitStep::Continue(n) && n.wf()
                    && n.slots@ == self.slots@ && n.phase == InitPhase::Position(h),
                (InitPhase::Create, _) => r == InitStep::Failed(WatchFaceError::WidgetCreationError),
                (InitPhase::Position(h), HostReply::Accepted) => r matches InitStep::Continue(n)
                    && n.wf() && n.slots@ == self.slots@ && n.phase == InitPhase::Bind(h),
                (InitPhase::Position(_), _) => r == InitStep::Failed(WatchFaceError::PositioningError),
                (InitPhase::Bind(h), HostReply::Accepted) => {
                    let made = self.slots@.push(fresh_slot(self.slots@.len(), h));
                    if made.len() == SLOT_COUNT {
                        r matches InitStep::Ready(s) && s@ == made
                    } else {
                        r matches InitStep::Continue(n) && n.wf() && n.slots@ == made
                            && n.phase == InitPhase::Create
                    }
                },
                (InitPhase::Bind(_), _) => r == InitStep::Failed(WatchFaceError::RebindError),
            },
    {
        let mut this = self;
        match (this.phase, reply) {
            (InitPhase::Create, HostReply::Created(h)) => {
                this.phase = InitPhase::Position(h);
                InitStep::Continue(this)
            },
            (InitPhase::Create, _) => InitStep::Failed(WatchFaceError::WidgetCreationError),
            (InitPhase::Position(h), HostReply::Accepted) => {
                this.phase = InitPhase::Bind(h);
                InitStep::Continue(this)
            },
            (InitPhase::Position(_), _) => InitStep::Failed(WatchFaceError::PositioningError),
            (InitPhase::Bind(h), HostReply::Accepted) => {
                let (x, y) = slot_position(this.slots.len());
                this.slots.push(Slot { x, y, handle: h, bound: 0 });
                if this.slots.len() == SLOT_COUNT {
                    InitStep::Ready(this.slots)
                } else {
                    this.phase = InitPhase::Create;
                    InitStep::Continue(this)
                }
            },
            (InitPhase::Bind(_), _) => InitStep::Failed(WatchFaceError::RebindError),
        }
    }
}

} // verus!
