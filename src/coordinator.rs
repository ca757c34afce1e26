use vstd::prelude::*;

use crate::blend::{blend, blend_bytes};
use crate::buffer::{ImageBuffer, ImageView};
use crate::error::OverlayError;
use crate::factor::{BlendFactor, Ratio};

verus! {

/// The mathematical value of a computation request.
pub ghost struct RequestView {
    pub image: ImageView,
    pub flag: ImageView,
    pub factor: Ratio,
}

/// An owned snapshot of what one computation blends.
pub struct BlendRequest {
    pub image: ImageBuffer,
    pub flag: ImageBuffer,
    pub factor: BlendFactor,
}

impl View for BlendRequest {
    type V = RequestView;

    open spec fn view(&self) -> RequestView {
        RequestView { image: self.image@, flag: self.flag@, factor: self.factor@ }
    }
}

/// The result that a request's computation delivers.
pub open spec fn request_outcome(req: RequestView) -> Result<ImageView, OverlayError> {
    if req.image.width == req.flag.width && req.image.height == req.flag.height {
        Ok(
            ImageView {
                width: req.image.width,
                height: req.image.height,
                data: blend_bytes(req.image.data, req.flag.data, req.factor),
            },
        )
    } else {
        Err(OverlayError::DimensionMismatch)
    }
}

/// The view of a delivered outcome.
pub open spec fn outcome_view(r: Result<ImageBuffer, OverlayError>) -> Result<ImageView, OverlayError> {
    match r {
        Ok(img) => Ok(img@),
        Err(e) => Err(e),
    }
}

/// Runs one request to completion: the work that the background unit does.
pub fn run_request(req: BlendRequest) -> (r: Result<ImageBuffer, OverlayError>)
    ensures
        outcome_view(r) == request_outcome(req@),
{
    blend(&req.image, &req.flag, req.factor)
}

/// The mathematical state of a coordinator: the request in flight, if any,
/// and whether the inputs changed since the last computation was started.
pub ghost struct CoordView {
    pub in_flight: Option<RequestView>,
    pub dirty: bool,
}

/// Whether a submission is taken: only when nothing is in flight.
pub open spec fn accepts_submission(s: CoordView) -> bool {
    s.in_flight is None
}

/// The state after a submission of `req`: taken when idle, dropped when busy.
pub open spec fn after_submit(s: CoordView, req: RequestView) -> CoordView {
    if accepts_submission(s) {
        CoordView { in_flight: Some(req), ..s }
    } else {
        s
    }
}

/// The state after a poll; `delivered` says whether an outcome was waiting.
pub open spec fn after_poll(s: CoordView, delivered: bool) -> CoordView {
    if delivered {
        CoordView { in_flight: None, ..s }
    } else {
        s
    }
}

/// Runs at most one computation at a time and records pending changes.
///
/// It is `Idle` when nothing is in flight and `Computing` otherwise. The work
/// itself and the one-slot mailbox that carries its outcome are the caller's:
/// this type decides when to start, and what a delivery does.
pub struct Coordinator {
    computing: bool,
    dirty: bool,
    job: Ghost<Option<RequestView>>,
}

impl View for Coordinator {
    type V = CoordView;

    closed spec fn view(&self) -> CoordView {
        CoordView { in_flight: self.job@, dirty: self.dirty }
    }
}

impl Coordinator {
    #[verifier::type_invariant]
    spec fn inv(&self) -> bool {
        self.computing <==> self.job@ is Some
    }

    /// An idle coordinator with no pending change.
    pub fn new() -> (r: Coordinator)
        ensures
            r@ == (CoordView { in_flight: None, dirty: false }),
    {
        Coordinator { computing: false, dirty: false, job: Ghost(None) }
    }

    /// Whether a computation is in flight.
    pub fn is_computing(&self) -> (r: bool)
        ensures
            r == self@.in_flight is Some,
    {
        proof {
            use_type_invariant(self);
        }
        self.computing
    }

    /// Whether a change is waiting to be computed.
    pub fn is_dirty(&self) -> (r: bool)
        ensures
            r == self@.dirty,
    {
        self.dirty
    }

    /// Records that the inputs changed.
    pub fn mark_dirty(&mut self)
        ensures
            final(self)@ == (CoordView { dirty: true, ..old(self)@ }),
    {
        proof {
            use_type_invariant(&*self);
        }
        *self = Coordinator { computing: self.computing, dirty: true, job: self.job };
    }

    /// Once per interactive cycle: whether to start a computation now.
    ///
    /// When a change is pending and nothing is in flight, the change is
    /// consumed, and the answer is yes if there is an image to blend.
    pub fn take_update(&mut self, has_image: bool) -> (r: bool)
        ensures
            r == (old(self)@.dirty && old(self)@.in_flight is None && has_image),
            final(self)@ == (CoordView {
                dirty: old(self)@.dirty && old(self)@.in_flight is Some,
                ..old(self)@
            }),
    {
        proof {
            use_type_invariant(&*self);
        }
        if self.dirty && !self.computing {
            *self = Coordinator { computing: false, dirty: false, job: self.job };
            has_image
        } else {
            false
        }
    }

    /// Submits a request. When idle it becomes the computation in flight and
    /// is handed back to be run; when busy it is dropped with `Busy`.
    pub fn submit(&mut self, req: BlendRequest) -> (r: Result<BlendRequest, OverlayError>)
        ensures
            final(self)@ == after_submit(old(self)@, req@),
            accepts_submission(old(self)@) <==> r is Ok,
            r is Ok ==> r->Ok_0@ == req@,
            r is Err ==> r->Err_0 == OverlayError::Busy,
    {
        proof {
            use_type_invariant(&*self);
        }
        if self.computing {
            Err(OverlayError::Busy)
        } else {
            *self = Coordinator { computing: true, dirty: self.dirty, job: Ghost(Some(req@)) };
            Ok(req)
        }
    }

    /// The computation could not be started: back to idle, with the error
    /// to report.
    pub fn start_failed(&mut self) -> (r: OverlayError)
        ensures
            final(self)@ == (CoordView { in_flight: None, ..old(self)@ }),
            r == OverlayError::SpawnFailed,
    {
        *self = Coordinator { computing: false, dirty: self.dirty, job: Ghost(None) };
        OverlayError::SpawnFailed
    }

    /// Hands over what the mailbox held at this poll. An outcome (a result,
    /// or `ComputationFailed` for work that ended abnormally) returns the
    /// coordinator to idle; an empty mailbox changes nothing.
    pub fn poll(&mut self, mailbox: Option<Result<ImageBuffer, OverlayError>>) -> (r: Option<Result<ImageBuffer, OverlayError>>)
        ensures
            final(self)@ == after_poll(old(self)@, mailbox is Some),
            r == mailbox,
    {
        match mailbox {
            Some(outcome) => {
                *self = Coordinator { computing: false, dirty: self.dirty, job: Ghost(None) };
                Some(outcome)
            },
            None => None,
        }
    }
}

/// A submission while a computation is in flight is refused with `Busy` and
/// leaves that computation, and so its eventual outcome, untouched; once its
/// outcome has been polled the coordinator is idle and the next submission
/// is taken.
pub proof fn lemma_busy_then_idle(s: CoordView, late: RequestView, next: RequestView)
    requires
        s.in_flight is Some,
    ensures
        !accepts_submission(s),
        after_submit(s, late) == s,
        request_outcome(after_submit(s, late).in_flight->Some_0) == request_outcome(
            s.in_flight->Some_0,
        ),
        accepts_submission(after_poll(after_submit(s, late), true)),
        after_submit(after_poll(after_submit(s, late), true), next).in_flight == Some(next),
{
}

} // verus!
