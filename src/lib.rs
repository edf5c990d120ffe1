use vstd::prelude::*;
use std::time::Instant;

pub mod laws;

verus! {

#[verifier::external_type_specification]
#[verifier::external_body]
pub struct ExInstant(std::time::Instant);

/// Relies on `Instant::now`: a reading of the monotonic clock. Nothing is
/// promised of its value.
pub assume_specification[ std::time::Instant::now ]() -> std::time::Instant;

/// Relies on `Instant::elapsed`: the time since `start`, in nanoseconds.
/// It depends on the clock, so nothing is promised of its value.
#[verifier::external_body]
fn nanos_since(start: &Instant) -> (r: u128) {
    start.elapsed().as_nanos()
}

/// What a transfer's state holds, as mathematical values.
pub ghost struct TransferView {
    /// Expected size of the transfer, in bytes.
    pub total: nat,
    /// Bytes observed so far.
    pub offset: nat,
    /// The resource being transferred.
    pub url: Seq<char>,
}

/// What a progress event holds, as mathematical values.
pub ghost struct EventView {
    pub url: Seq<char>,
    pub fraction_num: nat,
    pub fraction_den: nat,
    pub elapsed_nanos: nat,
    pub remaining_nanos: nat,
}

/// The completed fraction of a transfer, as numerator and denominator.
/// A transfer of zero bytes counts as complete, and more bytes than expected
/// count as exactly complete.
pub open spec fn fraction_parts(offset: nat, total: nat) -> (nat, nat) {
    if total == 0 {
        (1, 1)
    } else if offset >= total {
        (total, total)
    } else {
        (offset, total)
    }
}

/// Linear extrapolation of the time still needed: the time spent so far,
/// scaled by what is left over what is done.
pub open spec fn remaining_estimate(elapsed: nat, num: nat, den: nat) -> nat {
    if num == 0 || den <= num {
        0
    } else {
        (elapsed * (den - num) as nat / num) as nat
    }
}

/// The state after `delta` more bytes were observed. The byte count saturates
/// at the largest `usize`.
pub open spec fn advanced(s: TransferView, delta: nat) -> TransferView {
    let sum = s.offset + delta;
    TransferView {
        offset: if sum > usize::MAX { usize::MAX as nat } else { sum },
        ..s
    }
}

/// The event that a state reports, `elapsed` nanoseconds after the start.
pub open spec fn event_of(s: TransferView, elapsed: nat) -> EventView {
    let parts = fraction_parts(s.offset, s.total);
    EventView {
        url: s.url,
        fraction_num: parts.0,
        fraction_den: parts.1,
        elapsed_nanos: elapsed,
        remaining_nanos: remaining_estimate(elapsed, parts.0, parts.1),
    }
}

/// The download progress event.
pub struct ProgressEvent {
    /// The resource being transferred.
    pub url: String,
    /// Numerator of the completed fraction.
    pub fraction_num: usize,
    /// Denominator of the completed fraction; never zero in the events that
    /// `DownloadState` returns.
    pub fraction_den: usize,
    /// Nanoseconds since the transfer was started.
    pub elapsed_nanos: u64,
    /// Estimated nanoseconds until the transfer completes.
    pub remaining_nanos: u128,
}

impl View for ProgressEvent {
    type V = EventView;

    open spec fn view(&self) -> EventView {
        EventView {
            url: self.url@,
            fraction_num: self.fraction_num as nat,
            fraction_den: self.fraction_den as nat,
            elapsed_nanos: self.elapsed_nanos as nat,
            remaining_nanos: self.remaining_nanos as nat,
        }
    }
}

/// The state of one transfer.
pub struct DownloadState {
    start_time: Instant,
    len: usize,
    offset: usize,
    url: String,
}

impl View for DownloadState {
    type V = TransferView;

    closed spec fn view(&self) -> TransferView {
        TransferView { total: self.len as nat, offset: self.offset as nat, url: self.url@ }
    }
}

impl DownloadState {
    /// The instant at which the transfer was started; every elapsed time is
    /// measured from it.
    pub closed spec fn start(&self) -> Instant {
        self.start_time
    }

    /// Starts tracking a transfer of `len` bytes of the resource `url`.
    pub fn new(len: usize, url: &str) -> (r: DownloadState)
        ensures
            r@ == (TransferView { total: len as nat, offset: 0, url: url@ }),
    {
        let r = DownloadState { start_time: Instant::now(), len, offset: 0, url: url.to_owned() };
        proof {
            assert(r@ =~= (TransferView { total: len as nat, offset: 0, url: url@ }));
        }
        r
    }

    /// Expected size of the transfer, in bytes.
    pub fn total_size(&self) -> (r: usize)
        ensures
            r == self@.total,
    {
        self.len
    }

    /// Bytes observed so far.
    pub fn offset(&self) -> (r: usize)
        ensures
            r == self@.offset,
    {
        self.offset
    }

    /// Records `delta` more bytes, `elapsed_nanos` after the start, and returns
    /// the event to report, or `None` when `delta` is zero.
    pub fn advance(&mut self, delta: usize, elapsed_nanos: u64) -> (r: Option<ProgressEvent>)
        ensures
            final(self).start() == old(self).start(),
            delta == 0 ==> r is None && final(self)@ == old(self)@,
            delta > 0 ==> final(self)@ == advanced(old(self)@, delta as nat) && r is Some
                && r->0@ == event_of(final(self)@, elapsed_nanos as nat),
    {
        if delta == 0 {
            return None;
        }
        self.offset = self.offset.saturating_add(delta);
        let num: usize;
        let den: usize;
        if self.len == 0 {
            num = 1;
            den = 1;
        } else if self.offset >= self.len {
            num = self.len;
            den = self.len;
        } else {
            num = self.offset;
            den = self.len;
        }
        let remaining: u128 = if num == 0 || den <= num {
            0
        } else {
            let left: u128 = (den - num) as u128;
            assert((elapsed_nanos as u128) * left <= u64::MAX * usize::MAX) by (nonlinear_arith)
                requires
                    elapsed_nanos <= u64::MAX,
                    left <= usize::MAX,
            ;
            (elapsed_nanos as u128) * left / (num as u128)
        };
        let event = ProgressEvent {
            url: self.url.clone(),
            fraction_num: num,
            fraction_den: den,
            elapsed_nanos,
            remaining_nanos: remaining,
        };
        proof {
            assert(event@ =~= event_of(self@, elapsed_nanos as nat));
        }
        Some(event)
    }

    /// Records `delta` more bytes and returns the event to report, timed by the
    /// monotonic clock, or `None` when `delta` is zero.
    pub fn update(&mut self, delta: usize) -> (r: Option<ProgressEvent>)
        ensures
            final(self).start() == old(self).start(),
            delta == 0 ==> r is None && final(self)@ == old(self)@,
            delta > 0 ==> final(self)@ == advanced(old(self)@, delta as nat) && r is Some
                && exists|t: nat| r->0@ == event_of(final(self)@, t),
    {
        if delta == 0 {
            return None;
        }
        let nanos = nanos_since(&self.start_time);
        let elapsed: u64 = if nanos > u64::MAX as u128 { u64::MAX } else { nanos as u64 };
        self.advance(delta, elapsed)
    }

    /// Ends the transfer. Nothing is left to compute.
    pub fn finish(&mut self)
        ensures
            final(self)@ == old(self)@,
            final(self).start() == old(self).start(),
    {
    }
}

} // verus!
