//! The status of the session: whether it runs, the latency last measured and
//! the traffic counted since the last poll.

use crate::command::GetStatusResponse;
use vstd::prelude::*;

verus! {

/// The latency reported while no measurement has succeeded.
pub const LATENCY_UNKNOWN: isize = isize::MAX;

/// The sum of two counts, held at the largest count where it would pass it.
pub open spec fn capped_sum(a: usize, b: usize) -> usize {
    if a + b > usize::MAX {
        usize::MAX
    } else {
        (a + b) as usize
    }
}

/// Traffic in one direction: bytes and packets.
#[derive(Clone, Copy, Debug, PartialEq, Eq, Structural)]
pub struct Traffic {
    pub size: usize,
    pub count: usize,
}

impl Traffic {
    /// No traffic.
    pub open spec fn none() -> Traffic {
        Traffic { size: 0, count: 0 }
    }

    /// This traffic and `size` bytes in `count` packets more.
    pub open spec fn plus(self, size: usize, count: usize) -> Traffic {
        Traffic { size: capped_sum(self.size, size), count: capped_sum(self.count, count) }
    }

    /// No traffic.
    pub fn new() -> (r: Traffic)
        ensures
            r == Traffic::none(),
    {
        Traffic { size: 0, count: 0 }
    }

    /// Counts `size` bytes in `count` packets more. A counter that is full stays full.
    pub fn add(&mut self, size: usize, count: usize)
        ensures
            *final(self) == old(self).plus(size, count),
    {
        self.size = self.size.saturating_add(size);
        self.count = self.count.saturating_add(count);
    }

    /// Hands out what was counted and starts again from nothing.
    pub fn drain(&mut self) -> (r: Traffic)
        ensures
            r == *old(self),
            *final(self) == Traffic::none(),
    {
        let r = *self;
        self.size = 0;
        self.count = 0;
        r
    }
}

/// The status of the session.
#[derive(Clone, Copy, Debug, PartialEq, Eq, Structural)]
pub struct Status {
    pub is_running: bool,
    pub latency: isize,
    pub upload: Traffic,
    pub download: Traffic,
}

impl Status {
    /// The status at rest or just started: nothing measured, nothing counted.
    pub open spec fn fresh(running: bool) -> Status {
        Status {
            is_running: running,
            latency: 0,
            upload: Traffic::none(),
            download: Traffic::none(),
        }
    }

    /// The status with the session marked as not running, all else kept.
    pub open spec fn halted(self) -> Status {
        Status { is_running: false, ..self }
    }

    /// What a poll of this status reports.
    pub open spec fn snapshot(self) -> GetStatusResponse {
        GetStatusResponse {
            run: self.is_running,
            latency: self.latency,
            upload_size: self.upload.size,
            upload_count: self.upload.count,
            download_size: self.download.size,
            download_count: self.download.count,
        }
    }

    /// The status that a poll leaves: the counters drained, all else kept.
    pub open spec fn polled(self) -> Status {
        Status { upload: Traffic::none(), download: Traffic::none(), ..self }
    }

    /// The status of a session that has never run.
    pub fn new() -> (r: Status)
        ensures
            r == Status::fresh(false),
    {
        Status { is_running: false, latency: 0, upload: Traffic::new(), download: Traffic::new() }
    }

    /// Marks the session as running and clears latency and counters.
    pub fn start(&mut self)
        ensures
            *final(self) == Status::fresh(true),
    {
        self.is_running = true;
        self.latency = 0;
        self.upload = Traffic::new();
        self.download = Traffic::new();
    }

    /// Marks the session as not running and clears latency and counters.
    pub fn stop(&mut self)
        ensures
            *final(self) == Status::fresh(false),
    {
        self.is_running = false;
        self.latency = 0;
        self.upload = Traffic::new();
        self.download = Traffic::new();
    }

    /// Marks the session as not running, which tells every worker to end.
    pub fn halt(&mut self)
        ensures
            *final(self) == old(self).halted(),
    {
        self.is_running = false;
    }

    /// Reports the status and drains the four counters; whether the session
    /// runs and the latency are read and left as they are.
    pub fn poll(&mut self) -> (r: GetStatusResponse)
        ensures
            r == old(self).snapshot(),
            *final(self) == old(self).polled(),
    {
        let upload = self.upload.drain();
        let download = self.download.drain();
        GetStatusResponse {
            run: self.is_running,
            latency: self.latency,
            upload_size: upload.size,
            upload_count: upload.count,
            download_size: download.size,
            download_count: download.count,
        }
    }

    /// Counts traffic sent by the device.
    pub fn record_upload(&mut self, size: usize, count: usize)
        ensures
            *final(self) == (Status { upload: old(self).upload.plus(size, count), ..*old(self) }),
    {
        self.upload.add(size, count);
    }

    /// Counts traffic sent to the device.
    pub fn record_download(&mut self, size: usize, count: usize)
        ensures
            *final(self) == (Status {
                download: old(self).download.plus(size, count),
                ..*old(self)
            }),
    {
        self.download.add(size, count);
    }

    /// Takes down the latency that a worker measured.
    pub fn record_latency(&mut self, latency: isize)
        ensures
            *final(self) == (Status { latency, ..*old(self) }),
    {
        self.latency = latency;
    }
}

/// A poll right after a poll reports no traffic, and the same latency and
/// running flag as the first.
pub proof fn second_poll_is_empty(status: Status)
    ensures
        status.polled().snapshot().upload_size == 0,
        status.polled().snapshot().upload_count == 0,
        status.polled().snapshot().download_size == 0,
        status.polled().snapshot().download_count == 0,
        status.polled().snapshot().latency == status.snapshot().latency,
        status.polled().snapshot().run == status.snapshot().run,
        status.polled().polled() == status.polled(),
{
}

/// Between two polls a counter never goes down.
pub proof fn counters_only_grow(traffic: Traffic, size: usize, count: usize)
    ensures
        traffic.plus(size, count).size >= traffic.size,
        traffic.plus(size, count).count >= traffic.count,
{
}

} // verus!
