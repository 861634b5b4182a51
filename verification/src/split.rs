//! The record of an uploaded split, and the request that publishes it.

use vstd::prelude::*;

verus! {

/// An inclusive interval of timestamps.
#[derive(Clone, Copy, Debug, PartialEq, Eq, Structural)]
pub struct TimeRange {
    pub start: i64,
    pub end: i64,
}

/// A split whose artifact has been written to object storage and that is
/// ready to be made visible to queries. It only carries data.
#[derive(Clone, Debug, PartialEq, Eq)]
pub struct UploadedSplit {
    /// The identifier of the segment, unique within its index.
    pub segment_id: String,
    /// The index that the segment belongs to.
    pub index_id: String,
    /// The timestamps that the segment covers, if it has any.
    pub time_range: Option<TimeRange>,
    /// The size of the uploaded artifact.
    pub size_bytes: u64,
    /// How far ingestion had come when the segment was cut.
    pub checkpoint: u64,
}

/// An uploaded split as a mathematical value.
pub struct SplitView {
    pub segment_id: Seq<char>,
    pub index_id: Seq<char>,
    pub time_range: Option<TimeRange>,
    pub size_bytes: u64,
    pub checkpoint: u64,
}

/// What the metastore is asked to commit.
#[derive(Clone, Debug, PartialEq, Eq)]
pub struct PublishRequest {
    pub index_id: String,
    pub segment_id: String,
    pub time_range: Option<TimeRange>,
    pub checkpoint: u64,
}

/// A publish request as a mathematical value.
pub struct RequestView {
    pub index_id: Seq<char>,
    pub segment_id: Seq<char>,
    pub time_range: Option<TimeRange>,
    pub checkpoint: u64,
}

impl RequestView {
    /// The positions that the commit moves its index over, from the
    /// checkpoint stored for the index to that of the request: `None` where
    /// the request is stale, its checkpoint strictly less than the stored
    /// one.
    pub open spec fn span_from(self, stored: u64) -> Option<(u64, u64)> {
        if self.checkpoint < stored {
            None
        } else {
            Some((stored, self.checkpoint))
        }
    }
}

impl SplitView {
    /// The request that publishes this split.
    pub open spec fn request(self) -> RequestView {
        RequestView {
            index_id: self.index_id,
            segment_id: self.segment_id,
            time_range: self.time_range,
            checkpoint: self.checkpoint,
        }
    }
}

impl View for UploadedSplit {
    type V = SplitView;

    open spec fn view(&self) -> SplitView {
        SplitView {
            segment_id: self.segment_id@,
            index_id: self.index_id@,
            time_range: self.time_range,
            size_bytes: self.size_bytes,
            checkpoint: self.checkpoint,
        }
    }
}

impl View for PublishRequest {
    type V = RequestView;

    open spec fn view(&self) -> RequestView {
        RequestView {
            index_id: self.index_id@,
            segment_id: self.segment_id@,
            time_range: self.time_range,
            checkpoint: self.checkpoint,
        }
    }
}

impl UploadedSplit {
    /// The request that publishes this split: its index, its segment, its
    /// time range and its checkpoint.
    pub fn request(&self) -> (request: PublishRequest)
        ensures
            request@ == self@.request(),
    {
        PublishRequest {
            index_id: self.index_id.clone(),
            segment_id: self.segment_id.clone(),
            time_range: self.time_range,
            checkpoint: self.checkpoint,
        }
    }
}

impl PublishRequest {
    /// The positions that the commit moves its index over, from the
    /// checkpoint stored for the index to that of the request, or `None`
    /// where the request is stale.
    pub fn span_from(&self, stored: u64) -> (span: Option<(u64, u64)>)
        ensures
            span == self@.span_from(stored),
    {
        if self.checkpoint < stored {
            None
        } else {
            Some((stored, self.checkpoint))
        }
    }

    /// A copy of this request.
    pub fn duplicate(&self) -> (copy: PublishRequest)
        ensures
            copy@ == self@,
    {
        PublishRequest {
            index_id: self.index_id.clone(),
            segment_id: self.segment_id.clone(),
            time_range: self.time_range,
            checkpoint: self.checkpoint,
        }
    }
}

} // verus!
