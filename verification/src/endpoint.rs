//! Values exchanged with the transport endpoint provider: the handle it gives
//! out and the batches that one poll of an endpoint returns, as owned copies.

use vstd::prelude::*;

verus! {

/// The handle of one transport endpoint, as an address; the provider answers a
/// failed creation with the null handle, whose address is zero.
#[derive(Clone, Copy, Debug, PartialEq, Eq)]
pub struct WardenclyffeSocket(pub usize);

impl WardenclyffeSocket {
    pub open spec fn spec_is_null(&self) -> bool {
        self.0 == 0
    }

    /// Whether this is the handle of a failed creation.
    #[verifier::when_used_as_spec(spec_is_null)]
    pub fn is_null(&self) -> (null: bool)
        ensures
            null == self.spec_is_null(),
    {
        self.0 == 0
    }
}

/// One discrete read: its bytes, and a flag that is non-zero for out-of-band
/// (textual) data.
#[derive(Clone, Debug, PartialEq, Eq)]
pub struct WardenclyffeRead {
    pub data: Vec<u8>,
    pub oob: u8,
}

/// The mathematical content of a [`WardenclyffeRead`].
pub ghost struct ReadView {
    pub data: Seq<u8>,
    pub oob: u8,
}

impl View for WardenclyffeRead {
    type V = ReadView;

    open spec fn view(&self) -> ReadView {
        ReadView { data: self.data@, oob: self.oob }
    }
}

impl ReadView {
    /// Whether the read is forwarded as text rather than as binary data.
    pub open spec fn is_text(self) -> bool {
        self.oob != 0
    }
}

/// The views of a run of reads, in order.
pub open spec fn reads_view(reads: Seq<WardenclyffeRead>) -> Seq<ReadView> {
    Seq::new(reads.len(), |i: int| reads[i]@)
}

/// What a batch count says about the poll it came from.
#[derive(Clone, Copy, Debug, PartialEq, Eq, Structural)]
pub enum ReadStatus {
    /// A negative count: the read failed.
    Failed,
    /// A zero count: the endpoint is at its end.
    Eof,
    /// A positive count: the batch carries reads.
    Data,
}

/// What a count says: negative is failure, zero the end, positive data.
pub open spec fn status_of(read_count: int) -> ReadStatus {
    if read_count < 0 {
        ReadStatus::Failed
    } else if read_count == 0 {
        ReadStatus::Eof
    } else {
        ReadStatus::Data
    }
}

/// The result of one poll of an endpoint.
#[derive(Clone, Debug, PartialEq, Eq)]
pub struct WardenclyffeReads {
    pub reads: Vec<WardenclyffeRead>,
    pub read_count: isize,
}

/// The mathematical content of a [`WardenclyffeReads`].
pub ghost struct ReadsView {
    pub reads: Seq<ReadView>,
    pub read_count: int,
}

impl ReadsView {
    /// A positive count carries exactly that many reads; any other count
    /// carries none.
    pub open spec fn wf(self) -> bool {
        if self.read_count > 0 {
            self.reads.len() == self.read_count
        } else {
            self.reads.len() == 0
        }
    }

    pub open spec fn status(self) -> ReadStatus {
        status_of(self.read_count)
    }
}

impl View for WardenclyffeReads {
    type V = ReadsView;

    open spec fn view(&self) -> ReadsView {
        ReadsView { reads: reads_view(self.reads@), read_count: self.read_count as int }
    }
}

impl WardenclyffeReads {
    /// A batch of `read_count` and `reads`, if the two agree: a positive count
    /// must equal the number of reads, and any other count comes without reads.
    pub fn new(read_count: isize, reads: Vec<WardenclyffeRead>) -> (batch: Option<
        WardenclyffeReads,
    >)
        ensures
            batch is Some <==> (ReadsView {
                reads: reads_view(reads@),
                read_count: read_count as int,
            }).wf(),
            batch matches Some(b) ==> b@ == (ReadsView {
                reads: reads_view(reads@),
                read_count: read_count as int,
            }),
    {
        let agree = if read_count > 0 {
            reads.len() == read_count as usize
        } else {
            reads.len() == 0
        };
        if agree {
            Some(WardenclyffeReads { reads, read_count })
        } else {
            None
        }
    }

    /// What the batch's count says.
    pub fn status(&self) -> (status: ReadStatus)
        ensures
            status == self@.status(),
    {
        if self.read_count < 0 {
            ReadStatus::Failed
        } else if self.read_count == 0 {
            ReadStatus::Eof
        } else {
            ReadStatus::Data
        }
    }
}

} // verus!
