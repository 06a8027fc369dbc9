//! Files and byte ranges.

use vstd::prelude::*;

verus! {

/// One physical file segment of a scan. The location is the file's identity:
/// it is what the footer cache is keyed by.
#[derive(Debug)]
pub struct FilePartition {
    pub location: String,
    /// Length of the file in bytes.
    pub size: usize,
    /// Values of the partition columns, where the planner has computed them.
    pub partition_values: Option<Vec<String>>,
}

impl FilePartition {
    /// A file with no partition values.
    pub fn new(location: String, size: usize) -> (file: Self)
        ensures
            file == (FilePartition { location, size, partition_values: None }),
    {
        FilePartition { location, size, partition_values: None }
    }

    /// Length of the file in bytes.
    pub fn get_size(&self) -> (size: usize)
        ensures
            size == self.size,
    {
        self.size
    }
}

/// A half-open range of bytes `[start, end)` within a file. Its end never
/// lies before its start.
pub struct ByteRange {
    start: usize,
    end: usize,
}

impl ByteRange {
    #[verifier::type_invariant]
    spec fn inv(self) -> bool {
        self.start <= self.end
    }

    pub closed spec fn spec_start(&self) -> usize {
        self.start
    }

    pub closed spec fn spec_end(&self) -> usize {
        self.end
    }

    /// Number of bytes in the range.
    pub open spec fn spec_len(&self) -> nat {
        (self.spec_end() - self.spec_start()) as nat
    }

    /// The range from `start` up to `end`, which must not lie before it.
    pub fn new(start: usize, end: usize) -> (range: Option<Self>)
        ensures
            range.is_some() <==> start <= end,
            range matches Some(r) ==> r.spec_start() == start && r.spec_end() == end,
    {
        if start <= end {
            Some(ByteRange { start, end })
        } else {
            None
        }
    }

    #[verifier::when_used_as_spec(spec_start)]
    pub fn start(&self) -> (start: usize)
        ensures
            start == self.spec_start(),
            start <= self.spec_end(),
    {
        proof {
            use_type_invariant(self);
        }
        self.start
    }

    #[verifier::when_used_as_spec(spec_end)]
    pub fn end(&self) -> (end: usize)
        ensures
            end == self.spec_end(),
            self.spec_start() <= end,
    {
        proof {
            use_type_invariant(self);
        }
        self.end
    }

    /// Number of bytes in the range.
    pub fn len(&self) -> (len: usize)
        ensures
            len == self.spec_len(),
            len == self.spec_end() - self.spec_start(),
    {
        proof {
            use_type_invariant(self);
        }
        self.end - self.start
    }
}

} // verus!
