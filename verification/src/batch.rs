//! Results of a batch run and their summary.

use vstd::prelude::*;
use std::path::PathBuf;
use std::time::Duration;
use crate::format::{spec_from_extension, ImageFormat};

verus! {

/// `std::path::PathBuf`, carried through without looking inside.
#[verifier::external_type_specification]
#[verifier::external_body]
pub struct ExPathBuf(PathBuf);

/// Whether the extension of a path, if it has one, names an image format.
pub open spec fn extension_is_image(ext: Option<Seq<char>>) -> bool {
    match ext {
        Some(e) => spec_from_extension(e).is_some(),
        None => false,
    }
}

/// Check if a file extension, where there is one, is a recognized image
/// extension.
pub fn has_image_extension(extension: Option<&str>) -> (r: bool)
    ensures
        r == extension_is_image(
            match extension {
                Some(e) => Some(e@),
                None => None,
            },
        ),
{
    match extension {
        Some(ext) => ImageFormat::from_extension(ext).is_some(),
        None => false,
    }
}

/// Result of processing a single file.
#[derive(Debug)]
pub struct FileResult {
    pub input_path: PathBuf,
    pub input_size: u64,
    pub output_size: Option<u64>,
    pub output_path: Option<PathBuf>,
    pub skipped: bool,
    pub error: Option<String>,
    pub duration: Duration,
}

impl FileResult {
    /// The file was processed: neither failed nor skipped.
    pub open spec fn succeeded(self) -> bool {
        self.error.is_none() && !self.skipped
    }

    /// The size of the output, counted as 0 where there is none.
    pub open spec fn output_size_or_zero(self) -> int {
        match self.output_size {
            Some(n) => n as int,
            None => 0,
        }
    }
}

/// Sum of the input sizes of `results`.
pub open spec fn sum_input_sizes(results: Seq<FileResult>) -> int
    decreases results.len(),
{
    if results.len() == 0 {
        0
    } else {
        sum_input_sizes(results.drop_last()) + results.last().input_size
    }
}

/// Sum of the output sizes of those `results` that have one.
pub open spec fn sum_output_sizes(results: Seq<FileResult>) -> int
    decreases results.len(),
{
    if results.len() == 0 {
        0
    } else {
        sum_output_sizes(results.drop_last()) + results.last().output_size_or_zero()
    }
}

/// Number of `results` that `pred` holds of.
pub open spec fn count_where(results: Seq<FileResult>, pred: spec_fn(FileResult) -> bool) -> int
    decreases results.len(),
{
    if results.len() == 0 {
        0
    } else {
        count_where(results.drop_last(), pred) + if pred(results.last()) {
            1int
        } else {
            0int
        }
    }
}

proof fn lemma_sums_grow(results: Seq<FileResult>, n: int)
    requires
        0 <= n <= results.len(),
    ensures
        0 <= sum_input_sizes(results.subrange(0, n)) <= sum_input_sizes(results),
        0 <= sum_output_sizes(results.subrange(0, n)) <= sum_output_sizes(results),
    decreases results.len() - n,
{
    if n == results.len() {
        assert(results.subrange(0, n) =~= results);
        lemma_sums_nonnegative(results);
    } else {
        lemma_sums_grow(results, n + 1);
        let next = results.subrange(0, n + 1);
        assert(next.drop_last() =~= results.subrange(0, n));
        lemma_sums_nonnegative(results.subrange(0, n));
    }
}

proof fn lemma_sums_nonnegative(results: Seq<FileResult>)
    ensures
        0 <= sum_input_sizes(results),
        0 <= sum_output_sizes(results),
    decreases results.len(),
{
    if results.len() > 0 {
        lemma_sums_nonnegative(results.drop_last());
    }
}

proof fn lemma_count_bounded(results: Seq<FileResult>, pred: spec_fn(FileResult) -> bool)
    ensures
        0 <= count_where(results, pred) <= results.len(),
    decreases results.len(),
{
    if results.len() > 0 {
        lemma_count_bounded(results.drop_last(), pred);
    }
}

/// Accumulated batch processing summary.
#[derive(Debug)]
pub struct BatchSummary {
    pub results: Vec<FileResult>,
}

impl Default for BatchSummary {
    fn default() -> (r: BatchSummary)
        ensures
            r.results@.len() == 0,
    {
        BatchSummary { results: Vec::new() }
    }
}

impl BatchSummary {
    pub fn new() -> (r: BatchSummary)
        ensures
            r.results@.len() == 0,
    {
        BatchSummary { results: Vec::new() }
    }

    pub fn push(&mut self, result: FileResult)
        ensures
            final(self).results@ == old(self).results@.push(result),
    {
        self.results.push(result);
    }

    /// Sum of all input sizes. The sum must fit in a `u64`.
    pub fn total_input_size(&self) -> (r: u64)
        requires
            sum_input_sizes(self.results@) <= u64::MAX,
        ensures
            r == sum_input_sizes(self.results@),
    {
        let mut total: u64 = 0;
        let mut i: usize = 0;
        while i < self.results.len()
            invariant
                i <= self.results.len(),
                total == sum_input_sizes(self.results@.subrange(0, i as int)),
                sum_input_sizes(self.results@) <= u64::MAX,
            decreases self.results.len() - i,
        {
            proof {
                let next = self.results@.subrange(0, i as int + 1);
                assert(next.drop_last() =~= self.results@.subrange(0, i as int));
                lemma_sums_grow(self.results@, i as int + 1);
            }
            total = total + self.results[i].input_size;
            i += 1;
        }
        assert(self.results@.subrange(0, i as int) =~= self.results@);
        total
    }

    /// Sum of the output sizes that are present. The sum must fit in a
    /// `u64`.
    pub fn total_output_size(&self) -> (r: u64)
        requires
            sum_output_sizes(self.results@) <= u64::MAX,
        ensures
            r == sum_output_sizes(self.results@),
    {
        let mut total: u64 = 0;
        let mut i: usize = 0;
        while i < self.results.len()
            invariant
                i <= self.results.len(),
                total == sum_output_sizes(self.results@.subrange(0, i as int)),
                sum_output_sizes(self.results@) <= u64::MAX,
            decreases self.results.len() - i,
        {
            proof {
                let next = self.results@.subrange(0, i as int + 1);
                assert(next.drop_last() =~= self.results@.subrange(0, i as int));
                lemma_sums_grow(self.results@, i as int + 1);
            }
            if let Some(size) = self.results[i].output_size {
                total = total + size;
            }
            i += 1;
        }
        assert(self.results@.subrange(0, i as int) =~= self.results@);
        total
    }

    /// Sum of all input sizes, or `None` where the sum does not fit in a
    /// `u64`.
    pub fn checked_total_input_size(&self) -> (r: Option<u64>)
        ensures
            match r {
                Some(total) => total == sum_input_sizes(self.results@),
                None => sum_input_sizes(self.results@) > u64::MAX,
            },
    {
        let mut total: u64 = 0;
        let mut i: usize = 0;
        while i < self.results.len()
            invariant
                i <= self.results.len(),
                total == sum_input_sizes(self.results@.subrange(0, i as int)),
            decreases self.results.len() - i,
        {
            proof {
                let next = self.results@.subrange(0, i as int + 1);
                assert(next.drop_last() =~= self.results@.subrange(0, i as int));
                lemma_sums_grow(self.results@, i as int + 1);
            }
            total = match total.checked_add(self.results[i].input_size) {
                Some(t) => t,
                None => {
                    return None;
                },
            };
            i += 1;
        }
        assert(self.results@.subrange(0, i as int) =~= self.results@);
        Some(total)
    }

    /// Sum of the output sizes that are present, or `None` where the sum
    /// does not fit in a `u64`.
    pub fn checked_total_output_size(&self) -> (r: Option<u64>)
        ensures
            match r {
                Some(total) => total == sum_output_sizes(self.results@),
                None => sum_output_sizes(self.results@) > u64::MAX,
            },
    {
        let mut total: u64 = 0;
        let mut i: usize = 0;
        while i < self.results.len()
            invariant
                i <= self.results.len(),
                total == sum_output_sizes(self.results@.subrange(0, i as int)),
            decreases self.results.len() - i,
        {
            proof {
                let next = self.results@.subrange(0, i as int + 1);
                assert(next.drop_last() =~= self.results@.subrange(0, i as int));
                lemma_sums_grow(self.results@, i as int + 1);
            }
            if let Some(size) = self.results[i].output_size {
                total = match total.checked_add(size) {
                    Some(t) => t,
                    None => {
                        return None;
                    },
                };
            }
            i += 1;
        }
        assert(self.results@.subrange(0, i as int) =~= self.results@);
        Some(total)
    }

    /// Number of results that neither failed nor were skipped.
    pub fn success_count(&self) -> (r: usize)
        ensures
            r == count_where(self.results@, |x: FileResult| x.succeeded()),
    {
        let ghost pred = |x: FileResult| x.succeeded();
        let mut count: usize = 0;
        let mut i: usize = 0;
        while i < self.results.len()
            invariant
                i <= self.results.len(),
                count <= i,
                pred == (|x: FileResult| x.succeeded()),
                count == count_where(self.results@.subrange(0, i as int), pred),
            decreases self.results.len() - i,
        {
            proof {
                let next = self.results@.subrange(0, i as int + 1);
                assert(next.drop_last() =~= self.results@.subrange(0, i as int));
            }
            if self.results[i].error.is_none() && !self.results[i].skipped {
                count += 1;
            }
            i += 1;
        }
        assert(self.results@.subrange(0, i as int) =~= self.results@);
        count
    }

    /// Number of results that were skipped.
    pub fn skip_count(&self) -> (r: usize)
        ensures
            r == count_where(self.results@, |x: FileResult| x.skipped),
    {
        let ghost pred = |x: FileResult| x.skipped;
        let mut count: usize = 0;
        let mut i: usize = 0;
        while i < self.results.len()
            invariant
                i <= self.results.len(),
                count <= i,
                pred == (|x: FileResult| x.skipped),
                count == count_where(self.results@.subrange(0, i as int), pred),
            decreases self.results.len() - i,
        {
            proof {
                let next = self.results@.subrange(0, i as int + 1);
                assert(next.drop_last() =~= self.results@.subrange(0, i as int));
            }
            if self.results[i].skipped {
                count += 1;
            }
            i += 1;
        }
        assert(self.results@.subrange(0, i as int) =~= self.results@);
        count
    }

    /// Number of results that failed.
    pub fn error_count(&self) -> (r: usize)
        ensures
            r == count_where(self.results@, |x: FileResult| x.error.is_some()),
    {
        let ghost pred = |x: FileResult| x.error.is_some();
        let mut count: usize = 0;
        let mut i: usize = 0;
        while i < self.results.len()
            invariant
                i <= self.results.len(),
                count <= i,
                pred == (|x: FileResult| x.error.is_some()),
                count == count_where(self.results@.subrange(0, i as int), pred),
            decreases self.results.len() - i,
        {
            proof {
                let next = self.results@.subrange(0, i as int + 1);
                assert(next.drop_last() =~= self.results@.subrange(0, i as int));
            }
            if self.results[i].error.is_some() {
                count += 1;
            }
            i += 1;
        }
        assert(self.results@.subrange(0, i as int) =~= self.results@);
        count
    }
}

/// Every result is counted at most once as a success and at most once as
/// an error, so neither count exceeds the number of results, and a result
/// is never both a success and an error or a skip.
pub proof fn lemma_counts_partition(results: Seq<FileResult>)
    ensures
        count_where(results, |x: FileResult| x.succeeded()) + count_where(
            results,
            |x: FileResult| x.error.is_some() || x.skipped,
        ) == results.len(),
        0 <= count_where(results, |x: FileResult| x.skipped) <= results.len(),
        0 <= count_where(results, |x: FileResult| x.error.is_some()) <= results.len(),
    decreases results.len(),
{
    lemma_count_bounded(results, |x: FileResult| x.skipped);
    lemma_count_bounded(results, |x: FileResult| x.error.is_some());
    if results.len() > 0 {
        lemma_counts_partition(results.drop_last());
    }
}

} // verus!
