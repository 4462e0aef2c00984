//! Texts of progress reporting and the running tallies of a sync.
use vstd::prelude::*;
use crate::text::{decimal, push_str, u64_to_decimal};

verus! {

/// The prefix of a source's progress line, `[{source_type}/{source_name}]`.
pub open spec fn progress_prefix_spec(source_type: Seq<char>, source_name: Seq<char>) -> Seq<char> {
    "["@ + source_type + "/"@ + source_name + "]"@
}

/// The prefix of a source's progress line.
pub fn progress_prefix(source_type: &str, source_name: &str) -> (r: String)
    ensures
        r@ == progress_prefix_spec(source_type@, source_name@),
{
    let mut s = String::from_str("[");
    push_str(&mut s, source_type);
    push_str(&mut s, "/");
    push_str(&mut s, source_name);
    push_str(&mut s, "]");
    s
}

/// The counts of one source's batch, or of the whole sync.
#[derive(Debug, Clone, Copy)]
pub struct Tally {
    pub downloaded: u32,
    pub skipped: u32,
}

/// `{downloaded} downloaded, {skipped} skipped`.
pub open spec fn tally_message_spec(t: Tally) -> Seq<char> {
    decimal(t.downloaded as nat) + " downloaded, "@ + decimal(t.skipped as nat) + " skipped"@
}

impl Tally {
    /// Nothing counted yet.
    pub fn new() -> (r: Self)
        ensures
            r.downloaded == 0 && r.skipped == 0,
    {
        Tally { downloaded: 0, skipped: 0 }
    }

    /// Counts a post that was downloaded.
    pub fn count_downloaded(&mut self)
        requires
            old(self).downloaded < u32::MAX,
        ensures
            final(self).downloaded == old(self).downloaded + 1,
            final(self).skipped == old(self).skipped,
    {
        self.downloaded = self.downloaded + 1;
    }

    /// Counts a post that was skipped because it was downloaded before.
    pub fn count_skipped(&mut self)
        requires
            old(self).skipped < u32::MAX,
        ensures
            final(self).skipped == old(self).skipped + 1,
            final(self).downloaded == old(self).downloaded,
    {
        self.skipped = self.skipped + 1;
    }

    /// Adds another tally to this one.
    pub fn add(&mut self, other: &Tally)
        requires
            old(self).downloaded + other.downloaded <= u32::MAX,
            old(self).skipped + other.skipped <= u32::MAX,
        ensures
            final(self).downloaded == old(self).downloaded + other.downloaded,
            final(self).skipped == old(self).skipped + other.skipped,
    {
        self.downloaded = self.downloaded + other.downloaded;
        self.skipped = self.skipped + other.skipped;
    }

    /// The progress bar message for this tally.
    pub fn message(&self) -> (r: String)
        ensures
            r@ == tally_message_spec(*self),
    {
        let mut s = u64_to_decimal(self.downloaded as u64);
        push_str(&mut s, " downloaded, ");
        let k = u64_to_decimal(self.skipped as u64);
        push_str(&mut s, k.as_str());
        push_str(&mut s, " skipped");
        s
    }
}

/// `Sync complete. Downloaded: {d}, Skipped: {s}, Errors: {e}`.
pub open spec fn sync_summary_spec(t: Tally, errors: u32) -> Seq<char> {
    "Sync complete. Downloaded: "@ + decimal(t.downloaded as nat) + ", Skipped: "@ + decimal(
        t.skipped as nat,
    ) + ", Errors: "@ + decimal(errors as nat)
}

/// The line printed when a sync ends.
pub fn sync_summary(t: &Tally, errors: u32) -> (r: String)
    ensures
        r@ == sync_summary_spec(*t, errors),
{
    let mut s = String::from_str("Sync complete. Downloaded: ");
    let d = u64_to_decimal(t.downloaded as u64);
    push_str(&mut s, d.as_str());
    push_str(&mut s, ", Skipped: ");
    let k = u64_to_decimal(t.skipped as u64);
    push_str(&mut s, k.as_str());
    push_str(&mut s, ", Errors: ");
    let e = u64_to_decimal(errors as u64);
    push_str(&mut s, e.as_str());
    s
}

} // verus!
