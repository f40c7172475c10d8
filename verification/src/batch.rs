//! Accounting for a batch of downloads: one attempt per resolved item, in
//! resolution order, each outcome recorded, no failure aborting the batch,
//! and a final summary that accounts for every item.
//!
//! The caller invokes the external downloader once per item and feeds each
//! outcome back; the batch state ties the failure list to the recorded
//! outcomes, so the summary reports exactly the items that failed.

use vstd::prelude::*;
use crate::model::ResolvedItem;
use crate::numfmt::dec_str;
use crate::textout::{
    episode_label, episode_label_spec, output_template, output_template_spec, progress_line,
    progress_line_spec, stream_url, stream_url_spec,
};

verus! {

/// The outcome of one downloader invocation: the tool exited successfully,
/// or it exited nonzero or could not be started at all.
pub enum DownloadOutcome {
    Success,
    Failed,
}

/// The `SxxEyy - title` label that identifies one resolved item in reports.
pub open spec fn item_label_spec(item: ResolvedItem) -> Seq<char> {
    episode_label_spec(
        item.season_number as nat,
        item.episode.episode_number as nat,
        item.episode.original_name@,
    )
}

/// The labels of exactly the items whose outcome is a failure, in item
/// order.
pub open spec fn failed_labels(items: Seq<ResolvedItem>, outcomes: Seq<bool>) -> Seq<Seq<char>>
    decreases items.len(),
{
    if items.len() == 0 || outcomes.len() == 0 {
        Seq::empty()
    } else {
        (if outcomes[0] {
            Seq::<Seq<char>>::empty()
        } else {
            seq![item_label_spec(items[0])]
        }) + failed_labels(items.drop_first(), outcomes.drop_first())
    }
}

/// How many of the outcomes are successes.
pub open spec fn count_successes(outcomes: Seq<bool>) -> nat
    decreases outcomes.len(),
{
    if outcomes.len() == 0 {
        0
    } else {
        (if outcomes[0] {
            1 as nat
        } else {
            0 as nat
        }) + count_successes(outcomes.drop_first())
    }
}

/// The `  - label` line of one failed item in the summary.
pub open spec fn failure_lines(labels: Seq<Seq<char>>) -> Seq<Seq<char>>
    decreases labels.len(),
{
    if labels.len() == 0 {
        Seq::empty()
    } else {
        seq!["  - "@ + labels[0]] + failure_lines(labels.drop_first())
    }
}

/// The single summary line of a batch without failures.
pub open spec fn complete_line_spec(total: nat) -> Seq<char> {
    "Download complete! "@ + dec_str(total) + " episodes downloaded."@
}

/// The leading summary line of a batch with failures.
pub open spec fn partial_line_spec(succeeded: nat, total: nat, failed: nat) -> Seq<char> {
    "Download complete. "@ + dec_str(succeeded) + "/"@ + dec_str(total) + " succeeded, "@
        + dec_str(failed) + " failed:"@
}

/// The whole summary: one success line, or a count line followed by one
/// line per failed item.
pub open spec fn summary_lines_spec(total: nat, succeeded: nat, labels: Seq<Seq<char>>) -> Seq<
    Seq<char>,
> {
    if labels.len() == 0 {
        seq![complete_line_spec(total)]
    } else {
        seq![partial_line_spec(succeeded, total, labels.len())] + failure_lines(labels)
    }
}

/// For `n` items with `n` outcomes, every item is accounted for: the failed
/// labels and the successes together number exactly `n`.
pub proof fn lemma_batch_accounting(items: Seq<ResolvedItem>, outcomes: Seq<bool>)
    requires
        items.len() == outcomes.len(),
    ensures
        failed_labels(items, outcomes).len() + count_successes(outcomes) == items.len(),
    decreases items.len(),
{
    if items.len() > 0 {
        lemma_batch_accounting(items.drop_first(), outcomes.drop_first());
    }
}

/// Recording one more item's outcome extends the failed labels by that
/// item's label exactly when the outcome is a failure.
proof fn lemma_failed_labels_snoc(
    items: Seq<ResolvedItem>,
    outcomes: Seq<bool>,
    item: ResolvedItem,
    ok: bool,
)
    requires
        items.len() == outcomes.len(),
    ensures
        failed_labels(items.push(item), outcomes.push(ok)) == failed_labels(items, outcomes) + (
        if ok {
            Seq::<Seq<char>>::empty()
        } else {
            seq![item_label_spec(item)]
        }),
    decreases items.len(),
{
    let tail = if ok {
        Seq::<Seq<char>>::empty()
    } else {
        seq![item_label_spec(item)]
    };
    if items.len() == 0 {
        assert(items.push(item)[0] == item);
        assert(outcomes.push(ok)[0] == ok);
        assert(items.push(item).drop_first() =~= Seq::<ResolvedItem>::empty());
        assert(outcomes.push(ok).drop_first() =~= Seq::<bool>::empty());
        assert(failed_labels(Seq::<ResolvedItem>::empty(), Seq::<bool>::empty())
            =~= Seq::<Seq<char>>::empty());
        assert(failed_labels(items.push(item), outcomes.push(ok)) == (if ok {
            Seq::<Seq<char>>::empty()
        } else {
            seq![item_label_spec(item)]
        }) + failed_labels(items.push(item).drop_first(), outcomes.push(ok).drop_first()));
        assert(failed_labels(items.push(item), outcomes.push(ok)) =~= failed_labels(
            items,
            outcomes,
        ) + tail);
    } else {
        assert(items.push(item)[0] == items[0]);
        assert(outcomes.push(ok)[0] == outcomes[0]);
        assert(items.push(item).drop_first() =~= items.drop_first().push(item));
        assert(outcomes.push(ok).drop_first() =~= outcomes.drop_first().push(ok));
        lemma_failed_labels_snoc(items.drop_first(), outcomes.drop_first(), item, ok);
        assert(failed_labels(items.push(item), outcomes.push(ok)) =~= failed_labels(
            items,
            outcomes,
        ) + tail);
    }
}

/// A running download batch over the resolved items, in order.
pub struct Batch {
    /// The resolved items, in resolution order; never reordered.
    pub items: Vec<ResolvedItem>,
    /// How many items have been attempted so far.
    pub attempted: usize,
    /// The labels of the items that failed, in order.
    pub failed: Vec<String>,
    /// The recorded outcome of each attempted item, `true` for success.
    pub outcomes: Ghost<Seq<bool>>,
}

impl Batch {
    /// What every batch maintains: one recorded outcome per attempted item,
    /// and a failure list holding exactly the labels of the attempted items
    /// whose outcome was a failure.
    pub open spec fn wf(self) -> bool {
        &&& self.attempted <= self.items@.len()
        &&& self.outcomes@.len() == self.attempted
        &&& self.failed@.map_values(|s: String| s@) == failed_labels(
            self.items@.take(self.attempted as int),
            self.outcomes@,
        )
    }

    /// Every item has been attempted.
    pub open spec fn done(self) -> bool {
        self.attempted == self.items@.len()
    }

    /// How many recorded outcomes are successes.
    pub open spec fn succeeded(self) -> nat {
        count_successes(self.outcomes@)
    }

    /// Starts a batch over the resolved items.
    pub fn new(items: Vec<ResolvedItem>) -> (b: Batch)
        ensures
            b.wf(),
            b.items@ == items@,
            b.attempted == 0,
            b.outcomes@ == Seq::<bool>::empty(),
            b.failed@ == Seq::<String>::empty(),
    {
        let b = Batch {
            items,
            attempted: 0,
            failed: Vec::new(),
            outcomes: Ghost(Seq::empty()),
        };
        proof {
            assert(b.items@.take(0) =~= Seq::<ResolvedItem>::empty());
            assert(b.failed@.map_values(|s: String| s@) =~= failed_labels(
                b.items@.take(0),
                b.outcomes@,
            ));
        }
        b
    }

    /// Whether every item has been attempted.
    pub fn is_done(&self) -> (r: bool)
        ensures
            r == self.done(),
    {
        self.attempted == self.items.len()
    }

    /// The progress line, stream URL and output template for the next item
    /// to attempt.
    pub fn begin_item(&self, show_name: &str) -> (r: (String, String, String))
        requires
            self.wf(),
            !self.done(),
        ensures
            r.0@ == progress_line_spec(
                self.attempted as nat + 1,
                self.items@.len(),
                show_name@,
                self.items@[self.attempted as int].season_number as nat,
                self.items@[self.attempted as int].episode.episode_number as nat,
                self.items@[self.attempted as int].episode.original_name@,
            ),
            r.1@ == stream_url_spec(self.items@[self.attempted as int].episode.id),
            r.2@ == output_template_spec(
                show_name@,
                self.items@[self.attempted as int].season_number as nat,
                self.items@[self.attempted as int].episode.episode_number as nat,
                self.items@[self.attempted as int].episode.original_name@,
            ),
    {
        let item = &self.items[self.attempted];
        let line = progress_line(
            self.attempted,
            self.items.len(),
            show_name,
            item.season_number,
            item.episode.episode_number,
            item.episode.original_name.as_str(),
        );
        let url = stream_url(item.episode.id);
        let template = output_template(
            show_name,
            item.season_number,
            item.episode.episode_number,
            item.episode.original_name.as_str(),
        );
        (line, url, template)
    }

    /// Records the outcome of the next item: a failure appends the item's
    /// label to the failure list, and in either case the batch moves on.
    pub fn record(&mut self, outcome: DownloadOutcome)
        requires
            old(self).wf(),
            !old(self).done(),
        ensures
            final(self).wf(),
            final(self).items@ == old(self).items@,
            final(self).attempted == old(self).attempted + 1,
            final(self).outcomes@ == old(self).outcomes@.push(outcome is Success),
            final(self).failed@.map_values(|s: String| s@) == old(self).failed@.map_values(
                |s: String| s@,
            ) + (if outcome is Success {
                Seq::<Seq<char>>::empty()
            } else {
                seq![item_label_spec(old(self).items@[old(self).attempted as int])]
            }),
    {
        let ghost old_failed_views = self.failed@.map_values(|s: String| s@);
        let item = &self.items[self.attempted];
        let is_success = match outcome {
            DownloadOutcome::Success => true,
            DownloadOutcome::Failed => false,
        };
        if !is_success {
            let label = episode_label(
                item.season_number,
                item.episode.episode_number,
                item.episode.original_name.as_str(),
            );
            self.failed.push(label);
            proof {
                assert(self.failed@.map_values(|s: String| s@) =~= old_failed_views.push(
                    item_label_spec(old(self).items@[old(self).attempted as int]),
                ));
            }
        }
        let item_count = self.items.len();
        proof {
            assert(self.attempted < item_count);
        }
        self.attempted = self.attempted + 1;
        proof {
            self.outcomes@ = self.outcomes@.push(is_success);
            let att = old(self).attempted as int;
            assert(self.items@.take(att + 1) =~= self.items@.take(att).push(self.items@[att]));
            lemma_failed_labels_snoc(
                self.items@.take(att),
                old(self).outcomes@,
                self.items@[att],
                is_success,
            );
            assert(self.failed@.map_values(|s: String| s@) =~= failed_labels(
                self.items@.take(self.attempted as int),
                self.outcomes@,
            ));
            assert(self.failed@.map_values(|s: String| s@) =~= old(self).failed@.map_values(
                |s: String| s@,
            ) + (if outcome is Success {
                Seq::<Seq<char>>::empty()
            } else {
                seq![item_label_spec(old(self).items@[old(self).attempted as int])]
            }));
        }
    }

    /// The summary for a finished batch: a single success line when nothing
    /// failed, else a count line followed by one line per failed item.
    #[verifier::loop_isolation(false)]
    pub fn summary_lines(&self) -> (r: Vec<String>)
        requires
            self.wf(),
            self.done(),
        ensures
            r@.map_values(|s: String| s@) == summary_lines_spec(
                self.items@.len(),
                self.succeeded(),
                self.failed@.map_values(|s: String| s@),
            ),
    {
        proof {
            lemma_batch_accounting(self.items@.take(self.attempted as int), self.outcomes@);
            assert(self.items@.take(self.attempted as int) =~= self.items@);
        }
        let total = self.items.len();
        let mut r: Vec<String> = Vec::new();
        if self.failed.len() == 0 {
            let mut line = String::from_str("Download complete! ");
            let total_dec = crate::numfmt::u64_dec(total as u64);
            line.append(total_dec.as_str());
            line.append(" episodes downloaded.");
            proof {
                assert(line@ =~= complete_line_spec(total as nat));
            }
            r.push(line);
            proof {
                assert(self.failed@.map_values(|s: String| s@).len() == 0);
                assert(r@.map_values(|s: String| s@) =~= summary_lines_spec(
                    self.items@.len(),
                    self.succeeded(),
                    self.failed@.map_values(|s: String| s@),
                ));
            }
            r
        } else {
            let succeeded = total - self.failed.len();
            let mut line = String::from_str("Download complete. ");
            let s_dec = crate::numfmt::u64_dec(succeeded as u64);
            line.append(s_dec.as_str());
            line.append("/");
            let t_dec = crate::numfmt::u64_dec(total as u64);
            line.append(t_dec.as_str());
            line.append(" succeeded, ");
            let f_dec = crate::numfmt::u64_dec(self.failed.len() as u64);
            line.append(f_dec.as_str());
            line.append(" failed:");
            proof {
                assert(succeeded as nat == self.succeeded());
                assert(line@ =~= partial_line_spec(
                    self.succeeded(),
                    total as nat,
                    self.failed@.len(),
                ));
            }
            r.push(line);
            let ghost labels = self.failed@.map_values(|s: String| s@);
            let mut i: usize = 0;
            proof {
                assert(labels.skip(0) =~= labels);
                assert(r@.map_values(|s: String| s@) + failure_lines(labels.skip(0)) =~= seq![
                    partial_line_spec(self.succeeded(), total as nat, labels.len()),
                ] + failure_lines(labels));
            }
            while i < self.failed.len()
                invariant
                    i <= self.failed@.len(),
                    r@.map_values(|s: String| s@) + failure_lines(labels.skip(i as int)) == seq![
                        partial_line_spec(self.succeeded(), total as nat, labels.len()),
                    ] + failure_lines(labels),
                decreases self.failed@.len() - i,
            {
                let mut line = String::from_str("  - ");
                line.append(self.failed[i].as_str());
                r.push(line);
                proof {
                    assert(labels.skip(i as int).drop_first() =~= labels.skip(i as int + 1));
                    assert(failure_lines(labels.skip(i as int)) == seq![
                        "  - "@ + labels[i as int],
                    ] + failure_lines(labels.skip(i as int + 1)));
                    assert(r@.map_values(|s: String| s@) + failure_lines(labels.skip(i as int + 1))
                        =~= seq![
                        partial_line_spec(self.succeeded(), total as nat, labels.len()),
                    ] + failure_lines(labels));
                }
                i = i + 1;
            }
            proof {
                assert(labels.skip(labels.len() as int) =~= Seq::<Seq<char>>::empty());
                assert(failure_lines(labels.skip(labels.len() as int)) =~= Seq::<Seq<char>>::empty());
                assert(r@.map_values(|s: String| s@) =~= r@.map_values(|s: String| s@)
                    + failure_lines(labels.skip(labels.len() as int)));
                assert(r@.map_values(|s: String| s@) =~= summary_lines_spec(
                    self.items@.len(),
                    self.succeeded(),
                    labels,
                ));
            }
            r
        }
    }
}

} // verus!
