//! The controller: all mutable dashboard state, the operations that change
//! it, and the dispatch rule that gates operator actions during the
//! purge-confirmation protocol.
//!
//! The scheduler loop owns one [`App`] value and drives it: it renders a
//! snapshot, applies due refreshes, and hands each input event to
//! [`App::handle_event`], which performs the synchronous transition and
//! tells the loop which suspending work (a refresh, a detail fetch, a purge)
//! to carry out next.

use vstd::prelude::*;
use crate::events::AppEvent;
use crate::sort::{
    lemma_sort_desc_len, lemma_sort_desc_sorted, lemma_sort_desc_stable, sort_desc,
    sort_queues_by_messages_desc, sorted_desc, with_count,
};
use crate::types::{QueueDetails, QueueInfo};

verus! {

/// The outcome of the last operation, as shown in the status line. The
/// renderer turns each variant into text; the controller states which
/// variant each operation leaves behind.
#[derive(Debug)]
pub enum StatusMessage {
    Initializing,
    Refreshing,
    RefreshOk { total: usize },
    RefreshOkFiltered { shown: usize, total: usize },
    RefreshError { error: String },
    DetailError { error: String },
    FilterOn { shown: usize, total: usize },
    FilterOff { total: usize },
    PurgePrompt { name: String },
    Purging { name: String },
    PurgeOk { name: String },
    PurgeError { name: String, error: String },
    PurgeCancelled,
}

/// What the scheduler loop must do after dispatching one event: nothing,
/// run a full refresh (and rearm the auto-refresh timer), fetch details for
/// the selected queue, execute a purge (and rearm the timer), or only rearm
/// the timer.
#[derive(Debug)]
pub enum Effect {
    Nothing,
    Refresh,
    FetchDetail,
    ExecutePurge { url: String, name: String },
    RearmTimer,
}

/// The predicate selecting queues with at least one visible message.
pub open spec fn pred_visible() -> spec_fn(QueueInfo) -> bool {
    |q: QueueInfo| q.approximate_messages > 0
}

/// The derived queue list: the full list filtered to non-empty queues when
/// the filter flag is set, else the full list exactly.
pub open spec fn visible_of(all: Seq<QueueInfo>, filter_on: bool) -> Seq<QueueInfo> {
    if filter_on {
        all.filter(pred_visible())
    } else {
        all
    }
}

/// Selection clamping: an index that still fits is kept, any other (out of
/// range, or on an empty list) becomes `0`.
pub open spec fn spec_clamp(i: int, len: int) -> int {
    if i < len {
        i
    } else {
        0
    }
}

/// Circular successor of a selection index; on an empty list the index is
/// left alone.
pub open spec fn spec_next_index(i: int, len: int) -> int {
    if len == 0 {
        i
    } else {
        (i + 1) % len
    }
}

/// Circular predecessor of a selection index; on an empty list the index is
/// left alone.
pub open spec fn spec_prev_index(i: int, len: int) -> int {
    if len == 0 {
        i
    } else if i > 0 {
        i - 1
    } else {
        len - 1
    }
}

/// The controller state. `queues` is always the derived view of
/// `all_queues` under the filter flag and is never mutated independently.
pub struct App {
    pub queues: Vec<QueueInfo>,
    pub all_queues: Vec<QueueInfo>,
    pub selected_index: usize,
    pub selected_details: Option<QueueDetails>,
    pub last_refresh: Option<i64>,
    pub refresh_interval_secs: u64,
    pub status_message: StatusMessage,
    pub should_quit: bool,
    pub filter_non_empty: bool,
    pub awaiting_purge_confirmation: bool,
    pub purge_in_progress: bool,
}

/// A successful refresh: the full list is replaced by the stable descending
/// sort of what the service returned, the visible list is recomputed, the
/// selection clamped, and the status line summarises the counts; nothing
/// else changes. The refresh timestamp is stated separately.
pub open spec fn refresh_applied(pre: App, qs: Seq<QueueInfo>, post: App) -> bool {
    &&& post.all_queues@ == sort_desc(qs)
    &&& post.queues@ == visible_of(sort_desc(qs), pre.filter_non_empty)
    &&& post.selected_index == spec_clamp(pre.selected_index as int, post.queues@.len() as int)
    &&& post.status_message == if pre.filter_non_empty {
        StatusMessage::RefreshOkFiltered {
            shown: post.queues@.len() as usize,
            total: qs.len() as usize,
        }
    } else {
        StatusMessage::RefreshOk { total: qs.len() as usize }
    }
    &&& post.selected_details == pre.selected_details
    &&& post.refresh_interval_secs == pre.refresh_interval_secs
    &&& post.should_quit == pre.should_quit
    &&& post.filter_non_empty == pre.filter_non_empty
    &&& post.awaiting_purge_confirmation == pre.awaiting_purge_confirmation
    &&& post.purge_in_progress == pre.purge_in_progress
}

/// A filter toggle: the flag flips, the visible list is recomputed, the
/// selection clamped, and the status line reports the counts; nothing else
/// changes.
pub open spec fn toggled(pre: App, post: App) -> bool {
    &&& post.filter_non_empty == !pre.filter_non_empty
    &&& post.all_queues == pre.all_queues
    &&& post.queues@ == visible_of(pre.all_queues@, !pre.filter_non_empty)
    &&& post.selected_index == spec_clamp(pre.selected_index as int, post.queues@.len() as int)
    &&& post.status_message == if !pre.filter_non_empty {
        StatusMessage::FilterOn {
            shown: post.queues@.len() as usize,
            total: pre.all_queues@.len() as usize,
        }
    } else {
        StatusMessage::FilterOff { total: pre.all_queues@.len() as usize }
    }
    &&& post.selected_details == pre.selected_details
    &&& post.last_refresh == pre.last_refresh
    &&& post.refresh_interval_secs == pre.refresh_interval_secs
    &&& post.should_quit == pre.should_quit
    &&& post.awaiting_purge_confirmation == pre.awaiting_purge_confirmation
    &&& post.purge_in_progress == pre.purge_in_progress
}

/// A purge-confirmation request: with a queue selected and no confirmation
/// already pending, the pending flag is raised and the prompt names the
/// selected queue; otherwise nothing happens.
pub open spec fn purge_requested(pre: App, post: App) -> bool {
    if pre.queues@.len() > 0 && !pre.awaiting_purge_confirmation {
        post == App {
            awaiting_purge_confirmation: true,
            status_message: StatusMessage::PurgePrompt {
                name: pre.queues@[pre.selected_index as int].name,
            },
            ..pre
        }
    } else {
        post == pre
    }
}

/// The start of a purge: the pending flag always drops; with a queue
/// selected, the in-progress flag is raised, the status line names the
/// queue being purged, and the target's identifier and name are returned
/// for the caller to execute.
pub open spec fn purge_begun(pre: App, post: App, r: Option<(String, String)>) -> bool {
    if pre.queues@.len() > 0 {
        let q = pre.queues@[pre.selected_index as int];
        &&& r == Some((q.url, q.name))
        &&& post == App {
            awaiting_purge_confirmation: false,
            purge_in_progress: true,
            status_message: StatusMessage::Purging { name: q.name },
            ..pre
        }
    } else {
        &&& r is None
        &&& post == App { awaiting_purge_confirmation: false, ..pre }
    }
}

/// Relies on chrono's `Utc::now` for the wall clock; nothing is assumed of
/// the value it returns.
#[verifier::external_body]
fn current_unix_time() -> i64 {
    chrono::Utc::now().timestamp()
}

impl App {
    /// The state invariant: the visible list is the derived view of the
    /// full list, and the selection is in range whenever the visible list
    /// is non-empty, else `0`.
    pub open spec fn wf(self) -> bool {
        &&& self.queues@ == visible_of(self.all_queues@, self.filter_non_empty)
        &&& if self.queues@.len() == 0 {
            self.selected_index == 0
        } else {
            (self.selected_index as int) < self.queues@.len()
        }
    }

    /// The startup state: empty collections, no selection, the default
    /// thirty-second refresh interval, and no protocol flags raised.
    pub fn new() -> (app: App)
        ensures
            app.wf(),
            app.queues@.len() == 0,
            app.all_queues@.len() == 0,
            app.selected_index == 0,
            app.selected_details is None,
            app.last_refresh is None,
            app.refresh_interval_secs == 30,
            app.status_message == StatusMessage::Initializing,
            !app.should_quit,
            !app.filter_non_empty,
            !app.awaiting_purge_confirmation,
            !app.purge_in_progress,
    {
        App {
            queues: Vec::new(),
            all_queues: Vec::new(),
            selected_index: 0,
            selected_details: None,
            last_refresh: None,
            refresh_interval_secs: 30,
            status_message: StatusMessage::Initializing,
            should_quit: false,
            filter_non_empty: false,
            awaiting_purge_confirmation: false,
            purge_in_progress: false,
        }
    }

    /// Recomputes `queues` from `all_queues` and the filter flag; touches
    /// nothing else.
    fn apply_filter(&mut self)
        ensures
            final(self).queues@ == visible_of(old(self).all_queues@, old(self).filter_non_empty),
            *final(self) == (App { queues: final(self).queues, ..*old(self) }),
    {
        if self.filter_non_empty {
            let n = self.all_queues.len();
            let mut v: Vec<QueueInfo> = Vec::new();
            let mut i: usize = 0;
            while i < n
                invariant
                    i <= n,
                    n == self.all_queues@.len(),
                    v@ == self.all_queues@.take(i as int).filter(pred_visible()),
                decreases n - i,
            {
                let q = &self.all_queues[i];
                if q.approximate_messages > 0 {
                    v.push(q.clone());
                }
                proof {
                    reveal_with_fuel(Seq::filter, 2);
                    assert(self.all_queues@.take(i + 1).drop_last() =~= self.all_queues@.take(
                        i as int,
                    ));
                    assert(self.all_queues@.take(i + 1).last() == self.all_queues@[i as int]);
                }
                i += 1;
            }
            proof {
                assert(self.all_queues@.take(n as int) =~= self.all_queues@);
            }
            self.queues = v;
        } else {
            let v = self.all_queues.clone();
            proof {
                assert(v@ =~= self.all_queues@);
            }
            self.queues = v;
        }
    }

    /// Applies a successful enumerate result at time `now`: sorts it stably
    /// by visible-message count descending, recomputes the visible list,
    /// clamps the selection, records the refresh time, and summarises the
    /// counts in the status line.
    pub fn record_refresh(&mut self, queues: Vec<QueueInfo>, now: i64)
        requires
            old(self).wf(),
        ensures
            final(self).wf(),
            refresh_applied(*old(self), queues@, *final(self)),
            final(self).last_refresh == Some(now),
    {
        proof {
            lemma_sort_desc_len(queues@);
        }
        let sorted = sort_queues_by_messages_desc(queues);
        self.all_queues = sorted;
        self.apply_filter();
        self.last_refresh = Some(now);
        let total = self.all_queues.len();
        let shown = self.queues.len();
        self.status_message = if self.filter_non_empty {
            StatusMessage::RefreshOkFiltered { shown, total }
        } else {
            StatusMessage::RefreshOk { total }
        };
        if self.selected_index >= self.queues.len() {
            self.selected_index = 0;
        }
    }

    /// Marks a refresh as started in the status line.
    pub fn start_refresh(&mut self)
        requires
            old(self).wf(),
        ensures
            final(self).wf(),
            *final(self) == (App { status_message: StatusMessage::Refreshing, ..*old(self) }),
    {
        self.status_message = StatusMessage::Refreshing;
    }

    /// Applies the outcome of the enumerate call. On success the queue
    /// lists are replaced as [`refresh_applied`] states and the result says
    /// whether a detail fetch for the now-selected queue is due; on failure
    /// every field but the status line is left exactly as it was.
    pub fn apply_refresh_outcome(&mut self, result: Result<Vec<QueueInfo>, String>) -> (fetch_detail:
        bool)
        requires
            old(self).wf(),
        ensures
            final(self).wf(),
            match result {
                Ok(qs) => refresh_applied(*old(self), qs@, *final(self))
                    && final(self).last_refresh is Some
                    && fetch_detail == (final(self).queues@.len() > 0),
                Err(e) => *final(self) == (App {
                    status_message: StatusMessage::RefreshError { error: e },
                    ..*old(self)
                }) && !fetch_detail,
            },
    {
        match result {
            Ok(queues) => {
                let now = current_unix_time();
                self.record_refresh(queues, now);
                self.queues.len() > 0
            },
            Err(error) => {
                self.status_message = StatusMessage::RefreshError { error };
                false
            },
        }
    }

    /// Applies the outcome of a fetch-attributes call for the selected
    /// queue: success replaces the stored details, failure keeps the prior
    /// details and records the error in the status line.
    pub fn apply_detail_outcome(&mut self, result: Result<QueueDetails, String>)
        requires
            old(self).wf(),
        ensures
            final(self).wf(),
            match result {
                Ok(details) => *final(self) == (App {
                    selected_details: Some(details),
                    ..*old(self)
                }),
                Err(e) => *final(self) == (App {
                    status_message: StatusMessage::DetailError { error: e },
                    ..*old(self)
                }),
            },
    {
        match result {
            Ok(details) => {
                self.selected_details = Some(details);
            },
            Err(error) => {
                self.status_message = StatusMessage::DetailError { error };
            },
        }
    }

    /// Advances the selection circularly; a no-op on an empty list.
    pub fn next_queue(&mut self)
        requires
            old(self).wf(),
        ensures
            final(self).wf(),
            final(self).selected_index as int == spec_next_index(
                old(self).selected_index as int,
                old(self).queues@.len() as int,
            ),
            *final(self) == (App { selected_index: final(self).selected_index, ..*old(self) }),
    {
        if self.queues.len() > 0 {
            self.selected_index = (self.selected_index + 1) % self.queues.len();
        }
    }

    /// Retreats the selection circularly; a no-op on an empty list.
    pub fn previous_queue(&mut self)
        requires
            old(self).wf(),
        ensures
            final(self).wf(),
            final(self).selected_index as int == spec_prev_index(
                old(self).selected_index as int,
                old(self).queues@.len() as int,
            ),
            *final(self) == (App { selected_index: final(self).selected_index, ..*old(self) }),
    {
        if self.queues.len() > 0 {
            if self.selected_index > 0 {
                self.selected_index = self.selected_index - 1;
            } else {
                self.selected_index = self.queues.len() - 1;
            }
        }
    }

    /// Requests termination of the scheduler loop.
    pub fn quit(&mut self)
        requires
            old(self).wf(),
        ensures
            final(self).wf(),
            *final(self) == (App { should_quit: true, ..*old(self) }),
    {
        self.should_quit = true;
    }

    /// The currently selected queue, if the visible list is non-empty.
    pub fn selected_queue(&self) -> (r: Option<&QueueInfo>)
        requires
            self.wf(),
        ensures
            match r {
                Some(q) => self.queues@.len() > 0 && *q == self.queues@[self.selected_index as int],
                None => self.queues@.len() == 0,
            },
    {
        if self.selected_index < self.queues.len() {
            Some(&self.queues[self.selected_index])
        } else {
            None
        }
    }

    /// Flips the filter flag, recomputes the visible list, clamps the
    /// selection and reports the counts.
    pub fn toggle_filter(&mut self)
        requires
            old(self).wf(),
        ensures
            final(self).wf(),
            toggled(*old(self), *final(self)),
    {
        self.filter_non_empty = !self.filter_non_empty;
        self.apply_filter();
        if self.selected_index >= self.queues.len() {
            self.selected_index = 0;
        }
        let total = self.all_queues.len();
        let shown = self.queues.len();
        self.status_message = if self.filter_non_empty {
            StatusMessage::FilterOn { shown, total }
        } else {
            StatusMessage::FilterOff { total }
        };
    }

    /// Raises the purge-confirmation flag and prompts for the selected
    /// queue; a no-op without a selection or with a confirmation already
    /// pending.
    pub fn request_purge_confirmation(&mut self)
        requires
            old(self).wf(),
        ensures
            final(self).wf(),
            purge_requested(*old(self), *final(self)),
    {
        if self.awaiting_purge_confirmation {
            return ;
        }
        if self.selected_index < self.queues.len() {
            let name = self.queues[self.selected_index].name.clone();
            self.awaiting_purge_confirmation = true;
            self.status_message = StatusMessage::PurgePrompt { name };
        }
    }

    /// Leaves the confirmation state and, if a queue is selected, enters
    /// the purging state and returns the target's identifier and name.
    pub fn begin_purge(&mut self) -> (r: Option<(String, String)>)
        requires
            old(self).wf(),
        ensures
            final(self).wf(),
            purge_begun(*old(self), *final(self), r),
    {
        self.awaiting_purge_confirmation = false;
        if self.queues.len() > 0 {
            let q = &self.queues[self.selected_index];
            let url = q.url.clone();
            let name = q.name.clone();
            self.purge_in_progress = true;
            self.status_message = StatusMessage::Purging { name: name.clone() };
            Some((url, name))
        } else {
            None
        }
    }

    /// Applies the outcome of the purge call: the status line reports
    /// success or failure, queue data is untouched either way, and the
    /// result says whether a full refresh is due — it is exactly on
    /// success.
    pub fn purge_outcome(&mut self, name: String, result: Result<(), String>) -> (do_refresh: bool)
        requires
            old(self).wf(),
        ensures
            final(self).wf(),
            match result {
                Ok(_) => *final(self) == (App {
                    status_message: StatusMessage::PurgeOk { name },
                    ..*old(self)
                }) && do_refresh,
                Err(e) => *final(self) == (App {
                    status_message: StatusMessage::PurgeError { name, error: e },
                    ..*old(self)
                }) && !do_refresh,
            },
    {
        match result {
            Ok(_) => {
                self.status_message = StatusMessage::PurgeOk { name };
                true
            },
            Err(error) => {
                self.status_message = StatusMessage::PurgeError { name, error };
                false
            },
        }
    }

    /// Ends a purge attempt: the in-progress flag drops whatever the
    /// outcome was; nothing else changes.
    pub fn finish_purge(&mut self)
        requires
            old(self).wf(),
        ensures
            final(self).wf(),
            *final(self) == (App { purge_in_progress: false, ..*old(self) }),
    {
        self.purge_in_progress = false;
    }

    /// Leaves the confirmation state without touching queue data.
    pub fn cancel_purge(&mut self)
        requires
            old(self).wf(),
        ensures
            final(self).wf(),
            *final(self) == (App {
                awaiting_purge_confirmation: false,
                status_message: StatusMessage::PurgeCancelled,
                ..*old(self)
            }),
    {
        self.awaiting_purge_confirmation = false;
        self.status_message = StatusMessage::PurgeCancelled;
    }

    /// Dispatches one operator event. While a purge confirmation is
    /// pending, only the confirm and cancel actions (and quit) take effect;
    /// navigation, refresh, filter and purge-request actions are swallowed.
    /// The returned effect tells the scheduler loop which suspending work
    /// to carry out.
    pub fn handle_event(&mut self, event: AppEvent) -> (effect: Effect)
        requires
            old(self).wf(),
        ensures
            final(self).wf(),
            match event {
                AppEvent::Quit => *final(self) == (App { should_quit: true, ..*old(self) })
                    && effect == Effect::Nothing,
                AppEvent::Refresh => if old(self).awaiting_purge_confirmation {
                    *final(self) == *old(self) && effect == Effect::Nothing
                } else {
                    *final(self) == (App {
                        status_message: StatusMessage::Refreshing,
                        ..*old(self)
                    }) && effect == Effect::Refresh
                },
                AppEvent::NextQueue => if old(self).awaiting_purge_confirmation {
                    *final(self) == *old(self) && effect == Effect::Nothing
                } else {
                    final(self).selected_index as int == spec_next_index(
                        old(self).selected_index as int,
                        old(self).queues@.len() as int,
                    ) && *final(self) == (App {
                        selected_index: final(self).selected_index,
                        ..*old(self)
                    }) && effect == Effect::FetchDetail
                },
                AppEvent::PreviousQueue => if old(self).awaiting_purge_confirmation {
                    *final(self) == *old(self) && effect == Effect::Nothing
                } else {
                    final(self).selected_index as int == spec_prev_index(
                        old(self).selected_index as int,
                        old(self).queues@.len() as int,
                    ) && *final(self) == (App {
                        selected_index: final(self).selected_index,
                        ..*old(self)
                    }) && effect == Effect::FetchDetail
                },
                AppEvent::ToggleFilter => if old(self).awaiting_purge_confirmation {
                    *final(self) == *old(self) && effect == Effect::Nothing
                } else {
                    toggled(*old(self), *final(self)) && effect == Effect::FetchDetail
                },
                AppEvent::PurgeQueue => if old(self).awaiting_purge_confirmation {
                    *final(self) == *old(self) && effect == Effect::Nothing
                } else {
                    purge_requested(*old(self), *final(self)) && effect == Effect::Nothing
                },
                AppEvent::ConfirmPurge => if !old(self).awaiting_purge_confirmation {
                    *final(self) == *old(self) && effect == Effect::Nothing
                } else if old(self).queues@.len() > 0 {
                    let q = old(self).queues@[old(self).selected_index as int];
                    *final(self) == (App {
                        awaiting_purge_confirmation: false,
                        purge_in_progress: true,
                        status_message: StatusMessage::Purging { name: q.name },
                        ..*old(self)
                    }) && effect == Effect::ExecutePurge { url: q.url, name: q.name }
                } else {
                    *final(self) == (App { awaiting_purge_confirmation: false, ..*old(self) })
                        && effect == Effect::RearmTimer
                },
                AppEvent::CancelPurge => if !old(self).awaiting_purge_confirmation {
                    *final(self) == *old(self) && effect == Effect::Nothing
                } else {
                    *final(self) == (App {
                        awaiting_purge_confirmation: false,
                        status_message: StatusMessage::PurgeCancelled,
                        ..*old(self)
                    }) && effect == Effect::Nothing
                },
            },
    {
        match event {
            AppEvent::Quit => {
                self.quit();
                Effect::Nothing
            },
            AppEvent::Refresh => {
                if self.awaiting_purge_confirmation {
                    Effect::Nothing
                } else {
                    self.start_refresh();
                    Effect::Refresh
                }
            },
            AppEvent::NextQueue => {
                if self.awaiting_purge_confirmation {
                    Effect::Nothing
                } else {
                    self.next_queue();
                    Effect::FetchDetail
                }
            },
            AppEvent::PreviousQueue => {
                if self.awaiting_purge_confirmation {
                    Effect::Nothing
                } else {
                    self.previous_queue();
                    Effect::FetchDetail
                }
            },
            AppEvent::ToggleFilter => {
                if self.awaiting_purge_confirmation {
                    Effect::Nothing
                } else {
                    self.toggle_filter();
                    Effect::FetchDetail
                }
            },
            AppEvent::PurgeQueue => {
                if self.awaiting_purge_confirmation {
                    Effect::Nothing
                } else {
                    self.request_purge_confirmation();
                    Effect::Nothing
                }
            },
            AppEvent::ConfirmPurge => {
                if self.awaiting_purge_confirmation {
                    match self.begin_purge() {
                        Some((url, name)) => Effect::ExecutePurge { url, name },
                        None => Effect::RearmTimer,
                    }
                } else {
                    Effect::Nothing
                }
            },
            AppEvent::CancelPurge => {
                if self.awaiting_purge_confirmation {
                    self.cancel_purge();
                } else {
                }
                Effect::Nothing
            },
        }
    }
}

/// The derived-view and selection laws: in every well-formed state the
/// visible list is exactly the full list filtered to non-empty queues when
/// the filter flag is set (else the full list itself), and the selection
/// index is within the visible list whenever it is non-empty, else `0`.
pub proof fn lemma_visible_queues(app: App)
    requires
        app.wf(),
    ensures
        app.queues@ == visible_of(app.all_queues@, app.filter_non_empty),
        app.filter_non_empty ==> app.queues@ == app.all_queues@.filter(pred_visible()),
        !app.filter_non_empty ==> app.queues@ == app.all_queues@,
        app.queues@.len() > 0 ==> 0 <= app.selected_index < app.queues@.len(),
        app.queues@.len() == 0 ==> app.selected_index == 0,
{
}

/// After any successful refresh the full queue list is sorted by
/// visible-message count descending and, for every count `c`, the queues
/// with count `c` stand in the order the service returned them.
pub proof fn lemma_refresh_sorted(pre: App, qs: Seq<QueueInfo>, post: App, c: i64)
    requires
        refresh_applied(pre, qs, post),
    ensures
        sorted_desc(post.all_queues@),
        with_count(post.all_queues@, c) == with_count(qs, c),
{
    lemma_sort_desc_sorted(qs);
    lemma_sort_desc_stable(qs, c);
}

/// Circular wrap-around of `selectNext`: from the last index the selection
/// returns to `0`.
pub proof fn lemma_next_wraps_from_last(len: int)
    requires
        len > 0,
    ensures
        spec_next_index(len - 1, len) == 0,
{
    assert(len % len == 0) by (nonlinear_arith)
        requires
            len > 0,
    ;
}

/// Circular wrap-around of `selectPrevious`: from index `0` the selection
/// returns to the last index.
pub proof fn lemma_prev_wraps_from_first(len: int)
    requires
        len > 0,
    ensures
        spec_prev_index(0, len) == len - 1,
{
}

} // verus!
