use vstd::prelude::*;

use crate::filter::LevelFilter;
use crate::logger::Log;
use crate::logger::logger_log_step;
use crate::logger::logger_quiet_step;
use crate::record::Metadata;
use crate::record::Record;
use crate::severity::Severity;

verus! {

/// An error which occurred while reloading the logger.
#[derive(Debug, Clone, Copy, PartialEq, Eq, Structural)]
pub enum ReloadError {
    /// The cell referenced by the reload handle was dropped meanwhile.
    Gone,
    /// A prior mutation of the cell failed irrecoverably, so its contents
    /// cannot be trusted and the cell stays disabled.
    Poisoned,
}

impl ReloadError {
    /// The text shown for this error.
    pub open spec fn spec_message(self) -> Seq<char> {
        match self {
            ReloadError::Gone => "Referenced logger was dropped"@,
            ReloadError::Poisoned => "Lock poisoned"@,
        }
    }

    /// The text shown for this error.
    pub fn message(self) -> (r: &'static str)
        ensures
            r@ == self.spec_message(),
    {
        match self {
            ReloadError::Gone => "Referenced logger was dropped",
            ReloadError::Poisoned => "Lock poisoned",
        }
    }
}

/// The lifecycle of a reloadable cell.
///
/// `Live` holds the current logger.  `Poisoned` stands for a cell whose last
/// mutation failed irrecoverably: its contents cannot be trusted, so they are
/// discarded and the cell fails safe by silencing logging.  `Gone` stands for
/// a cell whose owner has dropped it: a handle cannot keep the cell alive, so
/// once the owner is gone every operation through a handle fails forever.
#[derive(Debug)]
pub enum CellState<T> {
    /// The cell holds a trusted current logger.
    Live(T),
    /// A mutation failed irrecoverably; the cell is disabled for good.
    Poisoned,
    /// The owner dropped the cell; handles find nothing to operate on.
    Gone,
}

/// A logger cell whose inner logger can be replaced or mutated at runtime
/// through a [`ReloadHandle`], and which fails safe: a cell whose mutation
/// failed, or whose owner is gone, stops logging instead of running with
/// untrusted contents.
#[derive(Debug)]
pub struct ReloadLog<T> {
    /// The lifecycle state of the cell, with the current logger when live.
    pub state: CellState<T>,
}

impl<T> ReloadLog<T> {
    /// Whether the cell holds a trusted current logger.
    pub open spec fn is_live(&self) -> bool {
        self.state is Live
    }

    /// Whether the cell was disabled by a failed mutation.
    pub open spec fn is_poisoned(&self) -> bool {
        self.state is Poisoned
    }

    /// Whether the owner dropped the cell.
    pub open spec fn is_gone(&self) -> bool {
        self.state is Gone
    }

    /// The current logger of a live cell.
    pub open spec fn current(&self) -> T
        recommends
            self.is_live(),
    {
        self.state->Live_0
    }

    /// Create a new reloadable cell over the given `logger`.
    pub fn new(logger: T) -> (c: Self)
        ensures
            c.state == CellState::Live(logger),
    {
        ReloadLog { state: CellState::Live(logger) }
    }

    /// Obtain a handle to reload or modify the inner logger.
    ///
    /// A handle is a weak reference: it cannot keep the cell alive, and all
    /// handles observe the same cell.  Here the cell is an explicit value, so
    /// the handle carries no state of its own and every operation on it takes
    /// the cell it refers to.
    pub fn handle(&self) -> (h: ReloadHandle<T>)
        ensures
            h == (ReloadHandle::<T> { marker: core::marker::PhantomData }),
    {
        ReloadHandle { marker: core::marker::PhantomData }
    }

    /// Mark the cell as dropped by its owner.
    ///
    /// This stands for the end of the owner's lifetime: afterwards every
    /// [`ReloadHandle::replace`] and [`ReloadHandle::modify`] fails with
    /// [`ReloadError::Gone`], forever.
    pub fn retire(&mut self)
        ensures
            final(self).is_gone(),
    {
        self.state = CellState::Gone;
    }
}

impl<T: Log> ReloadLog<T> {
    /// Whether the current logger wants records with this metadata.
    ///
    /// A cell that is poisoned or gone reports `false`: a logger left in an
    /// unknown state must not be used at all.
    pub fn enabled(&self, metadata: &Metadata) -> (r: bool)
        ensures
            r == (self.is_live() && self.current().accepts(*metadata)),
    {
        match &self.state {
            CellState::Live(l) => l.enabled(metadata),
            _ => false,
        }
    }

    /// Deliver `record` to the current logger.
    ///
    /// A cell that is poisoned or gone does nothing; the record is lost.
    pub fn log(&mut self, record: &Record)
        ensures
            cell_log_step(*old(self), *record, *final(self)),
    {
        match &mut self.state {
            CellState::Live(l) => l.log(record),
            _ => (),
        }
    }

    /// Flush the current logger; a cell that is poisoned or gone does nothing.
    pub fn flush(&mut self)
        ensures
            old(self).is_live() ==> final(self).is_live() && logger_quiet_step(
                old(self).current(),
                final(self).current(),
            ),
            !old(self).is_live() ==> *final(self) == *old(self),
    {
        match &mut self.state {
            CellState::Live(l) => l.flush(),
            _ => (),
        }
    }
}

impl<T: Log> Log for ReloadLog<T> {
    /// The records delivered by the current logger; a cell that is poisoned
    /// or gone has discarded its logger and reports none.
    open spec fn records(&self) -> Seq<Record> {
        if self.is_live() {
            self.current().records()
        } else {
            Seq::<Record>::empty()
        }
    }

    open spec fn accepts(&self, metadata: Metadata) -> bool {
        self.is_live() && self.current().accepts(metadata)
    }

    open spec fn delivers(&self, record: Record) -> bool {
        self.is_live() && self.current().delivers(record)
    }

    fn enabled(&self, metadata: &Metadata) -> (r: bool) {
        ReloadLog::enabled(self, metadata)
    }

    fn log(&mut self, record: &Record) {
        ReloadLog::log(self, record);
    }

    fn flush(&mut self) {
        ReloadLog::flush(self);
    }
}

impl<T> ReloadLog<LevelFilter<T>> {
    /// Whether the cell is live: neither poisoned nor retired.
    ///
    /// Together with [`Self::wants`] and [`Self::destination`] this lets a
    /// caller that owns an opaque destination route records itself: every
    /// decision is made here, and the caller only performs the delivery on
    /// the logger handed out.
    pub fn active(&self) -> (r: bool)
        ensures
            r == self.is_live(),
    {
        match &self.state {
            CellState::Live(_) => true,
            _ => false,
        }
    }

    /// Whether a record at severity `level` is to be delivered: the cell
    /// must be live and the severity must pass the filter's threshold.
    pub fn wants(&self, level: Severity) -> (r: bool)
        ensures
            r == (self.is_live() && level.spec_passes(self.current().level)),
    {
        match &self.state {
            CellState::Live(filter) => level.verbosity() <= filter.level.verbosity(),
            _ => false,
        }
    }

    /// Exclusive access to the filter's inner logger of a live cell; the
    /// cell stays live with the same threshold, around whatever the caller
    /// leaves in the logger.
    pub fn destination(&mut self) -> (r: &mut T)
        requires
            old(self).is_live(),
        ensures
            *r == old(self).current().logger,
            final(self).is_live(),
            final(self).current() == (LevelFilter {
                level: old(self).current().level,
                logger: *final(r),
            }),
    {
        match &mut self.state {
            CellState::Live(filter) => &mut filter.logger,
            _ => vstd::pervasive::unreached(),
        }
    }
}

/// Relation between a cell and its state after one [`ReloadLog::log`] call.
pub open spec fn cell_log_step<T: Log>(pre: ReloadLog<T>, record: Record, post: ReloadLog<T>) -> bool {
    &&& pre.is_live() ==> post.is_live() && logger_log_step(pre.current(), record, post.current())
    &&& !pre.is_live() ==> post == pre
}

/// Relation between a cell and its state after one [`ReloadHandle::replace`]
/// call that returned `r`.
pub open spec fn cell_replace_step<T>(
    pre: ReloadLog<T>,
    logger: T,
    post: ReloadLog<T>,
    r: Result<T, ReloadError>,
) -> bool {
    &&& pre.is_gone() ==> post == pre && r == Err::<T, ReloadError>(ReloadError::Gone)
    &&& pre.is_poisoned() ==> post == pre && r == Err::<T, ReloadError>(ReloadError::Poisoned)
    &&& pre.is_live() ==> post.state == CellState::Live(logger) && r == Ok::<T, ReloadError>(
        pre.current(),
    )
}

/// Relation between a cell and its state after one [`ReloadHandle::modify`]
/// call with the mutation `f` that returned `r`.
pub open spec fn cell_modify_step<T, F: FnOnce(T) -> Option<T>>(
    pre: ReloadLog<T>,
    f: F,
    post: ReloadLog<T>,
    r: Result<(), ReloadError>,
) -> bool {
    &&& pre.is_gone() ==> post == pre && r == Err::<(), ReloadError>(ReloadError::Gone)
    &&& pre.is_poisoned() ==> post == pre && r == Err::<(), ReloadError>(ReloadError::Poisoned)
    &&& pre.is_live() ==> exists|fr: Option<T>|
        {
            &&& #[trigger] call_ensures(f, (pre.current(),), fr)
            &&& fr matches Some(l) ==> post.state == CellState::Live(l) && r == Ok::<
                (),
                ReloadError,
            >(())
            &&& fr is None ==> post.is_poisoned() && r == Err::<(), ReloadError>(
                ReloadError::Poisoned,
            )
        }
}

/// A handle to reload the logger inside a [`ReloadLog`].
///
/// The handle is weak: it holds nothing of the cell and cannot extend its
/// lifetime, so each operation takes the cell it refers to and fails with
/// [`ReloadError::Gone`] once the cell is retired.
#[derive(Debug)]
pub struct ReloadHandle<T> {
    /// Marks the type of logger the referenced cell holds.
    pub marker: core::marker::PhantomData<T>,
}

impl<T> Clone for ReloadHandle<T> {
    /// A clone of a handle refers to the same cell, which here is whichever
    /// cell it is used with.
    fn clone(&self) -> (h: Self)
        ensures
            h == *self,
    {
        ReloadHandle { marker: core::marker::PhantomData }
    }
}

impl<T> ReloadHandle<T> {
    /// Replace the inner logger of the referenced cell, handing back the
    /// logger that was current until now.
    ///
    /// Fails with [`ReloadError::Gone`] if the cell was retired and with
    /// [`ReloadError::Poisoned`] if a prior mutation poisoned it; in both
    /// cases the cell is left exactly as it was.
    pub fn replace(&self, cell: &mut ReloadLog<T>, logger: T) -> (r: Result<T, ReloadError>)
        ensures
            cell_replace_step(*old(cell), logger, *final(cell), r),
    {
        let mut state = CellState::Gone;
        core::mem::swap(&mut cell.state, &mut state);
        match state {
            CellState::Live(previous) => {
                cell.state = CellState::Live(logger);
                Ok(previous)
            },
            CellState::Poisoned => {
                cell.state = CellState::Poisoned;
                Err(ReloadError::Poisoned)
            },
            CellState::Gone => {
                cell.state = CellState::Gone;
                Err(ReloadError::Gone)
            },
        }
    }

    /// Modify the inner logger of the referenced cell in place.
    ///
    /// The mutation `f` receives the current logger and returns its
    /// replacement, or `None` if it failed irrecoverably and the logger is
    /// lost: the cell then becomes poisoned and stays disabled for good.
    ///
    /// Fails with [`ReloadError::Gone`] if the cell was retired, and with
    /// [`ReloadError::Poisoned`] if the cell was already poisoned or the
    /// mutation itself failed.
    pub fn modify<F: FnOnce(T) -> Option<T>>(&self, cell: &mut ReloadLog<T>, f: F) -> (r: Result<
        (),
        ReloadError,
    >)
        requires
            old(cell).is_live() ==> call_requires(f, (old(cell).current(),)),
        ensures
            cell_modify_step(*old(cell), f, *final(cell), r),
    {
        let mut state = CellState::Gone;
        core::mem::swap(&mut cell.state, &mut state);
        match state {
            CellState::Live(current) => {
                match f(current) {
                    Some(mutated) => {
                        cell.state = CellState::Live(mutated);
                        Ok(())
                    },
                    None => {
                        cell.state = CellState::Poisoned;
                        Err(ReloadError::Poisoned)
                    },
                }
            },
            CellState::Poisoned => {
                cell.state = CellState::Poisoned;
                Err(ReloadError::Poisoned)
            },
            CellState::Gone => {
                cell.state = CellState::Gone;
                Err(ReloadError::Gone)
            },
        }
    }
}

/// Relation between a cell and its state after the records in `records` were
/// logged one after the other, oldest first.
pub open spec fn cell_log_trace<T: Log>(
    pre: ReloadLog<T>,
    records: Seq<Record>,
    post: ReloadLog<T>,
) -> bool
    decreases records.len(),
{
    if records.len() == 0 {
        post == pre
    } else {
        exists|mid: ReloadLog<T>|
            #[trigger] cell_log_step(pre, records[0], mid) && cell_log_trace(
                mid,
                records.drop_first(),
                post,
            )
    }
}

/// Of the records in `records`, those the logger `l` delivers, in order.
pub open spec fn delivered_records<T: Log>(l: T, records: Seq<Record>) -> Seq<Record>
    decreases records.len(),
{
    if records.len() == 0 {
        Seq::<Record>::empty()
    } else {
        let rest = delivered_records(l, records.drop_first());
        if l.delivers(records[0]) {
            seq![records[0]] + rest
        } else {
            rest
        }
    }
}

/// Two loggers that deliver the same records select the same ones out of any
/// sequence.
proof fn lemma_delivered_records_congruent<T: Log>(l1: T, l2: T, records: Seq<Record>)
    requires
        forall|r: Record| #[trigger] l1.delivers(r) == l2.delivers(r),
    ensures
        delivered_records(l1, records) == delivered_records(l2, records),
    decreases records.len(),
{
    if records.len() != 0 {
        lemma_delivered_records_congruent(l1, l2, records.drop_first());
    }
}

/// Logging a sequence of records into a live cell keeps it live, appends to
/// its logger exactly the records it delivers, in order, and changes neither
/// which metadata it accepts nor which records it delivers.
pub proof fn lemma_log_trace_delivery<T: Log>(
    pre: ReloadLog<T>,
    records: Seq<Record>,
    post: ReloadLog<T>,
)
    requires
        pre.is_live(),
        cell_log_trace(pre, records, post),
    ensures
        post.is_live(),
        post.current().records() == pre.current().records() + delivered_records(
            pre.current(),
            records,
        ),
        forall|m: Metadata| #[trigger] post.current().accepts(m) == pre.current().accepts(m),
        forall|r: Record| #[trigger] post.current().delivers(r) == pre.current().delivers(r),
    decreases records.len(),
{
    if records.len() == 0 {
        assert(post.current().records() =~= pre.current().records() + delivered_records(
            pre.current(),
            records,
        ));
    } else {
        let mid = choose|mid: ReloadLog<T>|
            #[trigger] cell_log_step(pre, records[0], mid) && cell_log_trace(
                mid,
                records.drop_first(),
                post,
            );
        lemma_log_trace_delivery(mid, records.drop_first(), post);
        lemma_delivered_records_congruent(mid.current(), pre.current(), records.drop_first());
        assert(post.current().records() =~= pre.current().records() + delivered_records(
            pre.current(),
            records,
        ));
    }
}

/// For any sequence of `log` calls interleaved with a single successful
/// `replace`, each record is delivered to exactly one of the two loggers:
/// the logger handed back by `replace` holds what the old logger held plus
/// exactly the records logged before the swap that it delivers, in order,
/// and the cell's logger afterwards holds what the replacement held plus
/// exactly the records logged after the swap that the replacement delivers,
/// in order — so no record reaches both, and none reaches a torn mixture.
pub proof fn law_single_replace_delivery<T: Log>(
    c0: ReloadLog<T>,
    c1: ReloadLog<T>,
    c2: ReloadLog<T>,
    c3: ReloadLog<T>,
    before: Seq<Record>,
    fresh: T,
    previous: T,
    after: Seq<Record>,
)
    requires
        c0.is_live(),
        cell_log_trace(c0, before, c1),
        cell_replace_step(c1, fresh, c2, Ok(previous)),
        cell_log_trace(c2, after, c3),
    ensures
        previous.records() == c0.current().records() + delivered_records(c0.current(), before),
        c2.current() == fresh,
        c3.current().records() == fresh.records() + delivered_records(fresh, after),
{
    lemma_log_trace_delivery(c0, before, c1);
    lemma_log_trace_delivery(c2, after, c3);
}

/// After the owning cell is retired, `replace` and `modify` through a handle
/// fail with `Gone`, indefinitely, and never change the cell.
pub proof fn law_gone_is_permanent<T, F: FnOnce(T) -> Option<T>>(
    c0: ReloadLog<T>,
    c1: ReloadLog<T>,
    c2: ReloadLog<T>,
    logger: T,
    r1: Result<T, ReloadError>,
    f: F,
    r2: Result<(), ReloadError>,
)
    requires
        c0.is_gone(),
        cell_replace_step(c0, logger, c1, r1),
        cell_modify_step(c1, f, c2, r2),
    ensures
        r1 == Err::<T, ReloadError>(ReloadError::Gone),
        r2 == Err::<(), ReloadError>(ReloadError::Gone),
        c2 == c0,
        c2.is_gone(),
{
}

/// If a `modify` mutation fails irrecoverably, the cell becomes poisoned:
/// the failing call reports `Poisoned`, afterwards no metadata is accepted,
/// `log` is a no-op, and a later `replace` fails with `Poisoned` without
/// changing the cell.
pub proof fn law_poisoned_after_failed_modify<T: Log, F: FnOnce(T) -> Option<T>>(
    c0: ReloadLog<T>,
    c1: ReloadLog<T>,
    c2: ReloadLog<T>,
    c3: ReloadLog<T>,
    f: F,
    r_modify: Result<(), ReloadError>,
    metadata: Metadata,
    record: Record,
    logger: T,
    r_replace: Result<T, ReloadError>,
)
    requires
        c0.is_live(),
        forall|t: T, fr: Option<T>| #[trigger] call_ensures(f, (t,), fr) ==> fr is None,
        cell_modify_step(c0, f, c1, r_modify),
        cell_log_step(c1, record, c2),
        cell_replace_step(c2, logger, c3, r_replace),
    ensures
        c1.is_poisoned(),
        r_modify == Err::<(), ReloadError>(ReloadError::Poisoned),
        !c1.accepts(metadata),
        c2 == c1,
        r_replace == Err::<T, ReloadError>(ReloadError::Poisoned),
        c3 == c1,
{
}

} // verus!
