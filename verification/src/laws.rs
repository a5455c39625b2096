//! Properties of the library that span several operations.
use vstd::prelude::*;
use crate::media_stream::{first_free_id, id_after, id_space, needs_opening};
use crate::sleep::{SleepSchedule, SleepTask, WorkerStep, due_at, pending_after};
use crate::text::{decimal, digit_char, signed_decimal};
use crate::bridge::{len_answered, read_answered, reported_len_value};
use crate::error::DataSourceError;
use crate::media_source::{FilePath, MediaSource, MediaSourceRepr, custom_count, fs_path_repr, source_entry};

verus! {

/// The identifier that `add` picks is determined by the identifiers in use
/// and the search start: two results of the search are equal.
pub proof fn law_first_free_id_unique(used: Set<i32>, start: i32, a: i32, b: i32)
    requires
        first_free_id(used, start, a),
        first_free_id(used, start, b),
    ensures
        a == b,
{
    let ka = choose|k: int|
        0 <= k < id_space() && a == id_after(start, k) && !used.contains(a) && (forall|j: int|
            0 <= j < k ==> used.contains(#[trigger] id_after(start, j)));
    let kb = choose|k: int|
        0 <= k < id_space() && b == id_after(start, k) && !used.contains(b) && (forall|j: int|
            0 <= j < k ==> used.contains(#[trigger] id_after(start, j)));
    if ka < kb {
        assert(used.contains(id_after(start, ka)));
    } else if kb < ka {
        assert(used.contains(id_after(start, kb)));
    }
}

/// When the identifier at which the search starts is free, `add` picks it.
pub proof fn law_add_takes_next_id_when_free(used: Set<i32>, start: i32, id: i32)
    requires
        first_free_id(used, start, id),
        !used.contains(start),
    ensures
        id == start,
{
    assert(id_after(start, 0) == start);
    assert(first_free_id(used, start, start));
    law_first_free_id_unique(used, start, id, start);
}

/// The search for a free identifier wraps from `i32::MAX` to `i32::MIN`.
pub proof fn law_ids_wrap_around(used: Set<i32>, id: i32)
    requires
        first_free_id(used, i32::MAX, id),
        used.contains(i32::MAX),
        !used.contains(i32::MIN),
    ensures
        id == i32::MIN,
{
    assert(id_after(i32::MAX, 0) == i32::MAX);
    assert(id_after(i32::MAX, 1) == i32::MIN);
    assert(first_free_id(used, i32::MAX, i32::MIN)) by {
        assert forall|j: int| 0 <= j < 1 implies used.contains(#[trigger] id_after(i32::MAX, j)) by {
            assert(j == 0);
        }
    }
    law_first_free_id_unique(used, i32::MAX, id, i32::MIN);
}

/// A stream that was just registered is what a lookup of its identifier
/// gives back.
pub proof fn law_lookup_after_add<S>(before: Map<i32, S>, id: i32, stream: S)
    ensures
        before.insert(id, stream).dom().contains(id),
        before.insert(id, stream)[id] == stream,
        forall|other: i32|
            other != id ==> (#[trigger] before.insert(id, stream).dom().contains(other)
                <==> before.dom().contains(other)),
{
}

/// After `close`, none of the closed identifiers is found any more.
pub proof fn law_lookup_after_close<S>(before: Map<i32, S>, ids: Seq<i32>, id: i32)
    requires
        ids.contains(id),
    ensures
        !before.remove_keys(ids.to_set()).dom().contains(id),
{
}

/// Closing the streams that were registered for a request (as
/// `prepare_sources` reports them) gives back the registry as it was before.
pub proof fn law_close_undoes_registration<S>(
    before: Map<i32, S>,
    after: Map<i32, S>,
    ids: Seq<i32>,
)
    requires
        after.dom() == before.dom() + ids.to_set(),
        forall|j: int| 0 <= j < ids.len() ==> !before.dom().contains(#[trigger] ids[j]),
        forall|id: i32| #[trigger] before.dom().contains(id) ==> after[id] == before[id],
    ensures
        after.remove_keys(ids.to_set()) == before,
{
    assert forall|id: i32| #[trigger] ids.to_set().contains(id) implies !before.dom().contains(id) by {
        let j = choose|j: int| 0 <= j < ids.len() && ids[j] == id;
        assert(!before.dom().contains(ids[j]));
    }
    assert(after.remove_keys(ids.to_set()) =~= before);
}

/// Once a reader is open, later uses whose lock is not poisoned run on it
/// without opening another.
pub proof fn law_open_reader_is_reused<R>(reader: Option<R>)
    requires
        reader is Some,
    ensures
        !needs_opening(reader, false),
{
}

/// After a reader is dropped (by `deactivate`, or because the lock was
/// poisoned), the next use opens a new one.
pub proof fn law_dropped_reader_is_reopened<R>(poisoned: bool)
    ensures
        needs_opening(None::<R>, poisoned),
        needs_opening(Some::<R>(arbitrary()), true),
{
}

/// Every pending sleep is either due or still pending at a given time,
/// and not both.
pub proof fn law_sleeps_partition<T>(tasks: Seq<SleepTask<T>>, now: u64)
    ensures
        due_at(tasks, now).len() + pending_after(tasks, now).len() == tasks.len(),
        forall|i: int| 0 <= i < due_at(tasks, now).len() ==> (#[trigger] due_at(tasks, now)[i]).deadline <= now,
        forall|i: int|
            0 <= i < pending_after(tasks, now).len() ==> (#[trigger] pending_after(
                tasks,
                now,
            )[i]).deadline > now,
    decreases tasks.len(),
{
    reveal_with_fuel(Seq::filter, 1);
    if tasks.len() > 0 {
        law_sleeps_partition(tasks.drop_last(), now);
        let d = due_at(tasks.drop_last(), now);
        let p = pending_after(tasks.drop_last(), now);
        assert(due_at(tasks, now) == if tasks.last().deadline <= now { d.push(tasks.last()) } else { d });
        assert(pending_after(tasks, now) == if tasks.last().deadline > now { p.push(tasks.last()) } else { p });
    } else {
        assert(due_at(tasks, now) =~= Seq::<SleepTask<T>>::empty());
        assert(pending_after(tasks, now) =~= Seq::<SleepTask<T>>::empty());
    }
}

/// The number of workers serving a schedule: one while it is marked
/// running, none otherwise (a worker is started exactly when `push` says so,
/// and ends exactly when `worker_round` says `Exit`).
pub open spec fn workers<T>(s: SleepSchedule<T>) -> int {
    if s.thread_running() {
        1
    } else {
        0
    }
}

/// A sleep request never starts a second worker: when `push` asks for a
/// worker, none ran before, and afterwards exactly one runs and the new
/// sleep is pending.
pub proof fn law_push_keeps_one_worker<T>(
    before: SleepSchedule<T>,
    after: SleepSchedule<T>,
    deadline: u64,
    task: T,
    start_worker: bool,
)
    requires
        before.wf(),
        after.tasks() == before.tasks().push(SleepTask { deadline, task }),
        after.thread_running(),
        start_worker == !before.thread_running(),
    ensures
        workers(before) + (if start_worker {
            1int
        } else {
            0int
        }) == workers(after),
        workers(after) == 1,
        after.wf(),
        after.tasks().contains(SleepTask { deadline, task }),
{
    assert(after.tasks()[after.tasks().len() - 1] == SleepTask { deadline, task });
}

/// A worker round ends the worker exactly when no sleep is left pending, and
/// keeps it otherwise; no pending sleep is ever left without a worker.
pub proof fn law_round_keeps_one_worker<T>(
    before: SleepSchedule<T>,
    after: SleepSchedule<T>,
    step: WorkerStep,
)
    requires
        before.thread_running(),
        after.wf(),
        after.tasks().len() == 0 ==> step == WorkerStep::Exit && !after.thread_running(),
        after.tasks().len() > 0 ==> after.thread_running() && step is WaitUntil,
    ensures
        workers(before) == 1,
        step == WorkerStep::Exit <==> workers(after) == 0,
        workers(after) == 0 ==> after.tasks().len() == 0,
{
}

/// A worker round loses no sleep: each pending sleep is either handed back
/// as due (to be woken) or is still pending afterwards.
pub proof fn law_round_loses_no_sleep<T>(tasks: Seq<SleepTask<T>>, now: u64, i: int)
    requires
        0 <= i < tasks.len(),
    ensures
        tasks[i].deadline <= now ==> due_at(tasks, now).contains(tasks[i]),
        tasks[i].deadline > now ==> pending_after(tasks, now).contains(tasks[i]),
{
    if tasks[i].deadline <= now {
        tasks.lemma_filter_contains(|t: SleepTask<T>| t.deadline <= now, i);
    } else {
        tasks.lemma_filter_contains(|t: SleepTask<T>| t.deadline > now, i);
    }
}

/// A known length that fits in a `jlong` is reported as it is; `-1` (length
/// unknown) is reported exactly when the length is unknown or too large.
pub proof fn law_reported_len(len: Option<u64>)
    ensures
        len matches Some(l) ==> (l <= i64::MAX ==> reported_len_value(len) == l),
        reported_len_value(len) == -1 <==> (len is None || len->Some_0 > i64::MAX),
        reported_len_value(len) >= -1,
{
}

/// The answer to a length request: the stream's known length `l` (when it
/// fits in a `jlong`) is answered `Ok(l)`, an unknown one `Ok(-1)`, and the
/// stream's error is handed on as is, whatever its code.
pub proof fn law_len_request_answer(
    lr: Result<Option<u64>, DataSourceError>,
    r: Result<i64, DataSourceError>,
)
    requires
        len_answered(lr, r),
    ensures
        lr matches Ok(Some(l)) ==> (l <= i64::MAX ==> r == Ok::<i64, DataSourceError>(l as i64)),
        lr == Ok::<Option<u64>, DataSourceError>(None) ==> r == Ok::<i64, DataSourceError>(-1i64),
        lr matches Err(e) ==> r == Err::<i64, DataSourceError>(e),
        r is Err <==> lr is Err,
{
}

/// The answer to a read request: the count `n` the reader returned is
/// reported as it is (so a read of some bytes is never answered `0`), and the
/// reader's error is handed on as is.
pub proof fn law_read_request_answer(
    rr: Result<usize, DataSourceError>,
    r: Result<i32, DataSourceError>,
)
    requires
        read_answered(rr, r),
    ensures
        rr matches Ok(n) ==> (n <= i32::MAX ==> r == Ok::<i32, DataSourceError>(n as i32)),
        rr matches Ok(n) ==> (n > 0 ==> r != Ok::<i32, DataSourceError>(0i32)),
        rr matches Err(e) ==> r == Err::<i32, DataSourceError>(e),
{
}

/// A URL of the tauri filesystem becomes a URI source and a file path a path
/// source, with the text unchanged, whatever it is.
pub proof fn law_fs_path_source<O>(url: String, path: String)
    ensures
        fs_path_repr::<O>(FilePath::Url(url)) == MediaSourceRepr::<O>::Uri(url),
        fs_path_repr::<O>(FilePath::Path(path)) == MediaSourceRepr::<O>::Path(path),
{
}

/// Each source is described to the player by its own kind, wherever it
/// stands in the list: a URI as itself with the tag "Uri", a path as itself
/// with the tag "Path", and a custom provider by the identifier of its stream
/// with the tag "StreamId".
pub proof fn law_source_tags<O>(sources: Seq<MediaSource<O>>, ids: Seq<i32>, i: int)
    requires
        0 <= i < sources.len(),
    ensures
        sources[i].repr matches MediaSourceRepr::Uri(u) ==> source_entry(sources, ids, i) == (
            u@,
            "Uri"@,
        ),
        sources[i].repr matches MediaSourceRepr::Path(p) ==> source_entry(sources, ids, i) == (
            p@,
            "Path"@,
        ),
        sources[i].repr is CustomProvider ==> source_entry(sources, ids, i) == (
            signed_decimal(ids[custom_count(sources, i) as int] as int),
            "StreamId"@,
        ),
{
}

/// The value of a digit character.
pub open spec fn digit_value(c: char) -> int {
    c as int - '0' as int
}

/// The number that a string of decimal digits denotes.
pub open spec fn decimal_value(s: Seq<char>) -> int
    decreases s.len(),
{
    if s.len() == 0 {
        0
    } else {
        10 * decimal_value(s.drop_last()) + digit_value(s.last())
    }
}

/// The number that a decimal string, possibly with a leading `-`, denotes.
pub open spec fn signed_decimal_value(s: Seq<char>) -> int {
    if s.len() > 0 && s[0] == '-' {
        -decimal_value(s.drop_first())
    } else {
        decimal_value(s)
    }
}

proof fn lemma_digit_value(d: nat)
    ensures
        digit_value(digit_char(d)) == d % 10,
        digit_char(d) != '-',
{
}

/// Reading back the decimal form of a natural number gives the number.
pub proof fn law_decimal_round_trip(n: nat)
    ensures
        decimal_value(decimal(n)) == n,
        decimal(n).len() > 0,
        decimal(n)[0] != '-',
    decreases n,
{
    lemma_digit_value(n);
    if n >= 10 {
        law_decimal_round_trip(n / 10);
        assert(decimal(n).drop_last() =~= decimal(n / 10));
        assert(decimal(n).last() == digit_char(n % 10));
        lemma_digit_value(n % 10);
        assert(decimal_value(decimal(n)) == 10 * decimal_value(decimal(n / 10)) + digit_value(
            digit_char(n % 10),
        ));
    } else {
        assert(decimal(n).drop_last() =~= Seq::<char>::empty());
        assert(decimal_value(decimal(n)) == 10 * decimal_value(Seq::<char>::empty()) + digit_value(
            digit_char(n),
        ));
    }
}

/// The identifier under which a custom provider is passed to the player
/// reads back as the stream's identifier.
pub proof fn law_signed_decimal_round_trip(v: int)
    ensures
        signed_decimal_value(signed_decimal(v)) == v,
{
    if v < 0 {
        law_decimal_round_trip((-v) as nat);
        assert((seq!['-'] + decimal((-v) as nat)).drop_first() =~= decimal((-v) as nat));
    } else {
        law_decimal_round_trip(v as nat);
    }
}

} // verus!
