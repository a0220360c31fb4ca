use vstd::prelude::*;
use crate::store::MetadataStore;

verus! {

/// Why an upload stopped.
#[derive(Clone, Copy, Debug, PartialEq, Eq, Structural)]
pub enum UploadError {
    /// The path has no usable file name.
    InvalidName,
    /// The local file could not be read.
    Io,
    /// Sending the bytes to the remote platform failed.
    Transfer,
    /// The account's own conversation could not be resolved.
    Resolution,
    /// Delivering the uploaded media as a message failed.
    Delivery,
}

/// Where an upload stands. `size` is the byte length measured before the
/// transfer began.
#[derive(Clone, Copy, Debug, PartialEq, Eq, Structural)]
pub enum UploadPhase {
    Measuring,
    Transferring { size: u64 },
    Resolving { size: u64 },
    Delivering { size: u64 },
    Completed { size: u64 },
    Failed { error: UploadError },
}

/// The outcome of the action the driver last performed.
#[derive(Clone, Copy, Debug, PartialEq, Eq, Structural)]
pub enum UploadEvent {
    Measured { size: u64 },
    Unreadable,
    Transferred,
    TransferFailed,
    Resolved,
    ResolveFailed,
    Delivered,
    DeliveryFailed,
}

/// What the driver is to do next.
#[derive(Clone, Copy, Debug, PartialEq, Eq, Structural)]
pub enum UploadAction {
    /// Read the local file's byte length.
    Measure,
    /// Show the "Uploading <name>..." status.
    Announce,
    /// Show the progress, in thousandths.
    Progress { permille: u32 },
    /// Stream the file to the remote platform's upload primitive.
    Transfer,
    /// Look up the account's own conversation.
    ResolveSelf,
    /// Send the uploaded media to that conversation.
    Deliver,
    /// The upload is done; record it with this size.
    Finish { size: u64 },
    /// The upload stopped; nothing is recorded.
    Abort { error: UploadError },
}

/// How an upload begins: with nothing to send when the path has no file
/// name, else by measuring the file.
pub open spec fn start_spec(named: bool) -> (UploadPhase, Seq<UploadAction>) {
    if named {
        (UploadPhase::Measuring, seq![UploadAction::Measure])
    } else {
        (
            UploadPhase::Failed { error: UploadError::InvalidName },
            seq![UploadAction::Abort { error: UploadError::InvalidName }],
        )
    }
}

/// One transition. Each step succeeds into the next or fails for good; an
/// event that does not answer the pending action changes nothing.
pub open spec fn step_spec(p: UploadPhase, e: UploadEvent) -> (UploadPhase, Seq<UploadAction>) {
    match (p, e) {
        (UploadPhase::Measuring, UploadEvent::Measured { size }) => (
            UploadPhase::Transferring { size },
            seq![UploadAction::Announce, UploadAction::Progress { permille: 100 }, UploadAction::Transfer],
        ),
        (UploadPhase::Measuring, UploadEvent::Unreadable) => fail(UploadError::Io),
        (UploadPhase::Transferring { size }, UploadEvent::Transferred) => (
            UploadPhase::Resolving { size },
            seq![UploadAction::Progress { permille: 800 }, UploadAction::ResolveSelf],
        ),
        (UploadPhase::Transferring { .. }, UploadEvent::TransferFailed) => fail(UploadError::Transfer),
        (UploadPhase::Resolving { size }, UploadEvent::Resolved) => (
            UploadPhase::Delivering { size },
            seq![UploadAction::Deliver],
        ),
        (UploadPhase::Resolving { .. }, UploadEvent::ResolveFailed) => fail(UploadError::Resolution),
        (UploadPhase::Delivering { size }, UploadEvent::Delivered) => (
            UploadPhase::Completed { size },
            seq![UploadAction::Progress { permille: 1000 }, UploadAction::Finish { size }],
        ),
        (UploadPhase::Delivering { .. }, UploadEvent::DeliveryFailed) => fail(UploadError::Delivery),
        _ => (p, Seq::empty()),
    }
}

pub open spec fn fail(error: UploadError) -> (UploadPhase, Seq<UploadAction>) {
    (UploadPhase::Failed { error }, seq![UploadAction::Abort { error }])
}

/// The phase reached and the actions issued when `events` arrive in order.
pub open spec fn run(p: UploadPhase, events: Seq<UploadEvent>) -> (UploadPhase, Seq<UploadAction>)
    decreases events.len(),
{
    if events.len() == 0 {
        (p, Seq::empty())
    } else {
        let (q, first) = step_spec(p, events[0]);
        let (r, rest) = run(q, events.drop_first());
        (r, first + rest)
    }
}

/// The progress values among `actions`, in order.
pub open spec fn progress_marks(actions: Seq<UploadAction>) -> Seq<u32>
    decreases actions.len(),
{
    if actions.len() == 0 {
        Seq::empty()
    } else {
        let rest = progress_marks(actions.drop_first());
        match actions[0] {
            UploadAction::Progress { permille } => seq![permille] + rest,
            _ => rest,
        }
    }
}

/// The sizes of the `Finish` actions among `actions`, in order.
pub open spec fn finishes(actions: Seq<UploadAction>) -> Seq<u64>
    decreases actions.len(),
{
    if actions.len() == 0 {
        Seq::empty()
    } else {
        let rest = finishes(actions.drop_first());
        match actions[0] {
            UploadAction::Finish { size } => seq![size] + rest,
            _ => rest,
        }
    }
}

pub open spec fn remote_id_text(filename: Seq<char>) -> Seq<char> {
    seq!['t', 'g', '_', 'f', 'i', 'l', 'e', '_'] + filename
}

pub open spec fn uploading_text(filename: Seq<char>) -> Seq<char> {
    seq!['U', 'p', 'l', 'o', 'a', 'd', 'i', 'n', 'g', ' '] + filename + seq!['.', '.', '.']
}

/// Begins an upload of a file whose name is known (`named`) or not.
pub fn start(named: bool) -> (r: (UploadPhase, Vec<UploadAction>))
    ensures
        (r.0, r.1@) == start_spec(named),
{
    if named {
        (UploadPhase::Measuring, vec![UploadAction::Measure])
    } else {
        let e = UploadError::InvalidName;
        (UploadPhase::Failed { error: e }, vec![UploadAction::Abort { error: e }])
    }
}

fn failed(error: UploadError) -> (r: (UploadPhase, Vec<UploadAction>))
    ensures
        (r.0, r.1@) == fail(error),
{
    (UploadPhase::Failed { error }, vec![UploadAction::Abort { error }])
}

/// Advances an upload by the outcome of its pending action.
pub fn step(phase: UploadPhase, event: UploadEvent) -> (r: (UploadPhase, Vec<UploadAction>))
    ensures
        (r.0, r.1@) == step_spec(phase, event),
{
    match (phase, event) {
        (UploadPhase::Measuring, UploadEvent::Measured { size }) => (
            UploadPhase::Transferring { size },
            vec![UploadAction::Announce, UploadAction::Progress { permille: 100 }, UploadAction::Transfer],
        ),
        (UploadPhase::Measuring, UploadEvent::Unreadable) => failed(UploadError::Io),
        (UploadPhase::Transferring { size }, UploadEvent::Transferred) => (
            UploadPhase::Resolving { size },
            vec![UploadAction::Progress { permille: 800 }, UploadAction::ResolveSelf],
        ),
        (UploadPhase::Transferring { .. }, UploadEvent::TransferFailed) => failed(UploadError::Transfer),
        (UploadPhase::Resolving { size }, UploadEvent::Resolved) => (
            UploadPhase::Delivering { size },
            vec![UploadAction::Deliver],
        ),
        (UploadPhase::Resolving { .. }, UploadEvent::ResolveFailed) => failed(UploadError::Resolution),
        (UploadPhase::Delivering { size }, UploadEvent::Delivered) => (
            UploadPhase::Completed { size },
            vec![UploadAction::Progress { permille: 1000 }, UploadAction::Finish { size }],
        ),
        (UploadPhase::Delivering { .. }, UploadEvent::DeliveryFailed) => failed(UploadError::Delivery),
        _ => (phase, Vec::new()),
    }
}

/// The identifier under which an uploaded file is recorded locally.
pub fn remote_id(filename: &str) -> (r: String)
    ensures
        r@ == remote_id_text(filename@),
{
    proof { reveal_strlit("tg_file_"); }
    let s = String::from_str("tg_file_");
    let r = s.concat(filename);
    assert(r@ =~= remote_id_text(filename@));
    r
}

/// The status shown when the transfer of `filename` begins.
pub fn uploading_status(filename: &str) -> (r: String)
    ensures
        r@ == uploading_text(filename@),
{
    proof {
        reveal_strlit("Uploading ");
        reveal_strlit("...");
    }
    let s = String::from_str("Uploading ");
    let r = s.concat(filename).concat("...");
    assert(r@ =~= uploading_text(filename@));
    r
}

/// Records a finished upload of `filename` in `store`: one record when
/// `phase` is completed, with the measured size and the derived
/// identifier; nothing otherwise. Returns whether a record was added.
pub fn commit_upload(store: &mut MetadataStore, filename: &str, phase: UploadPhase) -> (added: bool)
    ensures
        added == (phase is Completed),
        !added ==> final(store)@ == old(store)@,
        added ==> {
            &&& final(store)@.len() == old(store)@.len() + 1
            &&& final(store)@.take(old(store)@.len() as int) == old(store)@
            &&& final(store)@.last().filename == filename@
            &&& final(store)@.last().file_id == remote_id_text(filename@)
            &&& final(store)@.last().file_size == phase->Completed_size
        },
{
    match phase {
        UploadPhase::Completed { size } => {
            let id = remote_id(filename);
            store.insert_file(filename, id.as_str(), size);
            true
        },
        _ => false,
    }
}

proof fn lemma_marks_concat(a: Seq<UploadAction>, b: Seq<UploadAction>)
    ensures
        progress_marks(a + b) == progress_marks(a) + progress_marks(b),
        finishes(a + b) == finishes(a) + finishes(b),
    decreases a.len(),
{
    if a.len() == 0 {
        assert(a + b =~= b);
    } else {
        assert((a + b).drop_first() =~= a.drop_first() + b);
        lemma_marks_concat(a.drop_first(), b);
    }
}

proof fn lemma_run_unfold(p: UploadPhase, e: UploadEvent, rest: Seq<UploadEvent>)
    ensures
        run(p, seq![e] + rest) == ({
            let (q, first) = step_spec(p, e);
            let (r, tail) = run(q, rest);
            (r, first + tail)
        }),
{
    assert((seq![e] + rest)[0] == e);
    assert((seq![e] + rest).drop_first() =~= rest);
}

/// A finished or failed upload ignores every further event.
pub proof fn lemma_settled_stays(p: UploadPhase, events: Seq<UploadEvent>)
    requires
        p is Completed || p is Failed,
    ensures
        run(p, events) == (p, Seq::<UploadAction>::empty()),
    decreases events.len(),
{
    if events.len() > 0 {
        lemma_settled_stays(p, events.drop_first());
        assert(Seq::<UploadAction>::empty() + Seq::<UploadAction>::empty() =~= Seq::<UploadAction>::empty());
    }
}

proof fn lemma_step_finishes(p: UploadPhase, e: UploadEvent)
    requires
        !(p is Completed),
    ensures
        finishes(step_spec(p, e).1) == if step_spec(p, e).0 is Completed {
            seq![step_spec(p, e).0->Completed_size]
        } else {
            Seq::<u64>::empty()
        },
{
    reveal_with_fuel(finishes, 4);
    let a = step_spec(p, e).1;
    if a.len() > 0 {
        assert(a.drop_first().len() > 0 ==> a.drop_first().drop_first().len() > 0 ==> a.drop_first().drop_first().drop_first().len() == 0);
    }
    if step_spec(p, e).0 is Completed {
        assert(finishes(a) =~= seq![step_spec(p, e).0->Completed_size]);
    } else {
        assert(finishes(a) =~= Seq::<u64>::empty());
    }
}

/// Whatever events arrive, an upload that was not already finished issues
/// a `Finish` once, with its measured size, if it completes, and never
/// otherwise: a failed upload leaves nothing to record.
pub proof fn lemma_finish_once(p: UploadPhase, events: Seq<UploadEvent>)
    requires
        !(p is Completed),
    ensures
        finishes(run(p, events).1) == if run(p, events).0 is Completed {
            seq![run(p, events).0->Completed_size]
        } else {
            Seq::<u64>::empty()
        },
    decreases events.len(),
{
    if events.len() == 0 {
    } else {
        let (q, first) = step_spec(p, events[0]);
        let (r, tail) = run(q, events.drop_first());
        lemma_marks_concat(first, tail);
        lemma_step_finishes(p, events[0]);
        if q is Completed {
            lemma_settled_stays(q, events.drop_first());
            assert(finishes(tail) =~= Seq::<u64>::empty());
            assert(finishes(first) + finishes(tail) =~= finishes(first));
        } else {
            lemma_finish_once(q, events.drop_first());
            assert(finishes(first) + finishes(tail) =~= finishes(tail));
        }
    }
}

/// An upload whose transfer fails ends failed, whatever follows, and
/// issues no `Finish`, so no record is made of it.
pub proof fn lemma_transfer_failure_records_nothing(size: u64, later: Seq<UploadEvent>)
    ensures
        run(
            UploadPhase::Measuring,
            seq![UploadEvent::Measured { size }, UploadEvent::TransferFailed] + later,
        ).0 == (UploadPhase::Failed { error: UploadError::Transfer }),
        finishes(
            run(
                UploadPhase::Measuring,
                seq![UploadEvent::Measured { size }, UploadEvent::TransferFailed] + later,
            ).1,
        ) == Seq::<u64>::empty(),
{
    let events = seq![UploadEvent::Measured { size }, UploadEvent::TransferFailed] + later;
    let failed = UploadPhase::Failed { error: UploadError::Transfer };
    assert(events =~= seq![UploadEvent::Measured { size }] + (seq![UploadEvent::TransferFailed] + later));
    lemma_run_unfold(UploadPhase::Measuring, UploadEvent::Measured { size }, seq![UploadEvent::TransferFailed] + later);
    lemma_run_unfold(UploadPhase::Transferring { size }, UploadEvent::TransferFailed, later);
    lemma_settled_stays(failed, later);
    lemma_finish_once(UploadPhase::Measuring, events);
}

/// An upload that passes every step ends completed, reports progress
/// 0.1, 0.8 and 1.0 in that order, and issues exactly one `Finish`, with
/// the size measured before the transfer.
pub proof fn lemma_successful_upload(size: u64)
    ensures
        ({
            let (p, actions) = run(
                UploadPhase::Measuring,
                seq![
                    UploadEvent::Measured { size },
                    UploadEvent::Transferred,
                    UploadEvent::Resolved,
                    UploadEvent::Delivered,
                ],
            );
            &&& p == (UploadPhase::Completed { size })
            &&& progress_marks(actions) == seq![100u32, 800u32, 1000u32]
            &&& finishes(actions) == seq![size]
        }),
{
    let e1 = UploadEvent::Measured { size };
    let e2 = UploadEvent::Transferred;
    let e3 = UploadEvent::Resolved;
    let e4 = UploadEvent::Delivered;
    let empty = Seq::<UploadEvent>::empty();
    assert(seq![e1, e2, e3, e4] =~= seq![e1] + (seq![e2] + (seq![e3] + (seq![e4] + empty))));
    lemma_run_unfold(UploadPhase::Measuring, e1, seq![e2] + (seq![e3] + (seq![e4] + empty)));
    lemma_run_unfold(UploadPhase::Transferring { size }, e2, seq![e3] + (seq![e4] + empty));
    lemma_run_unfold(UploadPhase::Resolving { size }, e3, seq![e4] + empty);
    lemma_run_unfold(UploadPhase::Delivering { size }, e4, empty);
    let a1 = seq![UploadAction::Announce, UploadAction::Progress { permille: 100 }, UploadAction::Transfer];
    let a2 = seq![UploadAction::Progress { permille: 800 }, UploadAction::ResolveSelf];
    let a3 = seq![UploadAction::Deliver];
    let a4 = seq![UploadAction::Progress { permille: 1000 }, UploadAction::Finish { size }];
    let none = Seq::<UploadAction>::empty();
    lemma_marks_concat(a4, none);
    lemma_marks_concat(a3, a4 + none);
    lemma_marks_concat(a2, a3 + (a4 + none));
    lemma_marks_concat(a1, a2 + (a3 + (a4 + none)));
    reveal_with_fuel(progress_marks, 4);
    reveal_with_fuel(finishes, 4);
    assert(progress_marks(a1) =~= seq![100u32]);
    assert(progress_marks(a2) =~= seq![800u32]);
    assert(progress_marks(a3) =~= Seq::<u32>::empty());
    assert(progress_marks(a4) =~= seq![1000u32]);
    assert(finishes(a1) =~= Seq::<u64>::empty());
    assert(finishes(a2) =~= Seq::<u64>::empty());
    assert(finishes(a3) =~= Seq::<u64>::empty());
    assert(finishes(a4) =~= seq![size]);
    assert(progress_marks(a1) + (progress_marks(a2) + (progress_marks(a3) + (progress_marks(a4) + progress_marks(none)))) =~= seq![100u32, 800u32, 1000u32]);
    assert(finishes(a1) + (finishes(a2) + (finishes(a3) + (finishes(a4) + finishes(none)))) =~= seq![size]);
}

} // verus!
