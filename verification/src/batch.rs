//! The batch pipeline's observable behavior: progress percentages, the four
//! progress events, and the exact event schedule of a whole batch.

use vstd::prelude::*;
use vstd::string::StringExecFns;

use crate::error::ConvertError;

verus! {

/// The status tag a progress event carries.
#[derive(Debug, Clone, Copy, PartialEq, Eq, Structural)]
pub enum Status {
    Processing,
    Success,
    Error,
    Complete,
}

/// One progress notification: a status tag, a human-readable message, and
/// a percent complete.
#[derive(Debug, Clone, PartialEq, Eq)]
pub struct ProgressEvent {
    pub status: Status,
    pub message: String,
    pub progress: u32,
}

/// The ghost value of a progress event.
pub struct SpecEvent {
    pub status: Status,
    pub message: Seq<char>,
    pub progress: nat,
}

impl View for ProgressEvent {
    type V = SpecEvent;

    open spec fn view(&self) -> SpecEvent {
        SpecEvent {
            status: self.status,
            message: self.message@,
            progress: self.progress as nat,
        }
    }
}

/// The percent reported while file `i` of `total` is handled:
/// `(i + 1) / total`, as a percentage rounded half-up.
pub open spec fn spec_progress(i: nat, total: nat) -> nat
    recommends
        0 < total,
        i < total,
{
    (200 * (i + 1) + total) / (2 * total)
}

/// The percent reported while file `i` of `total` is handled.
pub fn progress_pct(i: usize, total: usize) -> (r: u32)
    requires
        0 < total,
        i < total,
    ensures
        r == spec_progress(i as nat, total as nat),
        r <= 100,
{
    let num: u128 = 200u128 * (i as u128 + 1) + (total as u128);
    let den: u128 = 2u128 * (total as u128);
    let q: u128 = num / den;
    proof {
        assert(q <= 100) by (nonlinear_arith)
            requires
                0 < total,
                i < total,
                num == 200 * (i as int + 1) + total,
                den == 2 * total,
                q == num as int / den as int,
        ;
    }
    q as u32
}

/// The message of a processing event.
pub open spec fn processing_message(name: Seq<char>) -> Seq<char> {
    "Converting "@ + name + "..."@
}

/// The message of a success event: the source name and the written path.
pub open spec fn success_message(name: Seq<char>, out_path: Seq<char>) -> Seq<char> {
    name + " -> "@ + out_path
}

/// The message of an error event: the source name and what went wrong.
pub open spec fn error_message(name: Seq<char>, err: Seq<char>) -> Seq<char> {
    name + " - "@ + err
}

/// The message of the one complete event.
pub open spec fn complete_message() -> Seq<char> {
    "All conversions finished."@
}

/// The event emitted before file `i` of `total` is converted.
pub fn processing_event(i: usize, total: usize, file_name: &str) -> (e: ProgressEvent)
    requires
        0 < total,
        i < total,
    ensures
        e@ == (SpecEvent {
            status: Status::Processing,
            message: processing_message(file_name@),
            progress: spec_progress(i as nat, total as nat),
        }),
{
    let message = String::from_str("Converting ").concat(file_name).concat("...");
    ProgressEvent { status: Status::Processing, message, progress: progress_pct(i, total) }
}

/// The event emitted when file `i` of `total` converted to `out_path`.
pub fn success_event(i: usize, total: usize, file_name: &str, out_path: &str) -> (e: ProgressEvent)
    requires
        0 < total,
        i < total,
    ensures
        e@ == (SpecEvent {
            status: Status::Success,
            message: success_message(file_name@, out_path@),
            progress: spec_progress(i as nat, total as nat),
        }),
{
    let message = file_name.to_owned().concat(" -> ").concat(out_path);
    ProgressEvent { status: Status::Success, message, progress: progress_pct(i, total) }
}

/// The event emitted when file `i` of `total` failed to convert.
pub fn error_event(i: usize, total: usize, file_name: &str, error: &ConvertError) -> (e:
    ProgressEvent)
    requires
        0 < total,
        i < total,
    ensures
        e@ == (SpecEvent {
            status: Status::Error,
            message: error_message(file_name@, error.spec_message()),
            progress: spec_progress(i as nat, total as nat),
        }),
{
    let message = file_name.to_owned().concat(" - ").concat(error.message().as_str());
    ProgressEvent { status: Status::Error, message, progress: progress_pct(i, total) }
}

/// The one event emitted after the last file, whatever failed before it.
pub fn complete_event() -> (e: ProgressEvent)
    ensures
        e@ == (SpecEvent {
            status: Status::Complete,
            message: complete_message(),
            progress: 100,
        }),
{
    let message = String::from_str("All conversions finished.");
    ProgressEvent { status: Status::Complete, message, progress: 100 }
}

/// The outcome event of one file: success with the written path, or error
/// with the failure message.
pub open spec fn spec_file_event(
    name: Seq<char>,
    outcome: Result<Seq<char>, Seq<char>>,
    progress: nat,
) -> SpecEvent {
    match outcome {
        Ok(path) => SpecEvent {
            status: Status::Success,
            message: success_message(name, path),
            progress,
        },
        Err(m) => SpecEvent { status: Status::Error, message: error_message(name, m), progress },
    }
}

/// The whole event schedule of a batch over files `names` whose per-file
/// outcomes are `outcomes`: for each file, in input order, one processing
/// event immediately followed by one outcome event at the same progress,
/// and after the last file exactly one complete event at 100.
pub open spec fn spec_batch_events(
    names: Seq<Seq<char>>,
    outcomes: Seq<Result<Seq<char>, Seq<char>>>,
) -> Seq<SpecEvent>
    recommends
        names.len() == outcomes.len(),
        0 < names.len(),
{
    Seq::new(
        2 * names.len() + 1,
        |j: int|
            if j == 2 * names.len() {
                SpecEvent { status: Status::Complete, message: complete_message(), progress: 100 }
            } else if j % 2 == 0 {
                SpecEvent {
                    status: Status::Processing,
                    message: processing_message(names[j / 2]),
                    progress: spec_progress((j / 2) as nat, names.len()),
                }
            } else {
                spec_file_event(
                    names[j / 2],
                    outcomes[j / 2],
                    spec_progress((j / 2) as nat, names.len()),
                )
            },
    )
}

/// The views of a list of file names.
pub open spec fn name_views(names: Seq<String>) -> Seq<Seq<char>> {
    names.map_values(|s: String| s@)
}

/// The views of a list of per-file outcomes: the written path on success,
/// the error's message on failure.
pub open spec fn outcome_views(outcomes: Seq<Result<String, ConvertError>>) -> Seq<
    Result<Seq<char>, Seq<char>>,
> {
    outcomes.map_values(
        |o: Result<String, ConvertError>|
            match o {
                Ok(p) => Result::<Seq<char>, Seq<char>>::Ok(p@),
                Err(e) => Result::<Seq<char>, Seq<char>>::Err(e.spec_message()),
            },
    )
}

/// A batch of `n` files emits exactly `2 * n + 1` events: per file, in
/// input order, a processing event then the file's outcome event at the
/// same progress, and one final complete event at 100.
pub proof fn lemma_batch_event_order(
    names: Seq<Seq<char>>,
    outcomes: Seq<Result<Seq<char>, Seq<char>>>,
)
    requires
        names.len() == outcomes.len(),
        0 < names.len(),
    ensures
        spec_batch_events(names, outcomes).len() == 2 * names.len() + 1,
        forall|i: int|
            0 <= i < names.len() ==> spec_batch_events(names, outcomes)[2 * i] == (SpecEvent {
                status: Status::Processing,
                message: processing_message(#[trigger] names[i]),
                progress: spec_progress(i as nat, names.len()),
            }),
        forall|i: int|
            0 <= i < names.len() ==> spec_batch_events(names, outcomes)[2 * i + 1]
                == spec_file_event(
                #[trigger] names[i],
                outcomes[i],
                spec_progress(i as nat, names.len()),
            ),
        spec_batch_events(names, outcomes)[2 * names.len() as int] == (SpecEvent {
            status: Status::Complete,
            message: complete_message(),
            progress: 100,
        }),
{
    assert forall|i: int| 0 <= i < names.len() implies spec_batch_events(names, outcomes)[2 * i]
        == (SpecEvent {
        status: Status::Processing,
        message: processing_message(#[trigger] names[i]),
        progress: spec_progress(i as nat, names.len()),
    }) && spec_batch_events(names, outcomes)[2 * i + 1] == spec_file_event(
        names[i],
        outcomes[i],
        spec_progress(i as nat, names.len()),
    ) by {
        assert((2 * i) % 2 == 0 && (2 * i) / 2 == i);
        assert((2 * i + 1) % 2 == 1 && (2 * i + 1) / 2 == i);
    }
}

/// The events a batch emits, in order, computed from the per-file
/// outcomes; `lemma_batch_event_order` describes their exact shape.
pub fn batch_event_list(names: &Vec<String>, outcomes: &Vec<Result<String, ConvertError>>) -> (evs:
    Vec<ProgressEvent>)
    requires
        names@.len() == outcomes@.len(),
        0 < names@.len(),
    ensures
        evs@.len() == 2 * names@.len() + 1,
        forall|j: int|
            0 <= j < evs@.len() ==> #[trigger] evs@[j]@ == spec_batch_events(
                name_views(names@),
                outcome_views(outcomes@),
            )[j],
{
    let ghost spec_evs = spec_batch_events(name_views(names@), outcome_views(outcomes@));
    let total = names.len();
    let mut evs: Vec<ProgressEvent> = Vec::new();
    let mut i: usize = 0;
    while i < total
        invariant
            total == names@.len(),
            names@.len() == outcomes@.len(),
            0 < total,
            i <= total,
            evs@.len() == 2 * i,
            spec_evs == spec_batch_events(name_views(names@), outcome_views(outcomes@)),
            forall|j: int| 0 <= j < evs@.len() ==> #[trigger] evs@[j]@ == spec_evs[j],
        decreases total - i,
    {
        let name: &String = &names[i];
        evs.push(processing_event(i, total, name.as_str()));
        let outcome: &Result<String, ConvertError> = &outcomes[i];
        match outcome {
            Ok(path) => {
                evs.push(success_event(i, total, name.as_str(), path.as_str()));
            },
            Err(e) => {
                evs.push(error_event(i, total, name.as_str(), e));
            },
        }
        proof {
            let q = i as int;
            assert((2 * q) % 2 == 0 && (2 * q) / 2 == q);
            assert((2 * q + 1) % 2 == 1 && (2 * q + 1) / 2 == q);
            assert(name_views(names@)[q] == names@[q]@);
            assert(outcome_views(outcomes@)[q] == (match outcomes@[q] {
                Ok(p) => Result::<Seq<char>, Seq<char>>::Ok(p@),
                Err(e) => Result::<Seq<char>, Seq<char>>::Err(e.spec_message()),
            }));
            assert(evs@[2 * q]@ == spec_evs[2 * q]);
            assert(evs@[2 * q + 1]@ == spec_evs[2 * q + 1]);
        }
        i += 1;
    }
    evs.push(complete_event());
    proof {
        assert(evs@[2 * total as int]@ == spec_evs[2 * total as int]);
    }
    evs
}

} // verus!
