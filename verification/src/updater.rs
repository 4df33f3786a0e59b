//! The update orchestrator: one session that drives a single device from
//! its current mode into the UF2 bootloader, selects its firmware, and
//! writes it out, emitting an ordered stream of progress events with
//! exactly one terminal event per run.
//!
//! The orchestrator is a state machine.  Each [`FreeWiliUpdater::step`]
//! consumes the outcome of the previously ordered action and returns the
//! messages to forward to the front end together with the next action the
//! caller must perform (enumerate, sleep, toggle a serial port, create a
//! file, write a chunk).  Elapsed time is modeled as the sum of the sleeps
//! the orchestrator ordered.

use vstd::prelude::*;
use vstd::string::StringExecFns;
use crate::bootloader::{entry_status, serial_toggle_verdict, toggle_plan, EntryStatus, TogglePlan,
    ToggleVerdict};
use crate::catalog::{resolve_kind, spec_resolve_kind, Catalog, Uf2File, Uf2FileModel};
use crate::locator::{snapshot_has_target, LocateStep, Locator};
use crate::types::{lemma_terminal_count_append, lemma_terminal_count_push,
    lemma_terminal_only_last, terminal_count, DeviceInfo, DeviceType, Error, UpdateMessage,
    UsbEndpointModel};
use crate::writer::{chunk_progress, flash_jobs, lemma_chunk_step, lemma_num_chunks_covers,
    num_chunks, spec_chunk_span, spec_num_chunks, spec_progress, FlashChannel, FlashJob,
    FlashJobModel};

verus! {

/// The retry policy and platform parameters of one update session.  Tests
/// substitute small intervals and ceilings; production use takes the
/// standard policy of [`standard_config`].
#[derive(Clone, Copy, Debug, PartialEq, Eq, Structural)]
pub struct UpdateConfig {
    pub locate_interval_ms: u64,
    pub locate_ceiling: u32,
    pub poll_interval_ms: u64,
    pub poll_ceiling: u32,
    pub settle_ms: u64,
    pub chunk_size: usize,
    pub windows_host: bool,
}

/// A usable configuration has at least one attempt in each polling budget
/// and a nonempty chunk.
pub open spec fn config_wf(c: UpdateConfig) -> bool {
    c.locate_ceiling >= 1 && c.poll_ceiling >= 1 && c.chunk_size >= 1
}

/// The standard policy: the fixed intervals, ceilings and settle delay of
/// the update protocol, with the platform-dependent chunk size supplied by
/// the caller.
pub fn standard_config(windows_host: bool, chunk_size: usize) -> (c: UpdateConfig)
    requires
        chunk_size >= 1,
    ensures
        config_wf(c),
        c.locate_interval_ms == crate::LOCATE_INTERVAL_MS,
        c.locate_ceiling == crate::LOCATE_ATTEMPT_CEILING,
        c.poll_interval_ms == crate::ENTRY_POLL_INTERVAL_MS,
        c.poll_ceiling == crate::ENTRY_POLL_CEILING,
        c.settle_ms == crate::SETTLE_DELAY_MS,
        c.chunk_size == chunk_size,
        c.windows_host == windows_host,
{
    UpdateConfig {
        locate_interval_ms: crate::LOCATE_INTERVAL_MS,
        locate_ceiling: crate::LOCATE_ATTEMPT_CEILING,
        poll_interval_ms: crate::ENTRY_POLL_INTERVAL_MS,
        poll_ceiling: crate::ENTRY_POLL_CEILING,
        settle_ms: crate::SETTLE_DELAY_MS,
        chunk_size,
        windows_host,
    }
}

/// What happened when the caller opened and closed a serial port at the
/// signalling baud rate.
#[derive(Debug)]
pub enum ToggleOutcome {
    /// The port opened; the line-state toggle was delivered.
    Opened,
    /// The open failed; the error's shape decides whether this was the
    /// expected mid-reset disappearance or a genuine fault.
    OpenFailed { broken_pipe: bool, raw_os_error: Option<i32> },
}

/// The outcome of the last ordered action, handed back to the
/// orchestrator.  Strings carry the operating system's error text.
#[derive(Debug)]
pub enum Event {
    /// Begin the update.
    Start,
    /// The result of an enumeration: the device list, or `None` when the
    /// enumeration call itself failed.
    Snapshot(Option<Vec<DeviceInfo>>),
    /// The ordered sleep finished.
    Slept,
    /// The result of the serial toggle.
    Toggled(ToggleOutcome),
    /// The result of creating the firmware file: `None` on success.
    FileCreated(Option<String>),
    /// The result of writing and syncing one chunk: `None` on success.
    ChunkWritten(Option<String>),
}

/// The next action the caller must perform for the orchestrator.
#[derive(Debug)]
pub enum Action {
    /// Query the enumeration collaborator for the current device list.
    Enumerate,
    /// Sleep for the given milliseconds.
    Sleep(u64),
    /// Open the named serial port at the signalling baud rate and close it
    /// again; no data is transferred.
    ToggleSerial(String),
    /// Create the firmware file at the volume's mount path and keep the
    /// payload for the chunk writes that follow.
    CreateFile { path: String, payload: Vec<u8> },
    /// Write `payload[start..end]` to the file and sync it to stable
    /// storage.
    WriteChunk { start: usize, end: usize },
    /// The update is over; exactly one terminal message was emitted.
    Finished,
}

/// Where one update session stands.
pub enum Phase {
    /// Not started.
    Idle,
    /// Locating the device before the bootloader toggle.
    EntryLocate { loc: Locator },
    /// Sleeping between two locate attempts of the entry stage.
    EntryLocateWait { loc: Locator },
    /// Toggling the serial ports, one at a time.
    Toggle { kind: DeviceType, ports: Vec<String>, next: usize },
    /// Re-locating the device within one confirmation poll cycle.
    PollLocate { kind: DeviceType, polls: u32, loc: Locator },
    /// Sleeping between two locate attempts within a poll cycle.
    PollLocateWait { kind: DeviceType, polls: u32, loc: Locator },
    /// Sleeping between two confirmation poll cycles.
    PollWait { kind: DeviceType, polls: u32 },
    /// Waiting out the settle delay after confirmed bootloader entry.
    Settle,
    /// Locating the re-enumerated device before flashing.
    FlashLocate { loc: Locator },
    /// Sleeping between two locate attempts of the flash stage.
    FlashLocateWait { loc: Locator },
    /// Waiting for the firmware file of the current job to be created.
    Creating { stack: Vec<FlashJob>, len: usize, chunks: usize },
    /// Writing the current job's chunks.
    Writing { stack: Vec<FlashJob>, len: usize, chunks: usize, chunk: usize, start: usize },
    /// The update succeeded; the terminal `Complete` was emitted.
    Complete,
    /// The update failed; the terminal `Error` was emitted.
    Failed,
}

/// `a + b`, saturating at the largest representable value.
pub open spec fn sat_add(a: u64, b: u64) -> u64 {
    if a + b <= u64::MAX {
        (a + b) as u64
    } else {
        u64::MAX
    }
}

/// Adds two millisecond counts without overflow: the modeled clock
/// saturates instead of wrapping.
pub fn saturating_add_ms(a: u64, b: u64) -> (r: u64)
    ensures
        r == sat_add(a, b),
        r >= a,
        r >= b,
{
    if a <= u64::MAX - b {
        a + b
    } else {
        u64::MAX
    }
}

/// Appends one message to the outgoing batch.
pub fn update_message(msgs: &mut Vec<UpdateMessage>, m: UpdateMessage)
    ensures
        final(msgs)@ == old(msgs)@.push(m),
        terminal_count(final(msgs)@) == terminal_count(old(msgs)@) + if m.is_terminal() {
            1int
        } else {
            0int
        },
{
    proof {
        lemma_terminal_count_push(msgs@, m);
    }
    msgs.push(m);
}

/// A locator with a fresh budget for this session's device.
pub open spec fn fresh_locator(pre: FreeWiliUpdater) -> Locator {
    Locator {
        target: pre.unique_id,
        interval_ms: pre.config.locate_interval_ms,
        ceiling: pre.config.locate_ceiling,
        attempts: 0,
    }
}

/// The same locator with one more attempt spent.
pub open spec fn spent_locator(loc: Locator) -> Locator {
    Locator { target: loc.target, interval_ms: loc.interval_ms, ceiling: loc.ceiling, attempts: (loc.attempts + 1) as u32 }
}

/// The step ended the run in failure: after the `prior` messages the same
/// step emitted first, the one terminal `Error` with the given message
/// text stands last; the modeled clock and the session's core are
/// untouched.
pub open spec fn fails_with(
    pre: FreeWiliUpdater,
    post: FreeWiliUpdater,
    msgs: Seq<UpdateMessage>,
    prior: Seq<UpdateMessage>,
    act: Action,
    text: Seq<char>,
) -> bool {
    &&& post.same_session(&pre)
    &&& post.elapsed_ms == pre.elapsed_ms
    &&& post.phase is Failed
    &&& msgs.len() == prior.len() + 1
    &&& msgs.take(prior.len() as int) == prior
    &&& (msgs.last() matches UpdateMessage::Error(m) && m@ == text)
    &&& act is Finished
}

/// The step ended the run in success: the one terminal `Complete` with the
/// modeled total duration stands last.
pub open spec fn completes(
    pre: FreeWiliUpdater,
    post: FreeWiliUpdater,
    msgs: Seq<UpdateMessage>,
    prior: Seq<UpdateMessage>,
    act: Action,
) -> bool {
    &&& post.same_session(&pre)
    &&& post.elapsed_ms == pre.elapsed_ms
    &&& post.phase is Complete
    &&& msgs.len() == prior.len() + 1
    &&& msgs.take(prior.len() as int) == prior
    &&& (msgs.last() matches UpdateMessage::Complete(d) && d == pre.elapsed_ms)
    &&& act is Finished
}

/// Entry is confirmed: the settle wait is announced and ordered, and
/// counted into the modeled clock.
pub open spec fn settles(
    pre: FreeWiliUpdater,
    post: FreeWiliUpdater,
    msgs: Seq<UpdateMessage>,
    prior: Seq<UpdateMessage>,
    act: Action,
) -> bool {
    &&& post.same_session(&pre)
    &&& post.elapsed_ms == sat_add(pre.elapsed_ms, pre.config.settle_ms)
    &&& post.phase is Settle
    &&& msgs.len() == prior.len() + 1
    &&& msgs.take(prior.len() as int) == prior
    &&& (msgs.last() matches UpdateMessage::ProgressDetail(s) && s@
        == "Device entered UF2 mode, waiting for device to settle..."@)
    &&& (act matches Action::Sleep(d) && d == pre.config.settle_ms)
}

/// The confirmation poll stage begins for this kind: the wait is announced
/// and the first cycle's enumeration ordered, under a fresh locate budget.
pub open spec fn polls_started(
    pre: FreeWiliUpdater,
    post: FreeWiliUpdater,
    msgs: Seq<UpdateMessage>,
    prior: Seq<UpdateMessage>,
    act: Action,
    kind: DeviceType,
) -> bool {
    &&& post.same_session(&pre)
    &&& post.elapsed_ms == pre.elapsed_ms
    &&& (post.phase matches Phase::PollLocate { kind: k, polls, loc } && k == kind && polls == 0
        && loc == fresh_locator(pre))
    &&& msgs.len() == prior.len() + 1
    &&& msgs.take(prior.len() as int) == prior
    &&& (msgs.last() matches UpdateMessage::ProgressDetail(s) && s@
        == "Waiting for device to enter UF2 mode..."@)
    &&& act is Enumerate
}

/// One confirmation cycle ended without entry: the next cycle's sleep is
/// ordered while the budget lasts, and the critical timeout ends the run
/// once it is spent.
pub open spec fn poll_advances(
    pre: FreeWiliUpdater,
    post: FreeWiliUpdater,
    msgs: Seq<UpdateMessage>,
    prior: Seq<UpdateMessage>,
    act: Action,
    kind: DeviceType,
    polls: u32,
) -> bool {
    if polls + 1 >= pre.config.poll_ceiling {
        fails_with(pre, post, msgs, prior, act, "Critical Error: "@
            + "Timeout waiting for device to enter UF2 mode"@)
    } else {
        &&& post.same_session(&pre)
        &&& post.elapsed_ms == sat_add(pre.elapsed_ms, pre.config.poll_interval_ms)
        &&& (post.phase matches Phase::PollWait { kind: k, polls: p } && k == kind && p == polls
            + 1)
        &&& msgs == prior
        &&& (act matches Action::Sleep(d) && d == pre.config.poll_interval_ms)
    }
}

/// The model of a job stack: each job by its view, in stack order.
pub open spec fn stack_model(stack: Vec<FlashJob>) -> Seq<FlashJobModel> {
    stack@.map_values(|j: FlashJob| j@)
}

/// The next job of the stack begins: an empty stack ends the run in
/// success; a job without a mount path is the typed flash error; otherwise
/// the job's file creation is ordered and its chunk bookkeeping opens.
pub open spec fn job_starts(
    pre: FreeWiliUpdater,
    post: FreeWiliUpdater,
    msgs: Seq<UpdateMessage>,
    prior: Seq<UpdateMessage>,
    act: Action,
    stack: Seq<FlashJobModel>,
) -> bool {
    if stack.len() == 0 {
        completes(pre, post, msgs, prior, act)
    } else {
        let job = stack.last();
        match job.path {
            None => fails_with(pre, post, msgs, prior, act, "Flash Error: "@ + (
                if job.channel is Display {
                    "Display device path not found"@
                } else {
                    "Main device path not found"@
                }
            )),
            Some(p) => {
                &&& post.same_session(&pre)
                &&& post.elapsed_ms == pre.elapsed_ms
                &&& (post.phase matches Phase::Creating { stack: s2, len, chunks }
                    && stack_model(s2) == stack.drop_last()
                    && len == job.payload.len()
                    && chunks == spec_num_chunks(len as int, pre.config.chunk_size as int))
                &&& msgs == prior
                &&& (act matches Action::CreateFile { path, payload } && path@ == p && payload@
                    == job.payload)
            },
        }
    }
}

/// The mount path one endpoint observation contributes.
pub open spec fn endpoint_path(ep: Option<UsbEndpointModel>) -> Option<Seq<char>> {
    match ep {
        Some(e) => e.path,
        None => None,
    }
}

/// The write jobs for a payload, as the flashing stage stacks them: the
/// job written first stands last, so a dual-channel payload's display
/// (secondary) image goes before its main (primary) image.
pub open spec fn spec_flash_stack(
    file: Uf2FileModel,
    main_path: Option<Seq<char>>,
    display_path: Option<Seq<char>>,
) -> Seq<FlashJobModel> {
    match file {
        Uf2FileModel::FreeWili(main_fw, display_fw) => seq![
            FlashJobModel { channel: FlashChannel::Main, path: main_path, payload: main_fw },
            FlashJobModel {
                channel: FlashChannel::Display,
                path: display_path,
                payload: display_fw,
            },
        ],
        Uf2FileModel::Standalone(fw) => seq![
            FlashJobModel { channel: FlashChannel::Main, path: main_path, payload: fw },
        ],
    }
}

/// What the step does once the entry stage's locate finds the device: the
/// unknown kind is refused, the bootloader kind goes straight to the
/// settle wait, a missing required channel is critical, and otherwise the
/// serial toggle (or, with nothing to toggle, the confirmation poll)
/// begins.
pub open spec fn entry_found(
    pre: FreeWiliUpdater,
    device: DeviceInfo,
    post: FreeWiliUpdater,
    msgs: Seq<UpdateMessage>,
    act: Action,
) -> bool {
    let kind = device.device_type;
    if kind is Unknown {
        fails_with(pre, post, msgs, Seq::empty(), act, "Critical Error: "@
            + "Device does not support UF2 mode"@)
    } else if kind is Uf2 {
        settles(pre, post, msgs, Seq::empty(), act)
    } else if device.main is None || (kind is Freewili && device.display is None) {
        fails_with(pre, post, msgs, Seq::empty(), act, "Critical Error: "@
            + "Device endpoint not available"@)
    } else {
        let ports = crate::bootloader::spec_toggle_ports(kind, device@.main, device@.display);
        if ports.len() == 0 {
            polls_started(pre, post, msgs, Seq::empty(), act, kind)
        } else {
            &&& post.same_session(&pre)
            &&& post.elapsed_ms == pre.elapsed_ms
            &&& (post.phase matches Phase::Toggle { kind: k, ports: pv, next } && k == kind
                && pv@.map_values(|p: String| p@) == ports && next == 0)
            &&& msgs.len() == 0
            &&& (act matches Action::ToggleSerial(p) && p@ == ports[0])
        }
    }
}

/// The toggle stage moves past one port: the next port's toggle is
/// ordered, or, with no port left, the confirmation poll begins.
pub open spec fn toggle_advances(
    pre: FreeWiliUpdater,
    kind: DeviceType,
    ports: Vec<String>,
    next: usize,
    post: FreeWiliUpdater,
    msgs: Seq<UpdateMessage>,
    prior: Seq<UpdateMessage>,
    act: Action,
) -> bool {
    if next + 1 < ports@.len() {
        &&& post.same_session(&pre)
        &&& post.elapsed_ms == pre.elapsed_ms
        &&& (post.phase matches Phase::Toggle { kind: k, ports: pv, next: n } && k == kind && pv
            == ports && n == next + 1)
        &&& msgs == prior
        &&& (act matches Action::ToggleSerial(p) && p@ == ports@[next + 1]@)
    } else {
        polls_started(pre, post, msgs, prior, act, kind)
    }
}

/// What the step does once a confirmation cycle's locate finds the device:
/// confirmed entry announces itself and orders the settle sleep; missing
/// mount paths announce the wait; either way short of `Ready`, the cycle
/// is spent.
pub open spec fn poll_found(
    pre: FreeWiliUpdater,
    kind: DeviceType,
    polls: u32,
    device: DeviceInfo,
    post: FreeWiliUpdater,
    msgs: Seq<UpdateMessage>,
    act: Action,
) -> bool {
    match crate::bootloader::spec_entry_status(kind, device@.main, device@.display) {
        EntryStatus::Ready => {
            &&& msgs.len() >= 1
            &&& (msgs[0] matches UpdateMessage::ProgressDetail(s) && s@
                == "Device entered UF2 mode"@)
            &&& settles(pre, post, msgs, msgs.take(1), act)
        },
        EntryStatus::NotSettled => {
            &&& msgs.len() >= 1
            &&& (msgs[0] matches UpdateMessage::ProgressDetail(s) && s@
                == "Device entered UF2 mode but paths are missing. Is it mounted?"@)
            &&& poll_advances(pre, post, msgs, msgs.take(1), act, kind, polls)
        },
        EntryStatus::NotReady => poll_advances(pre, post, msgs, Seq::empty(), act, kind, polls),
    }
}

/// What the step does once the flash stage's locate finds the device: a
/// kind without a catalog entry still emits the saturating 100% marker and
/// then the firmware-unavailable terminal naming the kind; otherwise the
/// stacked write jobs begin, the display (secondary) image first.
pub open spec fn flash_found(
    pre: FreeWiliUpdater,
    device: DeviceInfo,
    post: FreeWiliUpdater,
    msgs: Seq<UpdateMessage>,
    act: Action,
) -> bool {
    match crate::catalog::spec_payload_for(pre.catalog, pre.original_device_type) {
        None => {
            &&& msgs.len() >= 1
            &&& msgs[0] == UpdateMessage::Progress(100i16)
            &&& fails_with(pre, post, msgs, msgs.take(1), act, "UF2 Error: "@ + (
                "No firmware data available for device type: "@
                    + pre.original_device_type.spec_name()
            ))
        },
        Some(file) => {
            let stack = spec_flash_stack(
                file,
                endpoint_path(device@.main),
                endpoint_path(device@.display),
            );
            if file is FreeWili {
                &&& msgs.len() >= 1
                &&& (msgs[0] matches UpdateMessage::ProgressDetail(s) && s@
                    == "Flashing FreeWili UF2 files..."@)
                &&& job_starts(pre, post, msgs, msgs.take(1), act, stack)
            } else {
                job_starts(pre, post, msgs, Seq::empty(), act, stack)
            }
        },
    }
}

/// The orchestrator's transition relation: given the session before a step
/// and the event it was waiting for, this pins the session after the step,
/// the whole message batch it emits (in order), and the action it orders.
pub open spec fn spec_step_post(
    pre: FreeWiliUpdater,
    ev: Event,
    post: FreeWiliUpdater,
    msgs: Seq<UpdateMessage>,
    act: Action,
) -> bool {
    match pre.phase {
        Phase::Idle => {
            &&& post.same_session(&pre)
            &&& post.elapsed_ms == pre.elapsed_ms
            &&& (post.phase matches Phase::EntryLocate { loc } && loc == fresh_locator(pre))
            &&& msgs.len() == 2
            &&& msgs[0] == UpdateMessage::Progress(-1i16)
            &&& (msgs[1] matches UpdateMessage::ProgressDetail(s) && s@
                == "Entering UF2 mode..."@)
            &&& act is Enumerate
        },
        Phase::EntryLocate { loc } => ev matches Event::Snapshot(snap) && {
            if snapshot_has_target(snap, loc.target) {
                let devs = snap.unwrap()@;
                entry_found(
                    pre,
                    devs[crate::locator::spec_find_index(devs, loc.target).unwrap()],
                    post,
                    msgs,
                    act,
                )
            } else if loc.attempts + 1 < loc.ceiling {
                &&& post.same_session(&pre)
                &&& post.elapsed_ms == sat_add(pre.elapsed_ms, loc.interval_ms)
                &&& (post.phase matches Phase::EntryLocateWait { loc: l } && l
                    == spent_locator(loc))
                &&& msgs.len() == 0
                &&& (act matches Action::Sleep(d) && d == loc.interval_ms)
            } else {
                fails_with(pre, post, msgs, Seq::empty(), act, "Critical Error: "@
                    + "Failed to find FreeWiliDevice"@)
            }
        },
        Phase::EntryLocateWait { loc } => {
            &&& post.same_session(&pre)
            &&& post.elapsed_ms == pre.elapsed_ms
            &&& (post.phase matches Phase::EntryLocate { loc: l } && l == loc)
            &&& msgs.len() == 0
            &&& act is Enumerate
        },
        Phase::Toggle { kind, ports, next } => ev matches Event::Toggled(outcome) && {
            match outcome {
                ToggleOutcome::Opened => {
                    &&& msgs.len() >= 1
                    &&& (msgs[0] matches UpdateMessage::ProgressDetail(s) && s@
                        == "Port opened: "@ + ports@[next as int]@)
                    &&& toggle_advances(pre, kind, ports, next, post, msgs, msgs.take(1), act)
                },
                ToggleOutcome::OpenFailed { broken_pipe, raw_os_error } => {
                    match crate::bootloader::spec_serial_toggle_verdict(
                        broken_pipe,
                        raw_os_error,
                        pre.config.windows_host,
                    ) {
                        ToggleVerdict::Proceed => toggle_advances(
                            pre,
                            kind,
                            ports,
                            next,
                            post,
                            msgs,
                            Seq::empty(),
                            act,
                        ),
                        ToggleVerdict::ProceedTransitioning => {
                            &&& msgs.len() >= 1
                            &&& (msgs[0] matches UpdateMessage::ProgressDetail(s) && s@
                                == "Device may be transitioning to UF2 mode"@)
                            &&& toggle_advances(
                                pre,
                                kind,
                                ports,
                                next,
                                post,
                                msgs,
                                msgs.take(1),
                                act,
                            )
                        },
                        ToggleVerdict::Fail => fails_with(pre, post, msgs, Seq::empty(), act,
                            "Critical Error: "@ + ("Failed to open port to force UF2 mode: "@
                                + ports@[next as int]@)),
                    }
                },
            }
        },
        Phase::PollLocate { kind, polls, loc } => ev matches Event::Snapshot(snap) && {
            if snapshot_has_target(snap, loc.target) {
                let devs = snap.unwrap()@;
                poll_found(
                    pre,
                    kind,
                    polls,
                    devs[crate::locator::spec_find_index(devs, loc.target).unwrap()],
                    post,
                    msgs,
                    act,
                )
            } else if loc.attempts + 1 < loc.ceiling {
                &&& post.same_session(&pre)
                &&& post.elapsed_ms == sat_add(pre.elapsed_ms, loc.interval_ms)
                &&& (post.phase matches Phase::PollLocateWait { kind: k, polls: p, loc: l } && k
                    == kind && p == polls && l == spent_locator(loc))
                &&& msgs.len() == 0
                &&& (act matches Action::Sleep(d) && d == loc.interval_ms)
            } else {
                fails_with(pre, post, msgs, Seq::empty(), act, "Critical Error: "@
                    + "Failed to find FreeWiliDevice"@)
            }
        },
        Phase::PollLocateWait { kind, polls, loc } => {
            &&& post.same_session(&pre)
            &&& post.elapsed_ms == pre.elapsed_ms
            &&& (post.phase matches Phase::PollLocate { kind: k, polls: p, loc: l } && k == kind
                && p == polls && l == loc)
            &&& msgs.len() == 0
            &&& act is Enumerate
        },
        Phase::PollWait { kind, polls } => {
            &&& post.same_session(&pre)
            &&& post.elapsed_ms == pre.elapsed_ms
            &&& (post.phase matches Phase::PollLocate { kind: k, polls: p, loc } && k == kind
                && p == polls && loc == fresh_locator(pre))
            &&& msgs.len() == 0
            &&& act is Enumerate
        },
        Phase::Settle => {
            &&& post.same_session(&pre)
            &&& post.elapsed_ms == pre.elapsed_ms
            &&& (post.phase matches Phase::FlashLocate { loc } && loc == fresh_locator(pre))
            &&& msgs.len() == 1
            &&& (msgs[0] matches UpdateMessage::ProgressDetail(s) && s@ == "Flashing UF2..."@)
            &&& act is Enumerate
        },
        Phase::FlashLocate { loc } => ev matches Event::Snapshot(snap) && {
            if snapshot_has_target(snap, loc.target) {
                let devs = snap.unwrap()@;
                flash_found(
                    pre,
                    devs[crate::locator::spec_find_index(devs, loc.target).unwrap()],
                    post,
                    msgs,
                    act,
                )
            } else if loc.attempts + 1 < loc.ceiling {
                &&& post.same_session(&pre)
                &&& post.elapsed_ms == sat_add(pre.elapsed_ms, loc.interval_ms)
                &&& (post.phase matches Phase::FlashLocateWait { loc: l } && l
                    == spent_locator(loc))
                &&& msgs.len() == 0
                &&& (act matches Action::Sleep(d) && d == loc.interval_ms)
            } else {
                fails_with(pre, post, msgs, Seq::empty(), act, "Critical Error: "@
                    + "Failed to find FreeWiliDevice"@)
            }
        },
        Phase::FlashLocateWait { loc } => {
            &&& post.same_session(&pre)
            &&& post.elapsed_ms == pre.elapsed_ms
            &&& (post.phase matches Phase::FlashLocate { loc: l } && l == loc)
            &&& msgs.len() == 0
            &&& act is Enumerate
        },
        Phase::Creating { stack, len, chunks } => ev matches Event::FileCreated(outcome) && {
            match outcome {
                Some(detail) => fails_with(pre, post, msgs, Seq::empty(), act, "Flash Error: "@
                    + ("Failed to create UF2 file: "@ + detail@)),
                None => {
                    if chunks == 0 {
                        &&& msgs.len() >= 1
                        &&& msgs[0] == UpdateMessage::Progress(100i16)
                        &&& job_starts(pre, post, msgs, msgs.take(1), act, stack_model(stack))
                    } else {
                        &&& post.same_session(&pre)
                        &&& post.elapsed_ms == pre.elapsed_ms
                        &&& (post.phase matches Phase::Writing {
                            stack: s2,
                            len: l2,
                            chunks: c2,
                            chunk,
                            start,
                        } && s2 == stack && l2 == len && c2 == chunks && chunk == 0 && start
                            == 0)
                        &&& msgs.len() == 1
                        &&& (msgs[0] matches UpdateMessage::Progress(pct) && pct
                            == spec_progress(0, chunks as int))
                        &&& (act matches Action::WriteChunk { start: ws, end: we } && ws == 0
                            && we == spec_chunk_span(
                            len as int,
                            pre.config.chunk_size as int,
                            0,
                        ).1)
                    }
                },
            }
        },
        Phase::Writing { stack, len, chunks, chunk, start } => ev matches Event::ChunkWritten(
            outcome,
        ) && {
            match outcome {
                Some(detail) => fails_with(pre, post, msgs, Seq::empty(), act, "Flash Error: "@
                    + ("Failed to write UF2 file chunk: "@ + detail@)),
                None => {
                    let end = spec_chunk_span(
                        len as int,
                        pre.config.chunk_size as int,
                        chunk as int,
                    ).1;
                    if chunk + 1 < chunks {
                        &&& post.same_session(&pre)
                        &&& post.elapsed_ms == pre.elapsed_ms
                        &&& (post.phase matches Phase::Writing {
                            stack: s2,
                            len: l2,
                            chunks: c2,
                            chunk: ck,
                            start: st,
                        } && s2 == stack && l2 == len && c2 == chunks && ck == chunk + 1 && st
                            == end)
                        &&& msgs.len() == 1
                        &&& (msgs[0] matches UpdateMessage::Progress(pct) && pct
                            == spec_progress(chunk + 1, chunks as int))
                        &&& (act matches Action::WriteChunk { start: ws, end: we } && ws == end
                            && we == spec_chunk_span(
                            len as int,
                            pre.config.chunk_size as int,
                            chunk + 1,
                        ).1)
                    } else {
                        &&& msgs.len() >= 1
                        &&& msgs[0] == UpdateMessage::Progress(100i16)
                        &&& job_starts(pre, post, msgs, msgs.take(1), act, stack_model(stack))
                    }
                },
            }
        },
        Phase::Complete => false,
        Phase::Failed => false,
    }
}

/// One update session: the captured identity of the target device, the
/// kind under which its firmware is selected, the firmware catalog, the
/// session's policy, the modeled elapsed time, and the machine's phase.
pub struct FreeWiliUpdater {
    pub unique_id: u64,
    pub original_device_type: DeviceType,
    pub catalog: Catalog,
    pub config: UpdateConfig,
    pub elapsed_ms: u64,
    pub phase: Phase,
}

impl FreeWiliUpdater {
    /// A locator owned by this session's phases polls for this session's
    /// device under this session's policy, with budget left.
    pub open spec fn loc_ok(&self, loc: Locator) -> bool {
        &&& loc.attempts < loc.ceiling
        &&& loc.target == self.unique_id
        &&& loc.ceiling == self.config.locate_ceiling
        &&& loc.interval_ms == self.config.locate_interval_ms
    }

    /// The session invariant: the policy is usable, every embedded locator
    /// is mid-budget, chunk bookkeeping matches the chunk formula, and
    /// every phase at or past the settle delay carries it in the modeled
    /// clock.
    pub open spec fn wf(&self) -> bool {
        &&& config_wf(self.config)
        &&& match self.phase {
            Phase::Idle => true,
            Phase::EntryLocate { loc } => self.loc_ok(loc),
            Phase::EntryLocateWait { loc } => self.loc_ok(loc),
            Phase::Toggle { ports, next, .. } => next < ports.len(),
            Phase::PollLocate { polls, loc, .. } => polls < self.config.poll_ceiling
                && self.loc_ok(loc),
            Phase::PollLocateWait { polls, loc, .. } => polls < self.config.poll_ceiling
                && self.loc_ok(loc),
            Phase::PollWait { polls, .. } => polls < self.config.poll_ceiling,
            Phase::Settle => self.elapsed_ms >= self.config.settle_ms,
            Phase::FlashLocate { loc } => self.loc_ok(loc) && self.elapsed_ms
                >= self.config.settle_ms,
            Phase::FlashLocateWait { loc } => self.loc_ok(loc) && self.elapsed_ms
                >= self.config.settle_ms,
            Phase::Creating { len, chunks, .. } => chunks == spec_num_chunks(
                len as int,
                self.config.chunk_size as int,
            ) && self.elapsed_ms >= self.config.settle_ms,
            Phase::Writing { len, chunks, chunk, start, .. } => {
                &&& chunks == spec_num_chunks(len as int, self.config.chunk_size as int)
                &&& chunk < chunks
                &&& start == chunk * self.config.chunk_size
                &&& start < len
                &&& self.elapsed_ms >= self.config.settle_ms
            },
            Phase::Complete => self.elapsed_ms >= self.config.settle_ms,
            Phase::Failed => true,
        }
    }

    /// Whether the session has emitted its terminal event.
    pub open spec fn finished(&self) -> bool {
        self.phase is Complete || self.phase is Failed
    }

    /// The session's identity, policy and catalog never change after
    /// construction.
    pub open spec fn same_session(&self, other: &FreeWiliUpdater) -> bool {
        &&& self.unique_id == other.unique_id
        &&& self.original_device_type == other.original_device_type
        &&& self.config == other.config
        &&& self.catalog == other.catalog
    }

    /// Which event the session is waiting for.
    pub open spec fn expects(&self, event: Event) -> bool {
        match self.phase {
            Phase::Idle => event is Start,
            Phase::EntryLocate { .. } => event is Snapshot,
            Phase::EntryLocateWait { .. } => event is Slept,
            Phase::Toggle { .. } => event is Toggled,
            Phase::PollLocate { .. } => event is Snapshot,
            Phase::PollLocateWait { .. } => event is Slept,
            Phase::PollWait { .. } => event is Slept,
            Phase::Settle => event is Slept,
            Phase::FlashLocate { .. } => event is Snapshot,
            Phase::FlashLocateWait { .. } => event is Slept,
            Phase::Creating { .. } => event is FileCreated,
            Phase::Writing { .. } => event is ChunkWritten,
            Phase::Complete => false,
            Phase::Failed => false,
        }
    }

    /// Whether the session is waiting for this event.
    pub fn expects_event(&self, event: &Event) -> (b: bool)
        ensures
            b == self.expects(*event),
    {
        match (&self.phase, event) {
            (Phase::Idle, Event::Start) => true,
            (Phase::EntryLocate { .. }, Event::Snapshot(_)) => true,
            (Phase::EntryLocateWait { .. }, Event::Slept) => true,
            (Phase::Toggle { .. }, Event::Toggled(_)) => true,
            (Phase::PollLocate { .. }, Event::Snapshot(_)) => true,
            (Phase::PollLocateWait { .. }, Event::Slept) => true,
            (Phase::PollWait { .. }, Event::Slept) => true,
            (Phase::Settle, Event::Slept) => true,
            (Phase::FlashLocate { .. }, Event::Snapshot(_)) => true,
            (Phase::FlashLocateWait { .. }, Event::Slept) => true,
            (Phase::Creating { .. }, Event::FileCreated(_)) => true,
            (Phase::Writing { .. }, Event::ChunkWritten(_)) => true,
            _ => false,
        }
    }

    /// Whether the session has emitted its terminal event.
    pub fn is_finished(&self) -> (b: bool)
        ensures
            b == self.finished(),
    {
        match &self.phase {
            Phase::Complete => true,
            Phase::Failed => true,
            _ => false,
        }
    }

    /// Whether the session ended in success.
    pub fn is_complete(&self) -> (b: bool)
        ensures
            b == self.phase is Complete,
    {
        matches!(&self.phase, Phase::Complete)
    }

    /// The modeled elapsed milliseconds: the sum of the sleeps ordered so
    /// far, saturating.
    pub fn elapsed(&self) -> (r: u64)
        ensures
            r == self.elapsed_ms,
    {
        self.elapsed_ms
    }

    /// Opens a session for one physical device.  The firmware is selected
    /// under the reported kind, except that the ambiguous bootloader kind
    /// defers to the caller's hint.
    pub fn new(
        unique_id: u64,
        reported_kind: DeviceType,
        kind_hint: Option<DeviceType>,
        catalog: Catalog,
        config: UpdateConfig,
    ) -> (r: FreeWiliUpdater)
        requires
            config_wf(config),
        ensures
            r.wf(),
            r.phase is Idle,
            !r.finished(),
            r.unique_id == unique_id,
            r.original_device_type == spec_resolve_kind(reported_kind, kind_hint),
            r.catalog == catalog,
            r.config == config,
            r.elapsed_ms == 0,
    {
        FreeWiliUpdater {
            unique_id,
            original_device_type: resolve_kind(reported_kind, kind_hint),
            catalog,
            config,
            elapsed_ms: 0,
            phase: Phase::Idle,
        }
    }

    /// Ends the session in failure, emitting the one terminal `Error`
    /// event with the error's rendered message.
    fn fail(&mut self, msgs: &mut Vec<UpdateMessage>, e: Error) -> (r: Action)
        requires
            old(self).wf(),
        ensures
            final(self).wf(),
            final(self).phase is Failed,
            final(self).same_session(old(self)),
            final(self).elapsed_ms == old(self).elapsed_ms,
            r is Finished,
            final(msgs)@.len() == old(msgs)@.len() + 1,
            final(msgs)@.drop_last() == old(msgs)@,
            final(msgs)@.last() matches UpdateMessage::Error(s) && s@ == e.spec_message(),
            terminal_count(final(msgs)@) == terminal_count(old(msgs)@) + 1,
            fails_with(*old(self), *final(self), final(msgs)@, old(msgs)@, r, e.spec_message()),
    {
        let m = e.message();
        update_message(msgs, UpdateMessage::Error(m));
        self.phase = Phase::Failed;
        proof {
            assert(msgs@.drop_last() =~= old(msgs)@);
            assert(msgs@.take(old(msgs)@.len() as int) =~= old(msgs)@);
        }
        Action::Finished
    }

    /// Ends the session in success, emitting the one terminal `Complete`
    /// event with the modeled total duration.
    fn complete(&mut self, msgs: &mut Vec<UpdateMessage>) -> (r: Action)
        requires
            old(self).wf(),
            old(self).elapsed_ms >= old(self).config.settle_ms,
        ensures
            final(self).wf(),
            final(self).phase is Complete,
            final(self).same_session(old(self)),
            final(self).elapsed_ms == old(self).elapsed_ms,
            r is Finished,
            final(msgs)@.len() == old(msgs)@.len() + 1,
            final(msgs)@.drop_last() == old(msgs)@,
            final(msgs)@.last() matches UpdateMessage::Complete(d) && d == old(self).elapsed_ms,
            terminal_count(final(msgs)@) == terminal_count(old(msgs)@) + 1,
            completes(*old(self), *final(self), final(msgs)@, old(msgs)@, r),
    {
        let d = self.elapsed_ms;
        update_message(msgs, UpdateMessage::Complete(d));
        self.phase = Phase::Complete;
        proof {
            assert(msgs@.drop_last() =~= old(msgs)@);
            assert(msgs@.take(old(msgs)@.len() as int) =~= old(msgs)@);
        }
        Action::Finished
    }

    /// Starts the confirmation poll stage for a device kind: announces the
    /// wait and orders the first re-enumeration of the first poll cycle.
    fn begin_poll(&mut self, msgs: &mut Vec<UpdateMessage>, kind: DeviceType) -> (r: Action)
        requires
            old(self).wf(),
        ensures
            final(self).wf(),
            !final(self).finished(),
            final(self).same_session(old(self)),
            final(self).elapsed_ms == old(self).elapsed_ms,
            r is Enumerate,
            final(msgs)@.len() == old(msgs)@.len() + 1,
            terminal_count(final(msgs)@) == terminal_count(old(msgs)@),
            polls_started(*old(self), *final(self), final(msgs)@, old(msgs)@, r, kind),
    {
        update_message(
            msgs,
            UpdateMessage::ProgressDetail("Waiting for device to enter UF2 mode...".to_owned()),
        );
        proof {
            assert(msgs@.take(old(msgs)@.len() as int) =~= old(msgs)@);
        }
        self.phase = Phase::PollLocate {
            kind,
            polls: 0,
            loc: Locator::new(
                self.unique_id,
                self.config.locate_ceiling,
                self.config.locate_interval_ms,
            ),
        };
        Action::Enumerate
    }

    /// Confirmed entry: announces the settle wait and orders the settle
    /// sleep, counting it into the modeled clock.
    fn begin_settle(&mut self, msgs: &mut Vec<UpdateMessage>) -> (r: Action)
        requires
            old(self).wf(),
        ensures
            final(self).wf(),
            final(self).phase is Settle,
            final(self).same_session(old(self)),
            final(self).elapsed_ms >= old(self).elapsed_ms,
            final(self).elapsed_ms >= old(self).config.settle_ms,
            r matches Action::Sleep(d) && d == old(self).config.settle_ms,
            final(msgs)@.len() == old(msgs)@.len() + 1,
            terminal_count(final(msgs)@) == terminal_count(old(msgs)@),
            settles(*old(self), *final(self), final(msgs)@, old(msgs)@, r),
    {
        update_message(
            msgs,
            UpdateMessage::ProgressDetail(
                "Device entered UF2 mode, waiting for device to settle...".to_owned(),
            ),
        );
        proof {
            assert(msgs@.take(old(msgs)@.len() as int) =~= old(msgs)@);
        }
        self.elapsed_ms = saturating_add_ms(self.elapsed_ms, self.config.settle_ms);
        self.phase = Phase::Settle;
        Action::Sleep(self.config.settle_ms)
    }

    /// One confirmation poll cycle ended without entry: either the attempt
    /// budget is spent — a critical timeout — or the next cycle's sleep is
    /// ordered.
    fn poll_advance(&mut self, msgs: &mut Vec<UpdateMessage>, kind: DeviceType, polls: u32) -> (r:
        Action)
        requires
            old(self).wf(),
            polls < old(self).config.poll_ceiling,
        ensures
            final(self).wf(),
            final(self).same_session(old(self)),
            final(self).elapsed_ms >= old(self).elapsed_ms,
            (r is Finished <==> final(self).finished()),
            final(self).finished() ==> final(self).phase is Failed
                && final(msgs)@.len() == old(msgs)@.len() + 1
                && final(msgs)@.last() is Error,
            terminal_count(final(msgs)@) == terminal_count(old(msgs)@)
                + if final(self).finished() { 1int } else { 0int },
            poll_advances(*old(self), *final(self), final(msgs)@, old(msgs)@, r, kind, polls),
    {
        if polls + 1 >= self.config.poll_ceiling {
            self.fail(
                msgs,
                Error::Critical("Timeout waiting for device to enter UF2 mode".to_owned()),
            )
        } else {
            self.elapsed_ms = saturating_add_ms(self.elapsed_ms, self.config.poll_interval_ms);
            self.phase = Phase::PollWait { kind, polls: polls + 1 };
            Action::Sleep(self.config.poll_interval_ms)
        }
    }

    /// Starts the next write job from the stack: orders the creation of
    /// its firmware file, fails on a missing mount path, and ends the
    /// session in success once no job remains.
    fn begin_job(&mut self, msgs: &mut Vec<UpdateMessage>, stack: Vec<FlashJob>) -> (r: Action)
        requires
            old(self).wf(),
            old(self).elapsed_ms >= old(self).config.settle_ms,
        ensures
            final(self).wf(),
            final(self).same_session(old(self)),
            final(self).elapsed_ms == old(self).elapsed_ms,
            (r is Finished <==> final(self).finished()),
            terminal_count(final(msgs)@) == terminal_count(old(msgs)@)
                + if final(self).finished() { 1int } else { 0int },
            final(self).finished() ==> final(msgs)@.len() == old(msgs)@.len() + 1
                && final(msgs)@.last().is_terminal(),
            final(self).phase is Complete ==> (final(msgs)@.last()
                matches UpdateMessage::Complete(d) && d == old(self).elapsed_ms),
            final(self).phase is Failed ==> final(msgs)@.last() is Error,
            (final(self).phase is Complete <==> stack@.len() == 0),
            (r is CreateFile <==> !final(self).finished()),
            job_starts(*old(self), *final(self), final(msgs)@, old(msgs)@, r, stack_model(
                stack,
            )),
    {
        let ghost model = stack_model(stack);
        let mut stack = stack;
        match stack.pop() {
            None => {
                proof {
                    assert(model.len() == 0);
                }
                self.complete(msgs)
            },
            Some(job) => {
                proof {
                    assert(model.last() == job@);
                }
                match job.path {
                    None => {
                        let text = match job.channel {
                            FlashChannel::Display => "Display device path not found",
                            FlashChannel::Main => "Main device path not found",
                        };
                        self.fail(msgs, Error::Flash(text.to_owned()))
                    },
                    Some(path) => {
                        let len = job.payload.len();
                        let chunks = num_chunks(len, self.config.chunk_size);
                        proof {
                            assert(stack_model(stack) =~= model.drop_last());
                        }
                        self.phase = Phase::Creating { stack, len, chunks };
                        Action::CreateFile { path, payload: job.payload }
                    },
                }
            },
        }
    }

    /// Consumes the outcome of the last ordered action and decides the
    /// next one.  Returns the progress events to forward, in emission
    /// order, and the action the caller must perform next.
    ///
    /// Exactly one terminal event is emitted over a whole run: the batch
    /// returned by the step that reaches a terminal phase ends with it,
    /// and every other batch is free of terminal events.  A successful
    /// run's `Complete` carries the modeled elapsed time, which is never
    /// below the settle delay.
    /// Continues once the flash stage's locate has found the device:
    /// resolves the payload and starts the stacked write jobs, or ends the
    /// run when the kind has no catalog entry.
    fn handle_flash_found(&mut self, msgs: &mut Vec<UpdateMessage>, device: DeviceInfo) -> (r:
        Action)
        requires
            old(self).wf(),
            old(self).elapsed_ms >= old(self).config.settle_ms,
            old(msgs)@.len() == 0,
        ensures
            final(self).wf(),
            final(self).same_session(old(self)),
            final(self).elapsed_ms >= old(self).elapsed_ms,
            (r is Finished <==> final(self).finished()),
            terminal_count(final(msgs)@) == if final(self).finished() { 1int } else { 0int },
            final(self).finished() ==> final(msgs)@.len() >= 1
                && final(msgs)@.last().is_terminal(),
            final(self).phase is Complete ==> (final(msgs)@.last()
                matches UpdateMessage::Complete(d) && d == final(self).elapsed_ms && d
                >= final(self).config.settle_ms),
            final(self).phase is Failed ==> final(msgs)@.last() is Error,
            flash_found(*old(self), device, *final(self), final(msgs)@, r),
    {
        match self.catalog.payload_for(self.original_device_type) {
            None => {
                update_message(msgs, UpdateMessage::Progress(100i16));
                proof {
                    assert(msgs@.take(1) =~= msgs@);
                }
                let kind_name = self.original_device_type.name();
                self.fail(
                    msgs,
                    Error::UF2(
                        "No firmware data available for device type: ".to_owned().concat(
                            kind_name.as_str(),
                        ),
                    ),
                )
            },
            Some(file) => {
                let ghost file_model = file@;
                if matches!(&file, Uf2File::FreeWili(_, _)) {
                    update_message(
                        msgs,
                        UpdateMessage::ProgressDetail("Flashing FreeWili UF2 files...".to_owned()),
                    );
                }
                proof {
                    if msgs@.len() == 0 {
                        assert(msgs@ =~= Seq::<UpdateMessage>::empty());
                    } else {
                        assert(msgs@.take(1) =~= msgs@);
                    }
                }
                let ghost device_model = device@;
                let main_path = match device.main {
                    Some(e) => e.path,
                    None => None,
                };
                let display_path = match device.display {
                    Some(e) => e.path,
                    None => None,
                };
                let jobs = flash_jobs(file, main_path, display_path);
                let stack = reverse_jobs(jobs);
                proof {
                    assert(stack_model(stack) =~~= spec_flash_stack(
                        file_model,
                        endpoint_path(device_model.main),
                        endpoint_path(device_model.display),
                    ));
                }
                self.begin_job(msgs, stack)
            },
        }
    }

    /// Continues once the caller reports the firmware file created (or
    /// not): starts the chunk writes, closes an empty payload's job at
    /// once, or ends the run on the creation error.
    fn handle_file_created(
        &mut self,
        msgs: &mut Vec<UpdateMessage>,
        stack: Vec<FlashJob>,
        len: usize,
        chunks: usize,
        outcome: Option<String>,
    ) -> (r: Action)
        requires
            old(self).wf(),
            old(self).elapsed_ms >= old(self).config.settle_ms,
            old(msgs)@.len() == 0,
            chunks == spec_num_chunks(len as int, old(self).config.chunk_size as int),
        ensures
            final(self).wf(),
            final(self).same_session(old(self)),
            final(self).elapsed_ms >= old(self).elapsed_ms,
            (r is Finished <==> final(self).finished()),
            terminal_count(final(msgs)@) == if final(self).finished() { 1int } else { 0int },
            final(self).finished() ==> final(msgs)@.len() >= 1
                && final(msgs)@.last().is_terminal(),
            final(self).phase is Complete ==> (final(msgs)@.last()
                matches UpdateMessage::Complete(d) && d == final(self).elapsed_ms && d
                >= final(self).config.settle_ms),
            final(self).phase is Failed ==> final(msgs)@.last() is Error,
            ({
                match outcome {
                    Some(detail) => fails_with(*old(self), *final(self), final(msgs)@,
                        Seq::empty(), r, "Flash Error: "@ + ("Failed to create UF2 file: "@
                            + detail@)),
                    None => {
                        if chunks == 0 {
                            &&& final(msgs)@.len() >= 1
                            &&& final(msgs)@[0] == UpdateMessage::Progress(100i16)
                            &&& job_starts(*old(self), *final(self), final(msgs)@,
                                final(msgs)@.take(1), r, stack_model(stack))
                        } else {
                            &&& final(self).same_session(old(self))
                            &&& final(self).elapsed_ms == old(self).elapsed_ms
                            &&& (final(self).phase matches Phase::Writing {
                                stack: s2,
                                len: l2,
                                chunks: c2,
                                chunk,
                                start,
                            } && s2 == stack && l2 == len && c2 == chunks && chunk == 0 && start
                                == 0)
                            &&& final(msgs)@.len() == 1
                            &&& (final(msgs)@[0] matches UpdateMessage::Progress(pct) && pct
                                == spec_progress(0, chunks as int))
                            &&& (r matches Action::WriteChunk { start: ws, end: we } && ws == 0
                                && we == spec_chunk_span(
                                len as int,
                                old(self).config.chunk_size as int,
                                0,
                            ).1)
                        }
                    },
                }
            }),
    {
        proof {
            assert(msgs@ =~= Seq::<UpdateMessage>::empty());
        }
        match outcome {
            Some(detail) => self.fail(
                msgs,
                Error::Flash("Failed to create UF2 file: ".to_owned().concat(detail.as_str())),
            ),
            None => {
                if chunks == 0 {
                    update_message(msgs, UpdateMessage::Progress(100i16));
                    proof {
                        assert(msgs@.take(1) =~= msgs@);
                    }
                    self.begin_job(msgs, stack)
                } else {
                    proof {
                        lemma_num_chunks_covers(len as int, self.config.chunk_size as int);
                    }
                    let p = chunk_progress(0, chunks);
                    update_message(msgs, UpdateMessage::Progress(p));
                    let end = if len > self.config.chunk_size {
                        self.config.chunk_size
                    } else {
                        len
                    };
                    self.phase = Phase::Writing { stack, len, chunks, chunk: 0, start: 0 };
                    Action::WriteChunk { start: 0, end }
                }
            },
        }
    }

    /// Continues once the caller reports a chunk written and synced (or
    /// not): orders the next chunk, closes the job at its last chunk with
    /// the saturating 100% marker, or ends the run on the write error.
    fn handle_chunk_written(
        &mut self,
        msgs: &mut Vec<UpdateMessage>,
        stack: Vec<FlashJob>,
        len: usize,
        chunks: usize,
        chunk: usize,
        start: usize,
        outcome: Option<String>,
    ) -> (r: Action)
        requires
            old(self).wf(),
            old(self).elapsed_ms >= old(self).config.settle_ms,
            old(msgs)@.len() == 0,
            chunks == spec_num_chunks(len as int, old(self).config.chunk_size as int),
            chunk < chunks,
            start == chunk * old(self).config.chunk_size,
            start < len,
        ensures
            final(self).wf(),
            final(self).same_session(old(self)),
            final(self).elapsed_ms >= old(self).elapsed_ms,
            (r is Finished <==> final(self).finished()),
            terminal_count(final(msgs)@) == if final(self).finished() { 1int } else { 0int },
            final(self).finished() ==> final(msgs)@.len() >= 1
                && final(msgs)@.last().is_terminal(),
            final(self).phase is Complete ==> (final(msgs)@.last()
                matches UpdateMessage::Complete(d) && d == final(self).elapsed_ms && d
                >= final(self).config.settle_ms),
            final(self).phase is Failed ==> final(msgs)@.last() is Error,
            ({
                match outcome {
                    Some(detail) => fails_with(*old(self), *final(self), final(msgs)@,
                        Seq::empty(), r, "Flash Error: "@ + ("Failed to write UF2 file chunk: "@
                            + detail@)),
                    None => {
                        let end = spec_chunk_span(
                            len as int,
                            old(self).config.chunk_size as int,
                            chunk as int,
                        ).1;
                        if chunk + 1 < chunks {
                            &&& final(self).same_session(old(self))
                            &&& final(self).elapsed_ms == old(self).elapsed_ms
                            &&& (final(self).phase matches Phase::Writing {
                                stack: s2,
                                len: l2,
                                chunks: c2,
                                chunk: ck,
                                start: st,
                            } && s2 == stack && l2 == len && c2 == chunks && ck == chunk + 1
                                && st == end)
                            &&& final(msgs)@.len() == 1
                            &&& (final(msgs)@[0] matches UpdateMessage::Progress(pct) && pct
                                == spec_progress(chunk + 1, chunks as int))
                            &&& (r matches Action::WriteChunk { start: ws, end: we } && ws == end
                                && we == spec_chunk_span(
                                len as int,
                                old(self).config.chunk_size as int,
                                chunk + 1,
                            ).1)
                        } else {
                            &&& final(msgs)@.len() >= 1
                            &&& final(msgs)@[0] == UpdateMessage::Progress(100i16)
                            &&& job_starts(*old(self), *final(self), final(msgs)@,
                                final(msgs)@.take(1), r, stack_model(stack))
                        }
                    },
                }
            }),
    {
        proof {
            assert(msgs@ =~= Seq::<UpdateMessage>::empty());
        }
        match outcome {
            Some(detail) => self.fail(
                msgs,
                Error::Flash(
                    "Failed to write UF2 file chunk: ".to_owned().concat(detail.as_str()),
                ),
            ),
            None => {
                proof {
                    lemma_chunk_step(len as int, self.config.chunk_size as int, chunk as int);
                }
                let end = if len - start > self.config.chunk_size {
                    start + self.config.chunk_size
                } else {
                    len
                };
                if chunk + 1 < chunks {
                    let p = chunk_progress(chunk + 1, chunks);
                    update_message(msgs, UpdateMessage::Progress(p));
                    let end2 = if len - end > self.config.chunk_size {
                        end + self.config.chunk_size
                    } else {
                        len
                    };
                    self.phase = Phase::Writing { stack, len, chunks, chunk: chunk + 1, start: end };
                    Action::WriteChunk { start: end, end: end2 }
                } else {
                    update_message(msgs, UpdateMessage::Progress(100i16));
                    proof {
                        assert(msgs@.take(1) =~= msgs@);
                    }
                    self.begin_job(msgs, stack)
                }
            },
        }
    }

    #[verifier::rlimit(100)]
    pub fn step(&mut self, event: Event) -> (r: (Vec<UpdateMessage>, Action))
        requires
            old(self).wf(),
            !old(self).finished(),
            old(self).expects(event),
        ensures
            final(self).wf(),
            final(self).same_session(old(self)),
            final(self).elapsed_ms >= old(self).elapsed_ms,
            (r.1 is Finished <==> final(self).finished()),
            terminal_count(r.0@) == if final(self).finished() {
                1int
            } else {
                0int
            },
            final(self).finished() ==> r.0@.len() >= 1 && r.0@.last().is_terminal(),
            final(self).phase is Complete ==> (r.0@.last() matches UpdateMessage::Complete(d)
                && d == final(self).elapsed_ms && d >= final(self).config.settle_ms),
            final(self).phase is Failed ==> r.0@.last() is Error,
            spec_step_post(*old(self), event, *final(self), r.0@, r.1),
    {
        let ghost pre = *self;
        let ghost ev0 = event;
        let mut msgs: Vec<UpdateMessage> = Vec::new();
        let mut ph = Phase::Idle;
        core::mem::swap(&mut self.phase, &mut ph);
        let action: Action = match ph {
            Phase::Idle => {
                update_message(&mut msgs, UpdateMessage::Progress(-1i16));
                update_message(
                    &mut msgs,
                    UpdateMessage::ProgressDetail("Entering UF2 mode...".to_owned()),
                );
                self.phase = Phase::EntryLocate {
                    loc: Locator::new(
                        self.unique_id,
                        self.config.locate_ceiling,
                        self.config.locate_interval_ms,
                    ),
                };
                Action::Enumerate
            },
            Phase::EntryLocate { mut loc } => {
                let snapshot = match event {
                    Event::Snapshot(s) => s,
                    _ => unreached(),
                };
                match loc.step(snapshot.as_ref()) {
                    LocateStep::Found(idx) => {
                        let mut devs = match snapshot {
                            Some(d) => d,
                            None => unreached(),
                        };
                        let device = devs.remove(idx);
                        let kind = device.device_type;
                        match toggle_plan(kind, device.main.as_ref(), device.display.as_ref()) {
                            TogglePlan::Unsupported => self.fail(
                                &mut msgs,
                                Error::Critical("Device does not support UF2 mode".to_owned()),
                            ),
                            TogglePlan::EndpointUnavailable => self.fail(
                                &mut msgs,
                                Error::Critical("Device endpoint not available".to_owned()),
                            ),
                            TogglePlan::AlreadyInBootloader => self.begin_settle(&mut msgs),
                            TogglePlan::Toggle(ports) => {
                                if ports.len() == 0 {
                                    self.begin_poll(&mut msgs, kind)
                                } else {
                                    let port = ports[0].clone();
                                    self.phase = Phase::Toggle { kind, ports, next: 0 };
                                    Action::ToggleSerial(port)
                                }
                            },
                        }
                    },
                    LocateStep::Retry(ms) => {
                        self.elapsed_ms = saturating_add_ms(self.elapsed_ms, ms);
                        self.phase = Phase::EntryLocateWait { loc };
                        Action::Sleep(ms)
                    },
                    LocateStep::NotFound => self.fail(
                        &mut msgs,
                        Error::Critical("Failed to find FreeWiliDevice".to_owned()),
                    ),
                }
            },
            Phase::EntryLocateWait { loc } => {
                self.phase = Phase::EntryLocate { loc };
                Action::Enumerate
            },
            Phase::Toggle { kind, ports, next } => {
                let outcome = match event {
                    Event::Toggled(o) => o,
                    _ => unreached(),
                };
                let mut failed: Option<Error> = None;
                match outcome {
                    ToggleOutcome::Opened => {
                        update_message(
                            &mut msgs,
                            UpdateMessage::ProgressDetail(
                                "Port opened: ".to_owned().concat(ports[next].as_str()),
                            ),
                        );
                    },
                    ToggleOutcome::OpenFailed { broken_pipe, raw_os_error } => {
                        match serial_toggle_verdict(
                            broken_pipe,
                            raw_os_error,
                            self.config.windows_host,
                        ) {
                            ToggleVerdict::Proceed => {},
                            ToggleVerdict::ProceedTransitioning => {
                                update_message(
                                    &mut msgs,
                                    UpdateMessage::ProgressDetail(
                                        "Device may be transitioning to UF2 mode".to_owned(),
                                    ),
                                );
                            },
                            ToggleVerdict::Fail => {
                                failed = Some(
                                    Error::Critical(
                                        "Failed to open port to force UF2 mode: ".to_owned()
                                            .concat(ports[next].as_str()),
                                    ),
                                );
                            },
                        }
                    },
                }
                proof {
                    if msgs@.len() == 0 {
                        assert(msgs@ =~= Seq::<UpdateMessage>::empty());
                    } else {
                        assert(msgs@.take(1) =~= msgs@);
                    }
                }
                match failed {
                    Some(e) => self.fail(&mut msgs, e),
                    None => {
                        if next + 1 < ports.len() {
                            let port = ports[next + 1].clone();
                            self.phase = Phase::Toggle { kind, ports, next: next + 1 };
                            Action::ToggleSerial(port)
                        } else {
                            self.begin_poll(&mut msgs, kind)
                        }
                    },
                }
            },
            Phase::PollLocate { kind, polls, mut loc } => {
                let snapshot = match event {
                    Event::Snapshot(s) => s,
                    _ => unreached(),
                };
                match loc.step(snapshot.as_ref()) {
                    LocateStep::Found(idx) => {
                        let mut devs = match snapshot {
                            Some(d) => d,
                            None => unreached(),
                        };
                        let device = devs.remove(idx);
                        let ghost dev_model = device@;
                        match entry_status(kind, device.main.as_ref(), device.display.as_ref()) {
                            EntryStatus::Ready => {
                                update_message(
                                    &mut msgs,
                                    UpdateMessage::ProgressDetail(
                                        "Device entered UF2 mode".to_owned(),
                                    ),
                                );
                                proof {
                                    assert(msgs@.take(1) =~= msgs@);
                                }
                                let a = self.begin_settle(&mut msgs);
                                proof {
                                    assert(crate::bootloader::spec_entry_status(
                                        kind,
                                        dev_model.main,
                                        dev_model.display,
                                    ) is Ready);
                                    assert(msgs@.len() >= 1);
                                    assert(msgs@[0] matches UpdateMessage::ProgressDetail(t)
                                        && t@ == "Device entered UF2 mode"@);
                                    assert(settles(pre, *self, msgs@, msgs@.take(1), a));
                                    assert(poll_found(pre, kind, polls, device, *self, msgs@, a));
                                }
                                a
                            },
                            EntryStatus::NotSettled => {
                                update_message(
                                    &mut msgs,
                                    UpdateMessage::ProgressDetail(
                                        "Device entered UF2 mode but paths are missing. Is it mounted?".to_owned(),
                                    ),
                                );
                                proof {
                                    assert(msgs@.take(1) =~= msgs@);
                                }
                                let a = self.poll_advance(&mut msgs, kind, polls);
                                proof {
                                    assert(poll_advances(pre, *self, msgs@, msgs@.take(1), a, kind, polls));
                                    assert(poll_found(pre, kind, polls, device, *self, msgs@, a));
                                }
                                a
                            },
                            EntryStatus::NotReady => {
                                let a = self.poll_advance(&mut msgs, kind, polls);
                                proof {
                                    assert(msgs@.take(0) =~= Seq::<UpdateMessage>::empty());
                                    assert(poll_advances(pre, *self, msgs@, Seq::empty(), a, kind, polls));
                                    assert(poll_found(pre, kind, polls, device, *self, msgs@, a));
                                }
                                a
                            },
                        }
                    },
                    LocateStep::Retry(ms) => {
                        self.elapsed_ms = saturating_add_ms(self.elapsed_ms, ms);
                        self.phase = Phase::PollLocateWait { kind, polls, loc };
                        Action::Sleep(ms)
                    },
                    LocateStep::NotFound => self.fail(
                        &mut msgs,
                        Error::Critical("Failed to find FreeWiliDevice".to_owned()),
                    ),
                }
            },
            Phase::PollLocateWait { kind, polls, loc } => {
                self.phase = Phase::PollLocate { kind, polls, loc };
                Action::Enumerate
            },
            Phase::PollWait { kind, polls } => {
                self.phase = Phase::PollLocate {
                    kind,
                    polls,
                    loc: Locator::new(
                        self.unique_id,
                        self.config.locate_ceiling,
                        self.config.locate_interval_ms,
                    ),
                };
                Action::Enumerate
            },
            Phase::Settle => {
                update_message(
                    &mut msgs,
                    UpdateMessage::ProgressDetail("Flashing UF2...".to_owned()),
                );
                self.phase = Phase::FlashLocate {
                    loc: Locator::new(
                        self.unique_id,
                        self.config.locate_ceiling,
                        self.config.locate_interval_ms,
                    ),
                };
                Action::Enumerate
            },
            Phase::FlashLocate { mut loc } => {
                let snapshot = match event {
                    Event::Snapshot(s) => s,
                    _ => unreached(),
                };
                match loc.step(snapshot.as_ref()) {
                    LocateStep::Found(idx) => {
                        let mut devs = match snapshot {
                            Some(d) => d,
                            None => unreached(),
                        };
                        let device = devs.remove(idx);
                        self.handle_flash_found(&mut msgs, device)
                    },
                    LocateStep::Retry(ms) => {
                        self.elapsed_ms = saturating_add_ms(self.elapsed_ms, ms);
                        self.phase = Phase::FlashLocateWait { loc };
                        Action::Sleep(ms)
                    },
                    LocateStep::NotFound => self.fail(
                        &mut msgs,
                        Error::Critical("Failed to find FreeWiliDevice".to_owned()),
                    ),
                }
            },
            Phase::FlashLocateWait { loc } => {
                self.phase = Phase::FlashLocate { loc };
                Action::Enumerate
            },
            Phase::Creating { stack, len, chunks } => {
                let outcome = match event {
                    Event::FileCreated(o) => o,
                    _ => unreached(),
                };
                self.handle_file_created(&mut msgs, stack, len, chunks, outcome)
            },
            Phase::Writing { stack, len, chunks, chunk, start } => {
                let outcome = match event {
                    Event::ChunkWritten(o) => o,
                    _ => unreached(),
                };
                self.handle_chunk_written(&mut msgs, stack, len, chunks, chunk, start, outcome)
            },
            Phase::Complete => unreached(),
            Phase::Failed => unreached(),
        };
        (msgs, action)
    }
}

/// What one recorded event does to a session: a session that already
/// reached its terminal phase, or one that is not waiting for this event,
/// is unchanged and emits nothing; otherwise the session takes one step.
pub open spec fn spec_event_outcome(
    mid: FreeWiliUpdater,
    ev: Event,
    post: FreeWiliUpdater,
    more: Seq<UpdateMessage>,
) -> bool {
    if mid.finished() || !mid.expects(ev) {
        post == mid && more == Seq::<UpdateMessage>::empty()
    } else {
        exists|act: Action| #[trigger] spec_step_post(mid, ev, post, more, act)
    }
}

/// One replay of the machine over recorded events, as a relation: from
/// `pre`, each event in turn has its outcome — events the session is not
/// waiting for are ignored, and a session that reached its terminal phase
/// absorbs the rest of the recording — ending at `post` with `msgs`
/// emitted, in order.
pub open spec fn spec_run(
    pre: FreeWiliUpdater,
    events: Seq<Event>,
    post: FreeWiliUpdater,
    msgs: Seq<UpdateMessage>,
) -> bool
    decreases events.len(),
{
    if events.len() == 0 {
        post == pre && msgs == Seq::<UpdateMessage>::empty()
    } else {
        exists|mid: FreeWiliUpdater, first: Seq<UpdateMessage>, more: Seq<UpdateMessage>|
            #![all_triggers]
            {
                &&& spec_run(pre, events.drop_last(), mid, first)
                &&& spec_event_outcome(mid, events.last(), post, more)
                &&& msgs == first + more
            }
    }
}

/// A whole update run over a recording: the opening step on `Start`, then
/// the replay of the recorded events.
pub open spec fn spec_update(
    pre: FreeWiliUpdater,
    events: Seq<Event>,
    post: FreeWiliUpdater,
    msgs: Seq<UpdateMessage>,
) -> bool {
    exists|mid: FreeWiliUpdater, first: Seq<UpdateMessage>, rest: Seq<UpdateMessage>, act: Action|
        #![trigger spec_step_post(pre, Event::Start, mid, first, act), spec_run(
            mid,
            events,
            post,
            rest,
        )]
        {
            &&& spec_step_post(pre, Event::Start, mid, first, act)
            &&& msgs == first + rest
            &&& spec_run(mid, events, post, rest)
        }
}

/// Extends a replay by one more recorded event and its outcome.
proof fn lemma_run_extend(
    pre: FreeWiliUpdater,
    done: Seq<Event>,
    mid: FreeWiliUpdater,
    first: Seq<UpdateMessage>,
    ev: Event,
    post: FreeWiliUpdater,
    more: Seq<UpdateMessage>,
)
    requires
        spec_run(pre, done, mid, first),
        spec_event_outcome(mid, ev, post, more),
    ensures
        spec_run(pre, done.push(ev), post, first + more),
{
    reveal_with_fuel(spec_run, 2);
    let x = done.push(ev);
    assert(x.len() > 0);
    assert(x.drop_last() =~= done);
    assert(x.last() == ev);
    assert(spec_run(pre, x.drop_last(), mid, first));
    assert(spec_event_outcome(mid, x.last(), post, more));
    assert(exists|mid2: FreeWiliUpdater, first2: Seq<UpdateMessage>, more2: Seq<UpdateMessage>|
        #![all_triggers]
        {
            &&& spec_run(pre, x.drop_last(), mid2, first2)
            &&& spec_event_outcome(mid2, x.last(), post, more2)
            &&& ((first + more) == first2 + more2)
        });
}

/// A replay that reached a terminal phase absorbs any further events.
proof fn lemma_run_finished_absorbs(
    pre: FreeWiliUpdater,
    done: Seq<Event>,
    post: FreeWiliUpdater,
    msgs: Seq<UpdateMessage>,
    more: Seq<Event>,
)
    requires
        spec_run(pre, done, post, msgs),
        post.finished(),
    ensures
        spec_run(pre, done + more, post, msgs),
    decreases more.len(),
{
    if more.len() == 0 {
        assert(done + more =~= done);
    } else {
        lemma_run_finished_absorbs(pre, done, post, msgs, more.drop_last());
        assert(spec_event_outcome(post, more.last(), post, Seq::<UpdateMessage>::empty()));
        lemma_run_extend(
            pre,
            done + more.drop_last(),
            post,
            msgs,
            more.last(),
            post,
            Seq::<UpdateMessage>::empty(),
        );
        assert((done + more.drop_last()).push(more.last()) =~= done + more);
        assert(msgs + Seq::<UpdateMessage>::empty() =~= msgs);
    }
}

/// Whether a recorded event is an enumeration snapshot showing the target
/// identity.
pub open spec fn event_shows_target(ev: Event, target: u64) -> bool {
    ev matches Event::Snapshot(snap) && snapshot_has_target(snap, target)
}

/// The phases a session can hold while its device has never been seen:
/// the entry stage's locate loop, or failure.
pub open spec fn locate_stage_only(s: FreeWiliUpdater, target: u64) -> bool {
    match s.phase {
        Phase::EntryLocate { loc } => loc.target == target,
        Phase::EntryLocateWait { loc } => loc.target == target,
        Phase::Failed => true,
        _ => false,
    }
}

/// A replay whose events never show the target keeps the session in the
/// entry locate stage, or fails it with the one device-not-found error.
proof fn lemma_run_unlocated(
    mid: FreeWiliUpdater,
    events: Seq<Event>,
    post: FreeWiliUpdater,
    msgs: Seq<UpdateMessage>,
    target: u64,
)
    requires
        spec_run(mid, events, post, msgs),
        locate_stage_only(mid, target),
        mid.unique_id == target,
        forall|i: int| 0 <= i < events.len() ==> !event_shows_target(#[trigger] events[i], target),
    ensures
        locate_stage_only(post, target),
        post.unique_id == target,
        mid.phase is Failed ==> post == mid && msgs == Seq::<UpdateMessage>::empty(),
        post.phase is Failed && !(mid.phase is Failed) ==> msgs.len() >= 1 && (msgs.last()
            matches UpdateMessage::Error(m) && m@ == "Critical Error: "@
            + "Failed to find FreeWiliDevice"@),
    decreases events.len(),
{
    if events.len() == 0 {
    } else {
        let (m1, first, more) = choose|
            m1: FreeWiliUpdater,
            first: Seq<UpdateMessage>,
            more: Seq<UpdateMessage>,
        |
            #![all_triggers]
            {
                &&& spec_run(mid, events.drop_last(), m1, first)
                &&& spec_event_outcome(m1, events.last(), post, more)
                &&& msgs == first + more
            };
        assert(forall|i: int|
            0 <= i < events.len() - 1 ==> #[trigger] events.drop_last()[i] == events[i]);
        lemma_run_unlocated(mid, events.drop_last(), m1, first, target);
        assert(events[events.len() - 1] == events.last());
        assert(!event_shows_target(events.last(), target));
        if m1.finished() || !m1.expects(events.last()) {
            assert(post == m1 && more == Seq::<UpdateMessage>::empty());
            assert(msgs =~= first);
        } else {
            let act = choose|act: Action| #[trigger] spec_step_post(
                m1,
                events.last(),
                post,
                more,
                act,
            );
            match m1.phase {
                Phase::EntryLocate { loc } => {
                    // the snapshot misses the target, so the locate attempt
                    // is spent or the budget runs out
                    assert(loc.target == target);
                    if post.phase is Failed {
                        assert(msgs.last() == more.last());
                    } else {
                        assert(msgs =~= first);
                    }
                },
                Phase::EntryLocateWait { loc } => {
                    assert(msgs =~= first);
                },
                _ => {
                    assert(false);
                },
            }
        }
    }
}

/// Law: an update whose enumeration snapshots never show the captured
/// identity cannot succeed: the session never leaves the entry stage's
/// locate loop, and if the run ends, it ends with the one terminal
/// `Error` carrying the critical device-not-found message.
pub proof fn lemma_update_never_located(
    pre: FreeWiliUpdater,
    events: Seq<Event>,
    post: FreeWiliUpdater,
    msgs: Seq<UpdateMessage>,
)
    requires
        pre.phase is Idle,
        spec_update(pre, events, post, msgs),
        forall|i: int| 0 <= i < events.len() ==> !event_shows_target(
            #[trigger] events[i],
            pre.unique_id,
        ),
    ensures
        !(post.phase is Complete),
        post.finished() ==> msgs.len() >= 1 && (msgs.last() matches UpdateMessage::Error(m)
            && m@ == "Critical Error: "@ + "Failed to find FreeWiliDevice"@),
{
    let (mid, first, rest, act) = choose|
        mid: FreeWiliUpdater,
        first: Seq<UpdateMessage>,
        rest: Seq<UpdateMessage>,
        act: Action,
    |
        #![all_triggers]
        {
            &&& spec_step_post(pre, Event::Start, mid, first, act)
            &&& msgs == first + rest
            &&& spec_run(mid, events, post, rest)
        };
    assert(locate_stage_only(mid, pre.unique_id));
    assert(mid.unique_id == pre.unique_id);
    lemma_run_unlocated(mid, events, post, rest, pre.unique_id);
    if post.phase is Failed {
        assert(rest.len() >= 1);
        assert(msgs.last() == rest.last());
    }
}

/// The phases a session can hold while its resolved kind has no catalog
/// entry: everything short of writing firmware.
pub open spec fn never_writes(s: FreeWiliUpdater) -> bool {
    !(s.phase is Creating) && !(s.phase is Writing) && !(s.phase is Complete)
}

/// A replay of a session whose resolved kind has no catalog entry never
/// reaches a writing phase.
proof fn lemma_run_without_payload(
    mid: FreeWiliUpdater,
    events: Seq<Event>,
    post: FreeWiliUpdater,
    msgs: Seq<UpdateMessage>,
)
    requires
        spec_run(mid, events, post, msgs),
        never_writes(mid),
        !crate::catalog::kind_has_payload(mid.original_device_type),
    ensures
        never_writes(post),
        post.original_device_type == mid.original_device_type,
    decreases events.len(),
{
    if events.len() == 0 {
    } else {
        let (m1, first, more) = choose|
            m1: FreeWiliUpdater,
            first: Seq<UpdateMessage>,
            more: Seq<UpdateMessage>,
        |
            #![all_triggers]
            {
                &&& spec_run(mid, events.drop_last(), m1, first)
                &&& spec_event_outcome(m1, events.last(), post, more)
                &&& msgs == first + more
            };
        lemma_run_without_payload(mid, events.drop_last(), m1, first);
        if m1.finished() || !m1.expects(events.last()) {
        } else {
            let act = choose|act: Action| #[trigger] spec_step_post(
                m1,
                events.last(),
                post,
                more,
                act,
            );
            assert(never_writes(post));
        }
    }
}

/// Law: an update for a kind without a catalog entry can never succeed —
/// no file is ever ordered and no `Complete` is ever emitted; the typed
/// firmware-unavailable terminal (preceded in its batch by the saturating
/// 100% marker, as `flash_found` states) is the only way the flash stage
/// ends.
pub proof fn lemma_update_unflashable_kind_never_completes(
    pre: FreeWiliUpdater,
    events: Seq<Event>,
    post: FreeWiliUpdater,
    msgs: Seq<UpdateMessage>,
)
    requires
        pre.phase is Idle,
        spec_update(pre, events, post, msgs),
        !crate::catalog::kind_has_payload(pre.original_device_type),
    ensures
        !(post.phase is Complete),
{
    let (mid, first, rest, act) = choose|
        mid: FreeWiliUpdater,
        first: Seq<UpdateMessage>,
        rest: Seq<UpdateMessage>,
        act: Action,
    |
        #![all_triggers]
        {
            &&& spec_step_post(pre, Event::Start, mid, first, act)
            &&& msgs == first + rest
            &&& spec_run(mid, events, post, rest)
        };
    assert(never_writes(mid));
    lemma_run_without_payload(mid, events, post, rest);
}

/// The firmware-unavailable message for this session's resolved kind.
pub open spec fn uf2_error_text(s: FreeWiliUpdater) -> Seq<char> {
    "UF2 Error: "@ + ("No firmware data available for device type: "@
        + s.original_device_type.spec_name())
}

/// The first characters of the three error families, which tell their
/// messages apart.
proof fn lemma_error_prefixes()
    ensures
        "Critical Error: "@.len() == 16,
        "Critical Error: "@[0] == 'C',
        "Flash Error: "@.len() == 13,
        "Flash Error: "@[0] == 'F',
        "UF2 Error: "@.len() == 11,
        "UF2 Error: "@[0] == 'U',
{
    reveal_strlit("Critical Error: ");
    reveal_strlit("Flash Error: ");
    reveal_strlit("UF2 Error: ");
}

/// A step that ends the run in failure ends its batch with an `Error`
/// whose message either is the firmware-unavailable text — and then the
/// batch is exactly the saturating 100% marker followed by that error —
/// or belongs to the critical or flash family.
proof fn lemma_step_failed_batch(
    pre: FreeWiliUpdater,
    ev: Event,
    post: FreeWiliUpdater,
    msgs: Seq<UpdateMessage>,
    act: Action,
)
    requires
        spec_step_post(pre, ev, post, msgs, act),
        post.phase is Failed,
    ensures
        post.same_session(&pre),
        msgs.len() >= 1,
        msgs.last() is Error,
        (msgs.last() matches UpdateMessage::Error(m) ==> ((m@ == uf2_error_text(pre)
            && msgs.len() == 2 && msgs[0] == UpdateMessage::Progress(100i16)) || m@[0] == 'C'
            || m@[0] == 'F')),
{
    lemma_error_prefixes();
}

/// Every step keeps the session's core.
proof fn lemma_step_same_session(
    pre: FreeWiliUpdater,
    ev: Event,
    post: FreeWiliUpdater,
    msgs: Seq<UpdateMessage>,
    act: Action,
)
    requires
        spec_step_post(pre, ev, post, msgs, act),
    ensures
        post.same_session(&pre),
{
}

/// Through a replay, a run that ends in failure carries its terminal
/// `Error` last, and when that error is the firmware-unavailable one, the
/// saturating 100% marker stands directly before it.
proof fn lemma_run_uf2_pairing(
    mid: FreeWiliUpdater,
    events: Seq<Event>,
    post: FreeWiliUpdater,
    msgs: Seq<UpdateMessage>,
)
    requires
        spec_run(mid, events, post, msgs),
    ensures
        post.same_session(&mid),
        mid.finished() ==> post == mid && msgs == Seq::<UpdateMessage>::empty(),
        (post.phase is Failed && !(mid.phase is Failed)) ==> msgs.len() >= 1 && msgs.last()
            is Error,
        (post.phase is Failed && !(mid.phase is Failed) && (msgs.last()
            matches UpdateMessage::Error(m) && m@ == uf2_error_text(mid))) ==> msgs.len() >= 2
            && msgs[msgs.len() - 2] == UpdateMessage::Progress(100i16),
    decreases events.len(),
{
    lemma_error_prefixes();
    if events.len() == 0 {
    } else {
        let (m1, first, more) = choose|
            m1: FreeWiliUpdater,
            first: Seq<UpdateMessage>,
            more: Seq<UpdateMessage>,
        |
            #![all_triggers]
            {
                &&& spec_run(mid, events.drop_last(), m1, first)
                &&& spec_event_outcome(m1, events.last(), post, more)
                &&& msgs == first + more
            };
        lemma_run_uf2_pairing(mid, events.drop_last(), m1, first);
        if m1.finished() || !m1.expects(events.last()) {
            assert(post == m1 && more == Seq::<UpdateMessage>::empty());
            assert(msgs =~= first);
        } else {
            let act = choose|act: Action| #[trigger] spec_step_post(
                m1,
                events.last(),
                post,
                more,
                act,
            );
            lemma_step_same_session(m1, events.last(), post, more, act);
            if post.phase is Failed {
                lemma_step_failed_batch(m1, events.last(), post, more, act);
                assert(msgs.last() == more.last());
                assert(uf2_error_text(m1) == uf2_error_text(mid));
                if more.last() matches UpdateMessage::Error(m) && m@ == uf2_error_text(mid) {
                    assert(more.len() == 2);
                    assert(msgs[msgs.len() - 2] == more[0]);
                }
            }
        }
    }
}

/// Law: when an update ends with the firmware-unavailable error, the
/// saturating 100% marker stands directly before it in the event stream —
/// the caller's indeterminate spinner is always released before the
/// terminal error is shown.
pub proof fn lemma_update_firmware_error_pairing(
    pre: FreeWiliUpdater,
    events: Seq<Event>,
    post: FreeWiliUpdater,
    msgs: Seq<UpdateMessage>,
)
    requires
        pre.phase is Idle,
        spec_update(pre, events, post, msgs),
    ensures
        (post.phase is Failed && msgs.len() >= 1 && (msgs.last()
            matches UpdateMessage::Error(m) && m@ == uf2_error_text(pre))) ==> msgs.len() >= 2
            && msgs[msgs.len() - 2] == UpdateMessage::Progress(100i16),
{
    let (mid, first, rest, act) = choose|
        mid: FreeWiliUpdater,
        first: Seq<UpdateMessage>,
        rest: Seq<UpdateMessage>,
        act: Action,
    |
        #![all_triggers]
        {
            &&& spec_step_post(pre, Event::Start, mid, first, act)
            &&& msgs == first + rest
            &&& spec_run(mid, events, post, rest)
        };
    lemma_run_uf2_pairing(mid, events, post, rest);
    if post.phase is Failed {
        assert(rest.len() >= 1);
        assert(msgs.last() == rest.last());
        assert(uf2_error_text(mid) == uf2_error_text(pre));
        if msgs.last() matches UpdateMessage::Error(m) && m@ == uf2_error_text(pre) {
            assert(rest.len() >= 2);
            assert(msgs[msgs.len() - 2] == rest[rest.len() - 2]);
        }
    }
}

impl FreeWiliUpdater {
    /// Runs a whole update over a recorded run of events, as a caller
    /// driving [`FreeWiliUpdater::step`] would: the session is started,
    /// each recorded event is fed in turn (events the session is not
    /// waiting for are ignored), and the run stops at the terminal phase
    /// or at the end of the recording.
    ///
    /// The returned messages are every event emitted, in order.  A run
    /// emits at most one terminal event, always last; a run that reaches a
    /// terminal phase emits exactly one.  A successful run ends with
    /// `Complete` carrying the modeled elapsed time, never below the
    /// settle delay; a failed run ends with an `Error` event.
    pub fn update(&mut self, events: Vec<Event>) -> (msgs: Vec<UpdateMessage>)
        requires
            old(self).wf(),
            old(self).phase is Idle,
        ensures
            final(self).wf(),
            final(self).same_session(old(self)),
            terminal_count(msgs@) == if final(self).finished() {
                1int
            } else {
                0int
            },
            final(self).finished() ==> msgs@.len() >= 1 && msgs@.last().is_terminal(),
            forall|k: int|
                0 <= k < msgs@.len() && (#[trigger] msgs@[k]).is_terminal() ==> k == msgs@.len()
                    - 1,
            final(self).phase is Complete ==> (msgs@.last() matches UpdateMessage::Complete(d)
                && d == final(self).elapsed_ms && d >= final(self).config.settle_ms),
            final(self).phase is Failed ==> msgs@.last() is Error,
            spec_update(*old(self), events@, *final(self), msgs@),
    {
        let ghost pre0 = *self;
        let ghost orig = events@;
        let mut events = events;
        let step_r = self.step(Event::Start);
        let ghost mid0 = *self;
        let ghost m0 = step_r.0@;
        let ghost act0 = step_r.1;
        let mut msgs = step_r.0;
        let ghost mut k: int = 0;
        proof {
            lemma_terminal_only_last(msgs@);
            assert(orig.take(0) =~= Seq::<Event>::empty());
            assert(msgs@.skip(m0.len() as int) =~= Seq::<UpdateMessage>::empty());
            assert(msgs@.take(m0.len() as int) =~= m0);
            assert(orig.skip(0) =~= orig);
        }
        let mut done = self.is_finished();
        while !done && events.len() > 0
            invariant
                self.wf(),
                self.same_session(old(self)),
                done == self.finished(),
                terminal_count(msgs@) == if self.finished() {
                    1int
                } else {
                    0int
                },
                self.finished() ==> msgs@.len() >= 1 && msgs@.last().is_terminal(),
                forall|k2: int|
                    0 <= k2 < msgs@.len() && (#[trigger] msgs@[k2]).is_terminal() ==> k2
                        == msgs@.len() - 1,
                self.phase is Complete ==> (msgs@.last() matches UpdateMessage::Complete(d) && d
                    == self.elapsed_ms && d >= self.config.settle_ms),
                self.phase is Failed ==> msgs@.last() is Error,
                0 <= k <= orig.len(),
                events@ == orig.skip(k),
                msgs@.len() >= m0.len(),
                msgs@.take(m0.len() as int) == m0,
                spec_step_post(pre0, Event::Start, mid0, m0, act0),
                spec_run(mid0, orig.take(k), *self, msgs@.skip(m0.len() as int)),
            decreases events.len(),
        {
            let ghost cur = *self;
            let ev = events.remove(0);
            let ghost evg = ev;
            proof {
                assert(evg == orig[k]);
                assert(events@ =~= orig.skip(k + 1));
                assert(orig.take(k).push(evg) =~= orig.take(k + 1));
            }
            if self.expects_event(&ev) {
                let ghost pre_msgs = msgs@;
                let mut out = self.step(ev);
                let ghost stepped = out.0@;
                let ghost acts = out.1;
                msgs.append(&mut out.0);
                proof {
                    lemma_terminal_count_append(pre_msgs, stepped);
                    if self.finished() {
                        assert(stepped.len() >= 1);
                        assert(msgs@.last() == stepped.last());
                    }
                    lemma_terminal_only_last(msgs@);
                    assert(spec_step_post(cur, evg, *self, stepped, acts));
                    assert(spec_event_outcome(cur, evg, *self, stepped));
                    lemma_run_extend(
                        mid0,
                        orig.take(k),
                        cur,
                        pre_msgs.skip(m0.len() as int),
                        evg,
                        *self,
                        stepped,
                    );
                    assert(msgs@.skip(m0.len() as int) =~= pre_msgs.skip(m0.len() as int)
                        + stepped);
                    assert(msgs@.take(m0.len() as int) =~= m0);
                    k = k + 1;
                }
                done = self.is_finished();
            } else {
                proof {
                    assert(spec_event_outcome(*self, evg, *self, Seq::<UpdateMessage>::empty()));
                    lemma_run_extend(
                        mid0,
                        orig.take(k),
                        *self,
                        msgs@.skip(m0.len() as int),
                        evg,
                        *self,
                        Seq::<UpdateMessage>::empty(),
                    );
                    assert(msgs@.skip(m0.len() as int) + Seq::<UpdateMessage>::empty()
                        =~= msgs@.skip(m0.len() as int));
                    k = k + 1;
                }
            }
        }
        proof {
            if events@.len() == 0 {
                assert(k == orig.len());
                assert(orig.take(k) =~= orig);
            } else {
                lemma_run_finished_absorbs(
                    mid0,
                    orig.take(k),
                    *self,
                    msgs@.skip(m0.len() as int),
                    orig.skip(k),
                );
                assert(orig.take(k) + orig.skip(k) =~= orig);
            }
            assert(msgs@ =~= m0 + msgs@.skip(m0.len() as int));
        }
        msgs
    }
}

/// Reverses a job list into the stack the flashing stage pops from, so
/// that the earliest job is written first.
fn reverse_jobs(jobs: Vec<FlashJob>) -> (stack: Vec<FlashJob>)
    ensures
        stack@.len() == jobs@.len(),
        forall|k: int| 0 <= k < jobs@.len() ==> stack@[k] == jobs@[jobs@.len() - 1 - k],
{
    let mut jobs = jobs;
    let mut stack: Vec<FlashJob> = Vec::new();
    let ghost orig = jobs@;
    while jobs.len() > 0
        invariant
            stack@.len() + jobs@.len() == orig.len(),
            jobs@ == orig.take(jobs@.len() as int),
            forall|k: int| 0 <= k < stack@.len() ==> stack@[k] == orig[orig.len() - 1 - k],
        decreases jobs.len(),
    {
        let j = match jobs.pop() {
            Some(j) => j,
            None => unreached(),
        };
        stack.push(j);
        proof {
            assert(jobs@ =~= orig.take(jobs@.len() as int));
        }
    }
    stack
}

} // verus!
