//! The driver facade and the operation state machine: dispatching
//! command/allow/subscribe requests, enforcing that at most one erase or
//! write is outstanding system-wide, and relaying completion back to the
//! owning client's callback.
//!
//! The flash device is an external collaborator.  An accepted request is
//! returned as a [`FlashRequest`] for the caller to issue; the device's
//! immediate accept code is the syscall's result, and its asynchronous
//! completion is fed back through [`OpenskSyscall::write_done`] or
//! [`OpenskSyscall::erase_done`], which answer with a
//! [`CompletionAction`] for the caller to perform.

use vstd::prelude::*;
use std::collections::HashMap;
use crate::codes::{
    MAX_ERASE_COUNT, MAX_WRITE_COUNT, MAX_WRITE_LENGTH, PAGE_SIZE, ReturnCode, WORD_SIZE,
};
use crate::marshal::{marshal_into, words_of};

verus! {

broadcast use vstd::std_specs::hash::group_hash_axioms;

/// Per-client stored state: an optional completion callback handle and an
/// optional shared input buffer.  A record is created lazily the first
/// time a client touches the driver, and destroyed externally when the
/// client process terminates.
pub struct AppData {
    /// Handle of the callback the client subscribed for completion
    /// delivery, if any.  Taken (cleared) when a completion is delivered.
    pub callback: Option<u32>,
    /// Input buffer the client registered for its next write, if any.
    /// Taken (cleared) by `write` — one-shot consumption.
    pub slice: Option<Vec<u8>>,
}

/// A request that an accepted `write` or `erase` hands to the flash
/// device.
#[derive(Clone, Copy, Debug, PartialEq, Eq, Structural)]
pub enum FlashRequest {
    /// Write the words held in the driver's scratch buffer at indices
    /// `0 .. num_words`, starting at word address `word_offset`.
    Write { word_offset: usize, num_words: usize },
    /// Erase the page containing word address `word_offset`.
    Erase { word_offset: usize },
}

/// What one call of `command` asks its caller to do.
#[derive(Clone, Copy, Debug, PartialEq, Eq, Structural)]
pub enum CommandResult {
    /// The request was handled synchronously with this code.
    Done(ReturnCode),
    /// The request was accepted: issue the enclosed request to the flash
    /// device and return the device's immediate code to the client.
    Issue(FlashRequest),
}

/// Delivery decision for one completion, after the driver has released
/// exclusivity.
#[derive(Clone, Copy, Debug, PartialEq, Eq, Structural)]
pub enum CompletionAction {
    /// Schedule the owner's callback with the device status; the two
    /// reserved fields are always zero, kept for the fixed three-argument
    /// callback shape of the calling convention.
    Notify { callback: u32, status: ReturnCode, reserved0: usize, reserved1: usize },
    /// The owner never subscribed a callback; the status is dropped.
    NoCallback,
}

/// An unrecoverable protocol violation by an external collaborator,
/// surfaced as an explicit error instead of halting the system.
#[derive(Clone, Copy, Debug, PartialEq, Eq, Structural)]
pub enum FatalError {
    /// The device reported a completion while no operation was pending.
    CompletionWhileIdle,
    /// The pending owner's record vanished before its completion was
    /// delivered.
    OwnerRecordMissing,
}

/// The flash syscall driver: request validation, byte-to-word
/// marshalling, the single-outstanding-operation gate, and completion
/// relay.
pub struct OpenskSyscall {
    /// The exclusivity marker: `None` when idle, `Some(client)` while that
    /// client's operation is outstanding.
    app: Option<u32>,
    /// The single fixed-capacity scratch word buffer shared by all write
    /// operations; written only between a successful claim and the
    /// matching completion.
    write_buffer: Vec<u32>,
    /// One record per client, keyed by client identity.
    grant: HashMap<u32, AppData>,
}

/// Write arguments are valid when the byte offset is word-aligned, the
/// buffer is a whole number of words, and the word count fits the scratch
/// buffer.
pub open spec fn write_args_valid(byte_offset: usize, len: nat) -> bool {
    &&& byte_offset % WORD_SIZE == 0
    &&& len % (WORD_SIZE as nat) == 0
    &&& len / (WORD_SIZE as nat) <= MAX_WRITE_LENGTH
}

/// An erase offset is valid when it is page-aligned.
pub open spec fn erase_arg_valid(byte_offset: usize) -> bool {
    byte_offset % PAGE_SIZE == 0
}

/// The fixed metadata table served by `query`: the answer depends on the
/// selector alone, never on driver state or caller identity.
pub open spec fn query_answer(selector: usize) -> ReturnCode {
    if selector == 0 {
        ReturnCode::SuccessWithValue { value: WORD_SIZE }
    } else if selector == 1 {
        ReturnCode::SuccessWithValue { value: PAGE_SIZE }
    } else if selector == 2 {
        ReturnCode::SuccessWithValue { value: MAX_WRITE_COUNT }
    } else if selector == 3 {
        ReturnCode::SuccessWithValue { value: MAX_ERASE_COUNT }
    } else if selector == 4 {
        ReturnCode::SuccessWithValue { value: (MAX_WRITE_LENGTH * WORD_SIZE) as usize }
    } else {
        ReturnCode::InvalidArgument
    }
}

/// One step of the exclusivity compare-and-set: from marker state
/// `pending`, client `c` tries to claim the flash; yields the new marker
/// and whether the claim succeeded.
pub open spec fn try_start_step(pending: Option<u32>, c: u32) -> (Option<u32>, bool) {
    match pending {
        Option::Some(_) => (pending, false),
        Option::None => (Option::Some(c), true),
    }
}

/// Everything `write` guarantees: one-shot consumption of the registered
/// buffer, validation before any marker or scratch mutation, the busy
/// gate, and on acceptance the marshalled scratch contents and the issued
/// device request.
pub open spec fn write_post(
    pre: OpenskSyscall,
    post: OpenskSyscall,
    byte_offset: usize,
    client: u32,
    r: CommandResult,
) -> bool {
    // The client's registered buffer is consumed whatever the outcome; its
    // record exists afterwards and no other record changes.
    &&& post.records() == pre.records().insert(
        client,
        (AppData { callback: pre.callback_of(client), slice: Option::None }),
    )
    &&& match pre.slice_of(client) {
        Option::None => {
            &&& r == CommandResult::Done(ReturnCode::InvalidArgument)
            &&& post.pending_op() == pre.pending_op()
            &&& post.scratch() == pre.scratch()
        },
        Option::Some(buf) => {
            if !write_args_valid(byte_offset, buf@.len()) {
                &&& r == CommandResult::Done(ReturnCode::InvalidArgument)
                &&& post.pending_op() == pre.pending_op()
                &&& post.scratch() == pre.scratch()
            } else if pre.pending_op() is Some {
                &&& r == CommandResult::Done(ReturnCode::Busy)
                &&& post.pending_op() == pre.pending_op()
                &&& post.scratch() == pre.scratch()
            } else {
                let n = buf@.len() / (WORD_SIZE as nat);
                &&& r == CommandResult::Issue(
                    (FlashRequest::Write {
                        word_offset: byte_offset / WORD_SIZE,
                        num_words: n as usize,
                    }),
                )
                &&& post.pending_op() == Option::Some(client)
                &&& post.scratch().subrange(0, n as int) == words_of(buf@)
                &&& post.scratch().skip(n as int) == pre.scratch().skip(n as int)
            }
        },
    }
}

/// Everything `erase` guarantees: page-alignment validation before any
/// mutation, the busy gate, and on acceptance the issued device request.
pub open spec fn erase_post(
    pre: OpenskSyscall,
    post: OpenskSyscall,
    byte_offset: usize,
    client: u32,
    r: CommandResult,
) -> bool {
    if !erase_arg_valid(byte_offset) {
        &&& r == CommandResult::Done(ReturnCode::InvalidArgument)
        &&& post.pending_op() == pre.pending_op()
        &&& post.scratch() == pre.scratch()
        &&& post.records() == pre.records()
    } else if pre.pending_op() is Some {
        &&& r == CommandResult::Done(ReturnCode::Busy)
        &&& post.pending_op() == pre.pending_op()
        &&& post.scratch() == pre.scratch()
        &&& post.records() == pre.records()
    } else {
        // Accepting the operation is the client's first touch of the
        // driver if it never registered anything: its record now exists,
        // so only its later disappearance can make completion fatal.
        &&& r == CommandResult::Issue(
            (FlashRequest::Erase { word_offset: byte_offset / WORD_SIZE }),
        )
        &&& post.pending_op() == Option::Some(client)
        &&& post.scratch() == pre.scratch()
        &&& post.records() == pre.records().insert(
            client,
            (AppData { callback: pre.callback_of(client), slice: pre.slice_of(client) }),
        )
    }
}

/// Everything completion guarantees: release of exclusivity, the one-shot
/// take of the owner's callback, and the two protocol violations surfaced
/// as explicit fatal errors.
pub open spec fn complete_post(
    pre: OpenskSyscall,
    post: OpenskSyscall,
    status: ReturnCode,
    r: Result<CompletionAction, FatalError>,
) -> bool {
    match pre.pending_op() {
        Option::None => {
            &&& r == Result::<CompletionAction, FatalError>::Err(FatalError::CompletionWhileIdle)
            &&& post == pre
        },
        Option::Some(owner) => {
            &&& post.pending_op() is None
            &&& post.scratch() == pre.scratch()
            &&& if !pre.records().contains_key(owner) {
                &&& r == Result::<CompletionAction, FatalError>::Err(
                    FatalError::OwnerRecordMissing,
                )
                &&& post.records() == pre.records()
            } else {
                &&& post.records() == pre.records().insert(
                    owner,
                    (AppData {
                        callback: Option::None,
                        slice: pre.records()[owner].slice,
                    }),
                )
                &&& match pre.records()[owner].callback {
                    Option::Some(cb) => r == Result::<CompletionAction, FatalError>::Ok(
                        (CompletionAction::Notify {
                            callback: cb,
                            status: status,
                            reserved0: 0,
                            reserved1: 0,
                        }),
                    ),
                    Option::None => r == Result::<CompletionAction, FatalError>::Ok(
                        CompletionAction::NoCallback,
                    ),
                }
            }
        },
    }
}

impl OpenskSyscall {
    /// The exclusivity marker: owner of the pending operation, if any.
    pub closed spec fn pending_op(self) -> Option<u32> {
        self.app
    }

    /// Contents of the shared scratch word buffer.
    pub closed spec fn scratch(self) -> Seq<u32> {
        self.write_buffer@
    }

    /// The client record store, as a map from client identity to record.
    pub closed spec fn records(self) -> Map<u32, AppData> {
        self.grant@
    }

    /// The callback registered for `client`: `None` when the client has no
    /// record or never subscribed.
    pub open spec fn callback_of(self, client: u32) -> Option<u32> {
        if self.records().contains_key(client) {
            self.records()[client].callback
        } else {
            Option::None
        }
    }

    /// The input buffer registered for `client`: `None` when the client
    /// has no record or no buffer is registered.
    pub open spec fn slice_of(self, client: u32) -> Option<Vec<u8>> {
        if self.records().contains_key(client) {
            self.records()[client].slice
        } else {
            Option::None
        }
    }

    /// Well-formed driver state: the scratch buffer has its full fixed
    /// capacity.
    pub open spec fn wf(self) -> bool {
        self.scratch().len() == MAX_WRITE_LENGTH
    }

    /// A fresh driver: idle, scratch buffer zeroed, no client records.
    pub fn new() -> (d: OpenskSyscall)
        ensures
            d.wf(),
            d.pending_op() is None,
            d.records() == Map::<u32, AppData>::empty(),
            d.scratch() == Seq::new(MAX_WRITE_LENGTH as nat, |i: int| 0u32),
    {
        let mut buffer: Vec<u32> = Vec::new();
        while buffer.len() < MAX_WRITE_LENGTH
            invariant
                buffer@.len() <= MAX_WRITE_LENGTH,
                forall|i: int| 0 <= i < buffer@.len() ==> buffer@[i] == 0u32,
            decreases MAX_WRITE_LENGTH - buffer.len(),
        {
            buffer.push(0u32);
        }
        proof {
            assert(buffer@ =~= Seq::new(MAX_WRITE_LENGTH as nat, |i: int| 0u32));
        }
        OpenskSyscall { app: Option::None, write_buffer: buffer, grant: HashMap::new() }
    }

    /// The single authoritative compare-and-set of the exclusivity marker.
    fn start(&mut self, app_id: u32) -> (ok: bool)
        ensures
            (final(self).pending_op(), ok) == try_start_step(old(self).pending_op(), app_id),
            final(self).scratch() == old(self).scratch(),
            final(self).records() == old(self).records(),
    {
        if self.app.is_some() {
            return false;
        }
        self.app = Option::Some(app_id);
        true
    }

    /// Validates and marshals the client's buffer, claims the flash, and
    /// on success returns the device write request to issue.
    fn write_slice(&mut self, app_id: u32, ptr: usize, slice: &Vec<u8>) -> (r: CommandResult)
        requires
            old(self).wf(),
        ensures
            final(self).wf(),
            final(self).records() == old(self).records(),
            ({
                if !write_args_valid(ptr, slice@.len()) {
                    &&& r == CommandResult::Done(ReturnCode::InvalidArgument)
                    &&& final(self).pending_op() == old(self).pending_op()
                    &&& final(self).scratch() == old(self).scratch()
                } else if old(self).pending_op() is Some {
                    &&& r == CommandResult::Done(ReturnCode::Busy)
                    &&& final(self).pending_op() == old(self).pending_op()
                    &&& final(self).scratch() == old(self).scratch()
                } else {
                    let n = slice@.len() / (WORD_SIZE as nat);
                    &&& r == CommandResult::Issue(
                        (FlashRequest::Write {
                            word_offset: ptr / WORD_SIZE,
                            num_words: n as usize,
                        }),
                    )
                    &&& final(self).pending_op() == Option::Some(app_id)
                    &&& final(self).scratch().subrange(0, n as int) == words_of(slice@)
                    &&& final(self).scratch().skip(n as int) == old(self).scratch().skip(n as int)
                }
            }),
    {
        let data_length = slice.len() / WORD_SIZE;
        if ptr % WORD_SIZE != 0 || slice.len() % WORD_SIZE != 0 || data_length > MAX_WRITE_LENGTH {
            return CommandResult::Done(ReturnCode::InvalidArgument);
        }
        if !self.start(app_id) {
            return CommandResult::Done(ReturnCode::Busy);
        }
        let count = marshal_into(&mut self.write_buffer, slice);
        CommandResult::Issue(FlashRequest::Write { word_offset: ptr / WORD_SIZE, num_words: count })
    }

    /// Validates the page alignment, claims the flash, and on success
    /// returns the device erase request to issue.
    fn erase_page(&mut self, app_id: u32, ptr: usize) -> (r: CommandResult)
        ensures
            erase_post(*old(self), *final(self), ptr, app_id, r),
    {
        if ptr % PAGE_SIZE != 0 {
            return CommandResult::Done(ReturnCode::InvalidArgument);
        }
        if !self.start(app_id) {
            return CommandResult::Done(ReturnCode::Busy);
        }
        // First touch by this client: make sure its record exists, so that
        // completion finds one unless the client dies in between.
        let (callback, slice) = match self.grant.remove(&app_id) {
            Option::Some(data) => (data.callback, data.slice),
            Option::None => (Option::None, Option::None),
        };
        self.grant.insert(app_id, AppData { callback, slice });
        proof {
            assert(self.grant@ =~= old(self).grant@.insert(
                app_id,
                AppData {
                    callback: old(self).callback_of(app_id),
                    slice: old(self).slice_of(app_id),
                },
            ));
        }
        CommandResult::Issue(FlashRequest::Erase { word_offset: ptr / WORD_SIZE })
    }

    /// Releases exclusivity and decides how the completion status reaches
    /// the owner.
    fn done(&mut self, status: ReturnCode) -> (r: Result<CompletionAction, FatalError>)
        ensures
            complete_post(*old(self), *final(self), status, r),
    {
        let owner = match self.app {
            Option::None => {
                return Result::Err(FatalError::CompletionWhileIdle);
            },
            Option::Some(a) => a,
        };
        self.app = Option::None;
        match self.grant.remove(&owner) {
            Option::None => {
                proof {
                    assert(self.grant@ =~= old(self).grant@);
                }
                Result::Err(FatalError::OwnerRecordMissing)
            },
            Option::Some(data) => {
                let callback = data.callback;
                self.grant.insert(owner, AppData { callback: Option::None, slice: data.slice });
                proof {
                    assert(self.grant@ =~= old(self).grant@.insert(
                        owner,
                        AppData { callback: Option::None, slice: old(self).grant@[owner].slice },
                    ));
                }
                match callback {
                    Option::Some(cb) => Result::Ok(
                        CompletionAction::Notify {
                            callback: cb,
                            status: status,
                            reserved0: 0,
                            reserved1: 0,
                        },
                    ),
                    Option::None => Result::Ok(CompletionAction::NoCallback),
                }
            },
        }
    }

    /// Dispatches one command-selector request from `app_id`: capability
    /// probe, metadata query, write, or erase.
    pub fn command(&mut self, cmd: usize, arg: usize, app_id: u32) -> (r: CommandResult)
        requires
            old(self).wf(),
        ensures
            final(self).wf(),
            cmd == 0 ==> r == CommandResult::Done(ReturnCode::Success) && *final(self) == *old(
                self,
            ),
            cmd == 1 ==> r == CommandResult::Done(query_answer(arg)) && *final(self) == *old(self),
            cmd == 2 ==> write_post(*old(self), *final(self), arg, app_id, r),
            cmd == 3 ==> erase_post(*old(self), *final(self), arg, app_id, r),
            cmd > 3 ==> r == CommandResult::Done(ReturnCode::Unsupported) && *final(self) == *old(
                self,
            ),
    {
        if cmd == 0 {
            return CommandResult::Done(ReturnCode::Success);
        }
        if cmd == 1 {
            let code = if arg == 0 {
                ReturnCode::SuccessWithValue { value: WORD_SIZE }
            } else if arg == 1 {
                ReturnCode::SuccessWithValue { value: PAGE_SIZE }
            } else if arg == 2 {
                ReturnCode::SuccessWithValue { value: MAX_WRITE_COUNT }
            } else if arg == 3 {
                ReturnCode::SuccessWithValue { value: MAX_ERASE_COUNT }
            } else if arg == 4 {
                ReturnCode::SuccessWithValue { value: MAX_WRITE_LENGTH * WORD_SIZE }
            } else {
                ReturnCode::InvalidArgument
            };
            return CommandResult::Done(code);
        }
        if cmd == 2 {
            // Take the registered buffer — one-shot consumption, before
            // validation, as the record's access pattern prescribes.
            let (callback, slice_opt) = match self.grant.remove(&app_id) {
                Option::Some(data) => (data.callback, data.slice),
                Option::None => (Option::None, Option::None),
            };
            self.grant.insert(app_id, AppData { callback, slice: Option::None });
            proof {
                assert(self.grant@ =~= old(self).grant@.insert(
                    app_id,
                    AppData { callback: old(self).callback_of(app_id), slice: Option::None },
                ));
            }
            let buf = match slice_opt {
                Option::None => {
                    return CommandResult::Done(ReturnCode::InvalidArgument);
                },
                Option::Some(b) => b,
            };
            return self.write_slice(app_id, arg, &buf);
        }
        if cmd == 3 {
            return self.erase_page(app_id, arg);
        }
        CommandResult::Done(ReturnCode::Unsupported)
    }

    /// Stores `slice` as the client's registered input buffer,
    /// overwriting any previous registration.
    pub fn allow(&mut self, app_id: u32, cmd: usize, slice: Option<Vec<u8>>) -> (r: ReturnCode)
        ensures
            final(self).pending_op() == old(self).pending_op(),
            final(self).scratch() == old(self).scratch(),
            cmd == 0 ==> r == ReturnCode::Success && final(self).records() == old(
                self,
            ).records().insert(
                app_id,
                (AppData { callback: old(self).callback_of(app_id), slice: slice }),
            ),
            cmd != 0 ==> r == ReturnCode::Unsupported && *final(self) == *old(self),
    {
        if cmd != 0 {
            return ReturnCode::Unsupported;
        }
        let callback = match self.grant.remove(&app_id) {
            Option::Some(data) => data.callback,
            Option::None => Option::None,
        };
        self.grant.insert(app_id, AppData { callback, slice });
        proof {
            assert(self.grant@ =~= old(self).grant@.insert(
                app_id,
                AppData { callback: old(self).callback_of(app_id), slice: slice },
            ));
        }
        ReturnCode::Success
    }

    /// Stores `callback` as the client's completion callback, overwriting
    /// any previous subscription.
    pub fn subscribe(&mut self, cmd: usize, callback: Option<u32>, app_id: u32) -> (r: ReturnCode)
        ensures
            final(self).pending_op() == old(self).pending_op(),
            final(self).scratch() == old(self).scratch(),
            cmd == 0 ==> r == ReturnCode::Success && final(self).records() == old(
                self,
            ).records().insert(
                app_id,
                (AppData { callback: callback, slice: old(self).slice_of(app_id) }),
            ),
            cmd != 0 ==> r == ReturnCode::Unsupported && *final(self) == *old(self),
    {
        if cmd != 0 {
            return ReturnCode::Unsupported;
        }
        let slice = match self.grant.remove(&app_id) {
            Option::Some(data) => data.slice,
            Option::None => Option::None,
        };
        self.grant.insert(app_id, AppData { callback, slice });
        proof {
            assert(self.grant@ =~= old(self).grant@.insert(
                app_id,
                AppData { callback: callback, slice: old(self).slice_of(app_id) },
            ));
        }
        ReturnCode::Success
    }

    /// Completion entry point for an erase: the device reports `status`.
    pub fn erase_done(&mut self, status: ReturnCode) -> (r: Result<CompletionAction, FatalError>)
        ensures
            complete_post(*old(self), *final(self), status, r),
    {
        self.done(status)
    }

    /// Completion entry point for a write: the device reports `status`
    /// and, by returning, is done touching the scratch buffer.
    pub fn write_done(&mut self, status: ReturnCode) -> (r: Result<CompletionAction, FatalError>)
        ensures
            complete_post(*old(self), *final(self), status, r),
    {
        self.done(status)
    }

    /// The client process terminated: its record is destroyed.  The
    /// driver tolerates this happening between operation start and
    /// completion; the completion then surfaces `OwnerRecordMissing`.
    pub fn remove_client(&mut self, app_id: u32)
        ensures
            final(self).pending_op() == old(self).pending_op(),
            final(self).scratch() == old(self).scratch(),
            final(self).records() == old(self).records().remove(app_id),
    {
        self.grant.remove(&app_id);
    }

    /// The current owner of the pending operation, if any.
    pub fn pending_owner(&self) -> (r: Option<u32>)
        ensures
            r == self.pending_op(),
    {
        self.app
    }

    /// Word `i` of the shared scratch buffer.
    pub fn scratch_word(&self, i: usize) -> (w: u32)
        requires
            i < self.scratch().len(),
        ensures
            w == self.scratch()[i as int],
    {
        self.write_buffer[i]
    }
}

/// Law: a write request answered synchronously — rejected as invalid or
/// busy — changes neither the exclusivity marker nor the scratch buffer;
/// only the one-shot consumption of the registered buffer remains.
pub proof fn lemma_rejected_write_changes_no_state(
    pre: OpenskSyscall,
    post: OpenskSyscall,
    byte_offset: usize,
    client: u32,
    r: CommandResult,
    code: ReturnCode,
)
    requires
        write_post(pre, post, byte_offset, client, r),
        r == CommandResult::Done(code),
    ensures
        post.pending_op() == pre.pending_op(),
        post.scratch() == pre.scratch(),
{
}

/// Law: an erase request answered synchronously — rejected as invalid or
/// busy — changes nothing at all.
pub proof fn lemma_rejected_erase_changes_no_state(
    pre: OpenskSyscall,
    post: OpenskSyscall,
    byte_offset: usize,
    client: u32,
    r: CommandResult,
    code: ReturnCode,
)
    requires
        erase_post(pre, post, byte_offset, client, r),
        r == CommandResult::Done(code),
    ensures
        post.pending_op() == pre.pending_op(),
        post.scratch() == pre.scratch(),
        post.records() == pre.records(),
{
}

/// Law: while any operation is pending, a write attempt by any client
/// `b` — the owner included — with a registered, fully valid buffer is
/// refused as `Busy`; the marker keeps its owner and the scratch buffer
/// its contents, so no device write is issued for `b`.
pub proof fn lemma_write_busy_while_pending(
    pre: OpenskSyscall,
    post: OpenskSyscall,
    byte_offset: usize,
    b: u32,
    buf: Vec<u8>,
    r: CommandResult,
)
    requires
        pre.pending_op() is Some,
        pre.slice_of(b) == Option::Some(buf),
        write_args_valid(byte_offset, buf@.len()),
        write_post(pre, post, byte_offset, b, r),
    ensures
        r == CommandResult::Done(ReturnCode::Busy),
        post.pending_op() == pre.pending_op(),
        post.scratch() == pre.scratch(),
{
}

/// Law: while any operation is pending, a page-aligned erase attempt by
/// any client `b` — the owner included — is refused as `Busy` and changes
/// nothing, so no device erase is issued for `b`.
pub proof fn lemma_erase_busy_while_pending(
    pre: OpenskSyscall,
    post: OpenskSyscall,
    byte_offset: usize,
    b: u32,
    r: CommandResult,
)
    requires
        pre.pending_op() is Some,
        erase_arg_valid(byte_offset),
        erase_post(pre, post, byte_offset, b, r),
    ensures
        r == CommandResult::Done(ReturnCode::Busy),
        post.pending_op() == pre.pending_op(),
        post.scratch() == pre.scratch(),
        post.records() == pre.records(),
{
}

/// Law: delivering the pending operation's completion returns the marker
/// to idle, whether or not the delivery itself succeeds.
pub proof fn lemma_completion_releases_exclusivity(
    pre: OpenskSyscall,
    post: OpenskSyscall,
    status: ReturnCode,
    r: Result<CompletionAction, FatalError>,
)
    requires
        pre.pending_op() is Some,
        complete_post(pre, post, status, r),
    ensures
        post.pending_op() is None,
{
}

/// Law: an idle marker accepts the next valid request — here an erase —
/// and hands the flash to whichever client made it.
pub proof fn lemma_idle_accepts_next_operation(
    pre: OpenskSyscall,
    post: OpenskSyscall,
    byte_offset: usize,
    b: u32,
    r: CommandResult,
)
    requires
        pre.pending_op() is None,
        erase_arg_valid(byte_offset),
        erase_post(pre, post, byte_offset, b, r),
    ensures
        r == CommandResult::Issue(
            (FlashRequest::Erase { word_offset: byte_offset / WORD_SIZE }),
        ),
        post.pending_op() == Option::Some(b),
{
}

} // verus!
