use vstd::prelude::*;

use crate::channel::{answer_channel, post, wait_for};
use crate::error::Error;
use crate::hotkey::HotKey;
use crate::x11::{register_outcome, RegisterAnswer};

verus! {

/// A request to the thread that owns the native connection. Each request
/// that carries a sender gets exactly one answer on it.
pub enum WorkerRequest {
    Register(HotKey, crossbeam_channel::Sender<RegisterAnswer>),
    /// Answered once the combination is released; unregistering cannot fail.
    UnRegister(HotKey, crossbeam_channel::Sender<()>),
    /// Close the connection and end the thread.
    DropThread,
}

/// What a request to register `hotkey` comes to, given the worker's
/// answer: that answer where it is about `hotkey`, success where no answer
/// came (the worker is gone) or where it is about another hotkey.
pub fn answer_outcome(hotkey: HotKey, answer: Option<RegisterAnswer>) -> (r: Result<(), Error>)
    ensures
        register_outcome(hotkey, r),
        match answer {
            Some(a) => if a.hotkey() == hotkey {
                r == a.result()
            } else {
                r is Ok
            },
            None => r is Ok,
        },
{
    match answer {
        Some(a) => {
            let (h, result) = a.into_parts();
            if h.mods == hotkey.mods && h.key == hotkey.key && h.id == hotkey.id {
                result
            } else {
                Ok(())
            }
        },
        None => Ok(()),
    }
}

/// The operations that every platform's hotkey backend offers.
pub trait HotKeyBackend {
    /// Whether `r` is an outcome that registering `hotkey` can have on this
    /// backend.
    spec fn registered(&self, hotkey: HotKey, r: Result<(), Error>) -> bool;

    /// Whether `r` is an outcome that unregistering `hotkey` can have on
    /// this backend.
    spec fn unregistered(&self, hotkey: HotKey, r: Result<(), Error>) -> bool;

    fn register(&self, hotkey: HotKey) -> (r: Result<(), Error>)
        ensures
            self.registered(hotkey, r),
    ;

    fn unregister(&self, hotkey: HotKey) -> (r: Result<(), Error>)
        ensures
            self.unregistered(hotkey, r),
    ;
}

/// Registers the hotkeys in order, and stops at the first error, which it
/// returns.
pub fn register_each<B: HotKeyBackend>(backend: &B, hotkeys: &[HotKey]) -> (r: Result<(), Error>)
    ensures
        hotkeys@.len() == 0 ==> r is Ok,
        r is Ok ==> forall|j: int|
            0 <= j < hotkeys@.len() ==> backend.registered(#[trigger] hotkeys@[j], Ok(())),
        r is Err ==> exists|k: int|
            0 <= k < hotkeys@.len() && backend.registered(hotkeys@[k], r) && forall|j: int|
                0 <= j < k ==> backend.registered(#[trigger] hotkeys@[j], Ok(())),
{
    let mut i: usize = 0;
    while i < hotkeys.len()
        invariant
            i <= hotkeys@.len(),
            forall|j: int| 0 <= j < i ==> backend.registered(#[trigger] hotkeys@[j], Ok(())),
        decreases hotkeys@.len() - i,
    {
        let r = backend.register(hotkeys[i]);
        let ghost outcome = r;
        match r {
            Ok(u) => {
                assert(outcome == Ok::<(), Error>(u));
            },
            Err(_) => {
                return r;
            },
        }
        i = i + 1;
    }
    Ok(())
}

/// Unregisters the hotkeys in order, and stops at the first error, which it
/// returns.
pub fn unregister_each<B: HotKeyBackend>(backend: &B, hotkeys: &[HotKey]) -> (r: Result<(), Error>)
    ensures
        hotkeys@.len() == 0 ==> r is Ok,
        r is Ok ==> forall|j: int|
            0 <= j < hotkeys@.len() ==> backend.unregistered(#[trigger] hotkeys@[j], Ok(())),
        r is Err ==> exists|k: int|
            0 <= k < hotkeys@.len() && backend.unregistered(hotkeys@[k], r) && forall|j: int|
                0 <= j < k ==> backend.unregistered(#[trigger] hotkeys@[j], Ok(())),
{
    let mut i: usize = 0;
    while i < hotkeys.len()
        invariant
            i <= hotkeys@.len(),
            forall|j: int| 0 <= j < i ==> backend.unregistered(#[trigger] hotkeys@[j], Ok(())),
        decreases hotkeys@.len() - i,
    {
        let r = backend.unregister(hotkeys[i]);
        let ghost outcome = r;
        match r {
            Ok(u) => {
                assert(outcome == Ok::<(), Error>(u));
            },
            Err(_) => {
                return r;
            },
        }
        i = i + 1;
    }
    Ok(())
}

/// Registers hotkeys through a worker thread, which owns the native
/// connection and the table of grabs; each call waits for the worker's
/// answer.
pub struct GlobalHotKeyManager {
    thread_tx: crossbeam_channel::Sender<WorkerRequest>,
}

impl GlobalHotKeyManager {
    /// A manager whose requests go to the worker reading the other end of
    /// `thread_tx`.
    pub fn new(thread_tx: crossbeam_channel::Sender<WorkerRequest>) -> (r: GlobalHotKeyManager)
        ensures
            r.requests() == thread_tx,
    {
        GlobalHotKeyManager { thread_tx }
    }

    /// The sender that the manager's requests go through.
    pub closed spec fn requests(&self) -> crossbeam_channel::Sender<WorkerRequest> {
        self.thread_tx
    }

    /// Asks the worker to register `hotkey`, and gives its answer: success,
    /// `AlreadyRegistered(hotkey)` where the combination is taken, or
    /// `FailedToRegister` with its message where the key has no keysym.
    pub fn register(&self, hotkey: HotKey) -> (r: Result<(), Error>)
        ensures
            register_outcome(hotkey, r),
    {
        let (tx, rx) = answer_channel();
        let _ = post(&self.thread_tx, WorkerRequest::Register(hotkey, tx));
        answer_outcome(hotkey, wait_for(&rx))
    }

    /// Asks the worker to unregister `hotkey` and waits until it is done.
    /// Unregistering succeeds whether `hotkey` was registered or not.
    pub fn unregister(&self, hotkey: HotKey) -> (r: Result<(), Error>)
        ensures
            r is Ok,
    {
        let (tx, rx) = answer_channel();
        let _ = post(&self.thread_tx, WorkerRequest::UnRegister(hotkey, tx));
        let _ = wait_for(&rx);
        Ok(())
    }

    /// Registers the hotkeys in order, and stops at the first error, which
    /// it returns: the `AlreadyRegistered` or `FailedToRegister` error of
    /// one of the hotkeys.
    pub fn register_all(&self, hotkeys: &[HotKey]) -> (r: Result<(), Error>)
        ensures
            hotkeys@.len() == 0 ==> r is Ok,
            r is Err ==> exists|k: int| 0 <= k < hotkeys@.len() && register_outcome(hotkeys@[k], r),
    {
        register_each(self, hotkeys)
    }

    /// Unregisters the hotkeys in order; as each unregistration succeeds,
    /// so does the whole.
    pub fn unregister_all(&self, hotkeys: &[HotKey]) -> (r: Result<(), Error>)
        ensures
            r is Ok,
    {
        unregister_each(self, hotkeys)
    }

    /// Asks the worker to close the connection and end.
    pub fn shutdown(&self) {
        let _ = post(&self.thread_tx, WorkerRequest::DropThread);
    }
}

/// The worker answers each request: a registration as its verified steps
/// allow, an unregistration always with success.
impl HotKeyBackend for GlobalHotKeyManager {
    open spec fn registered(&self, hotkey: HotKey, r: Result<(), Error>) -> bool {
        register_outcome(hotkey, r)
    }

    open spec fn unregistered(&self, hotkey: HotKey, r: Result<(), Error>) -> bool {
        r is Ok
    }

    fn register(&self, hotkey: HotKey) -> (r: Result<(), Error>) {
        GlobalHotKeyManager::register(self, hotkey)
    }

    fn unregister(&self, hotkey: HotKey) -> (r: Result<(), Error>) {
        GlobalHotKeyManager::unregister(self, hotkey)
    }
}

} // verus!
