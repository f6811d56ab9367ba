use vstd::prelude::*;

use std::sync::mpsc::{Receiver, Sender};

verus! {

#[verifier::external_type_specification]
#[verifier::external_body]
#[verifier::reject_recursive_types(T)]
pub struct ExSender<T>(std::sync::mpsc::Sender<T>);

#[verifier::external_type_specification]
#[verifier::external_body]
#[verifier::reject_recursive_types(T)]
pub struct ExReceiver<T>(std::sync::mpsc::Receiver<T>);

/// Relies on `std::sync::mpsc::channel`: a new channel, its two ends.
#[verifier::external_body]
fn new_channel<T>() -> (Sender<T>, Receiver<T>) {
    std::sync::mpsc::channel()
}

/// Relies on `Receiver::try_recv`: a value sent on the channel and not yet
/// taken, if there is one. Whether there is depends on the sending side.
#[verifier::external_body]
fn try_take<T>(r: &Receiver<T>) -> Option<T> {
    r.try_recv().ok()
}

/// The number of a device's own event, among the events of that device.
pub type DeviceEventT = u16;

/// What a readiness token stands for.
#[derive(Clone, Copy, Debug, PartialEq, Eq, Structural)]
pub enum EpollDispatch {
    Exit,
    Stdin,
    DeviceHandler(usize, DeviceEventT),
    VmmActionRequest,
    WriteMetrics,
}

/// Why a handler could not be had.
#[derive(Clone, Copy, Debug, PartialEq, Eq, Structural)]
pub enum DispatchError {
    /// The device's handler has not been sent yet.
    HandlerNotReady,
}

/// A device's handler, installed from its channel on the device's first
/// event.
#[verifier::reject_recursive_types(H)]
pub struct MaybeHandler<H> {
    handler: Option<H>,
    receiver: Receiver<H>,
}

impl<H> MaybeHandler<H> {
    pub fn new(receiver: Receiver<H>) -> (r: Self)
        ensures
            !r.is_installed(),
    {
        MaybeHandler { handler: None, receiver }
    }

    pub closed spec fn is_installed(&self) -> bool {
        self.handler is Some
    }
}

/// A registered readiness source: the descriptor and its token.
pub struct EpollEvent<T> {
    pub dispatch_index: u64,
    pub fd: T,
}

/// The dispatch table: token `i` stands for `dispatch_table[i]`, a removed
/// source leaves an empty slot. Slot `stdin_index` is kept for standard input.
#[verifier::reject_recursive_types(H)]
pub struct EpollContext<H> {
    stdin_index: usize,
    dispatch_table: Vec<Option<EpollDispatch>>,
    device_handlers: Vec<MaybeHandler<H>>,
}

/// The table after a source with `token` is added.
pub open spec fn add_event_spec(t: Seq<Option<EpollDispatch>>, token: EpollDispatch) -> Seq<
    Option<EpollDispatch>,
> {
    t.push(Some(token))
}

/// The table after the source at `index` is removed.
pub open spec fn remove_event_spec(t: Seq<Option<EpollDispatch>>, index: int) -> Seq<
    Option<EpollDispatch>,
> {
    t.update(index, None)
}

/// The table after `count` tokens are reserved for device `device_idx`.
pub open spec fn allocate_spec(t: Seq<Option<EpollDispatch>>, device_idx: usize, count: usize) -> Seq<
    Option<EpollDispatch>,
> {
    t + Seq::new(
        count as nat,
        |x: int| Some(EpollDispatch::DeviceHandler(device_idx, x as DeviceEventT)),
    )
}

/// Adding a source and then removing it leaves an empty slot at its token
/// and every other slot as it was.
pub proof fn lemma_add_then_remove(t: Seq<Option<EpollDispatch>>, token: EpollDispatch)
    ensures
        ({
            let after = remove_event_spec(add_event_spec(t, token), t.len() as int);
            &&& after.len() == t.len() + 1
            &&& after[t.len() as int] is None
            &&& after.subrange(0, t.len() as int) == t
        }),
{
    let after = remove_event_spec(add_event_spec(t, token), t.len() as int);
    assert(after.subrange(0, t.len() as int) =~= t);
}

impl<H> EpollContext<H> {
    pub closed spec fn table(&self) -> Seq<Option<EpollDispatch>> {
        self.dispatch_table@
    }

    pub closed spec fn stdin_slot(&self) -> int {
        self.stdin_index as int
    }

    pub closed spec fn handler_count(&self) -> nat {
        self.device_handlers@.len()
    }

    pub closed spec fn installed(&self, i: int) -> bool {
        self.device_handlers@[i].handler is Some
    }

    pub closed spec fn handler_at(&self, i: int) -> H {
        self.device_handlers@[i].handler->0
    }

    pub open spec fn wf(&self) -> bool {
        0 <= self.stdin_slot() < self.table().len()
    }

    /// A table with one slot, the standard-input slot, empty.
    pub fn new() -> (r: Self)
        ensures
            r.wf(),
            r.table() == seq![None::<EpollDispatch>],
            r.stdin_slot() == 0,
            r.handler_count() == 0,
    {
        let mut dispatch_table: Vec<Option<EpollDispatch>> = Vec::new();
        let stdin_index = dispatch_table.len();
        dispatch_table.push(None);
        let r = EpollContext { stdin_index, dispatch_table, device_handlers: Vec::new() };
        assert(r.table() =~= seq![None::<EpollDispatch>]);
        r
    }

    pub fn stdin_index(&self) -> (r: u64)
        ensures
            r == self.stdin_slot(),
    {
        self.stdin_index as u64
    }

    /// The slot of `index`, empty also where `index` is past the table.
    pub fn dispatch(&self, index: u64) -> (r: Option<EpollDispatch>)
        ensures
            index < self.table().len() ==> r == self.table()[index as int],
            index >= self.table().len() ==> r is None,
    {
        let n = self.dispatch_table.len();
        if (index as u128) < (n as u128) {
            self.dispatch_table[index as usize]
        } else {
            None
        }
    }

    pub fn device_handlers_len(&self) -> (r: usize)
        ensures
            r == self.handler_count(),
    {
        self.device_handlers.len()
    }

    /// The token the next added source gets.
    pub fn next_dispatch_index(&self) -> (r: u64)
        ensures
            r == self.table().len(),
    {
        self.dispatch_table.len() as u64
    }

    /// Takes whether standard input could be registered as a source, and
    /// only then marks its slot: where standard input is the null device the
    /// registration fails, and that is no error.
    pub fn enable_stdin_event(&mut self, registered: bool)
        requires
            old(self).wf(),
        ensures
            final(self).wf(),
            registered ==> final(self).table() == old(self).table().update(
                old(self).stdin_slot(),
                Some(EpollDispatch::Stdin),
            ),
            !registered ==> final(self).table() == old(self).table(),
            final(self).stdin_slot() == old(self).stdin_slot(),
            final(self).handler_count() == old(self).handler_count(),
            forall|i: int|
                0 <= i < old(self).handler_count() ==> final(self).installed(i) == old(self).installed(i),
    {
        if registered {
            let i = self.stdin_index;
            self.dispatch_table.set(i, Some(EpollDispatch::Stdin));
        }
    }

    /// Marks standard input as no longer registered.
    pub fn disable_stdin_event(&mut self)
        requires
            old(self).wf(),
        ensures
            final(self).wf(),
            final(self).table() == old(self).table().update(old(self).stdin_slot(), None),
            final(self).stdin_slot() == old(self).stdin_slot(),
            final(self).handler_count() == old(self).handler_count(),
    {
        let i = self.stdin_index;
        self.dispatch_table.set(i, None);
    }

    /// Records the source `fd` under the next token.
    pub fn add_event<T>(&mut self, fd: T, token: EpollDispatch) -> (r: EpollEvent<T>)
        requires
            old(self).wf(),
        ensures
            final(self).wf(),
            r.dispatch_index == old(self).table().len(),
            r.fd == fd,
            final(self).table() == add_event_spec(old(self).table(), token),
            final(self).stdin_slot() == old(self).stdin_slot(),
            final(self).handler_count() == old(self).handler_count(),
    {
        let dispatch_index = self.dispatch_table.len() as u64;
        self.dispatch_table.push(Some(token));
        EpollEvent { dispatch_index, fd }
    }

    /// Empties the slot of a source, handing its descriptor back.
    pub fn remove_event<T>(&mut self, epoll_event: EpollEvent<T>) -> (r: T)
        requires
            old(self).wf(),
            epoll_event.dispatch_index < old(self).table().len(),
        ensures
            final(self).wf(),
            r == epoll_event.fd,
            final(self).table() == remove_event_spec(
                old(self).table(),
                epoll_event.dispatch_index as int,
            ),
            final(self).stdin_slot() == old(self).stdin_slot(),
            final(self).handler_count() == old(self).handler_count(),
    {
        let n = self.dispatch_table.len();
        assert(epoll_event.dispatch_index < n);
        self.dispatch_table.set(epoll_event.dispatch_index as usize, None);
        epoll_event.fd
    }

    /// Reserves `count` consecutive tokens for a new device, whose index is
    /// the number of devices so far; gives the first token and the channel
    /// end on which the device's handler is to be sent.
    pub fn allocate_tokens(&mut self, count: usize) -> (r: (u64, Sender<H>))
        requires
            old(self).wf(),
        ensures
            final(self).wf(),
            r.0 == old(self).table().len(),
            final(self).table() == allocate_spec(
                old(self).table(),
                old(self).handler_count() as usize,
                count,
            ),
            final(self).stdin_slot() == old(self).stdin_slot(),
            final(self).handler_count() == old(self).handler_count() + 1,
            !final(self).installed(old(self).handler_count() as int),
            forall|i: int|
                0 <= i < old(self).handler_count() ==> final(self).installed(i) == old(
                    self,
                ).installed(i) && final(self).handler_at(i) == old(self).handler_at(i),
    {
        let dispatch_base = self.dispatch_table.len() as u64;
        let device_idx = self.device_handlers.len();
        let (sender, receiver) = new_channel();
        let ghost t0 = self.dispatch_table@;
        let ghost handlers0 = self.device_handlers@;
        let ghost stdin0 = self.stdin_index;
        let mut x: usize = 0;
        while x < count
            invariant
                x <= count,
                self.device_handlers@ == handlers0,
                self.stdin_index == stdin0,
                device_idx == handlers0.len(),
                0 <= self.stdin_index < self.dispatch_table@.len(),
                self.dispatch_table@ == allocate_spec(t0, device_idx, x),
                t0.len() > self.stdin_index,
            decreases count - x,
        {
            self.dispatch_table.push(Some(EpollDispatch::DeviceHandler(device_idx, #[verifier::truncate] (x as DeviceEventT))));
            assert(self.dispatch_table@ =~= allocate_spec(t0, device_idx, (x + 1) as usize));
            x = x + 1;
        }
        self.device_handlers.push(MaybeHandler::new(receiver));
        (dispatch_base, sender)
    }

    /// The handler of device `device_idx`, taken from its channel and kept
    /// on the first call; an error while none has been sent.
    pub fn get_device_handler(&mut self, device_idx: usize) -> (r: Result<&mut H, DispatchError>)
        requires
            device_idx < old(self).handler_count(),
        ensures
            old(self).installed(device_idx as int) ==> r is Ok,
            old(self).installed(device_idx as int) ==> (r matches Ok(h) && *h == old(self).handler_at(device_idx as int)),
            r matches Ok(h) ==> final(self).installed(device_idx as int) && final(self).handler_at(device_idx as int) == *final(h),
            r is Err ==> !old(self).installed(device_idx as int) && !final(self).installed(device_idx as int),
            final(self).table() == old(self).table(),
            final(self).stdin_slot() == old(self).stdin_slot(),
            final(self).handler_count() == old(self).handler_count(),
            forall|i: int|
                0 <= i < old(self).handler_count() && i != device_idx ==> final(self).installed(i) == old(
                    self,
                ).installed(i) && final(self).handler_at(i) == old(self).handler_at(i),
    {
        let slot = &mut self.device_handlers[device_idx];
        if slot.handler.is_none() {
            match try_take(&slot.receiver) {
                Some(h) => {
                    slot.handler = Some(h);
                },
                None => {
                    return Err(DispatchError::HandlerNotReady);
                },
            }
        }
        match &mut slot.handler {
            Some(h) => Ok(h),
            None => Err(DispatchError::HandlerNotReady),
        }
    }
}

} // verus!
