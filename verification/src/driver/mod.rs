//! What the drivers send to a display controller, as sequences of interface
//! operations, and the rule by which a sequence is carried out.
//!
//! Every operation of a driver (initialise, write a RAM plane, refresh, sleep)
//! is a fixed sequence of interface operations. The sequence is carried out in
//! order and stops at the first operation that fails; the driver reports that
//! failure, or success when every operation succeeded.
use vstd::prelude::*;

pub mod il0373;
pub mod ssd1680;

verus! {

/// The level of the busy pin at which the controller is busy.
#[derive(Clone, Copy, PartialEq, Eq, Debug, Structural)]
pub enum BusyPolarity {
    /// HIGH = busy, LOW = ready (SSD1680)
    ActiveHigh,
    /// LOW = busy, HIGH = ready (IL0373)
    ActiveLow,
}

impl BusyPolarity {
    /// Whether a busy pin read as `pin_high` means the controller is still busy.
    pub fn is_busy(self, pin_high: bool) -> (busy: bool)
        ensures
            busy == (pin_high == (self == BusyPolarity::ActiveHigh)),
    {
        match self {
            BusyPolarity::ActiveHigh => pin_high,
            BusyPolarity::ActiveLow => !pin_high,
        }
    }
}

/// One operation on the controller's interface.
#[derive(Debug, PartialEq, Eq)]
pub enum Op {
    /// Send one command byte (data/command line low).
    Command(u8),
    /// Send data bytes (data/command line high).
    Data(Vec<u8>),
    /// Send the same data byte the given number of times.
    DataRepeat(u8, u32),
    /// Pulse the reset line.
    HardReset,
    /// Poll the busy pin until the controller is ready.
    WaitUntilIdle(BusyPolarity),
    /// Wait the given number of milliseconds.
    DelayMs(u32),
}

/// An interface operation with its data as a sequence of bytes.
pub enum OpModel {
    /// Send one command byte.
    Command(u8),
    /// Send data bytes.
    Data(Seq<u8>),
    /// Send the same data byte the given number of times.
    DataRepeat(u8, u32),
    /// Pulse the reset line.
    HardReset,
    /// Poll the busy pin until the controller is ready.
    WaitUntilIdle(BusyPolarity),
    /// Wait the given number of milliseconds.
    DelayMs(u32),
}

impl View for Op {
    type V = OpModel;

    open spec fn view(&self) -> OpModel {
        match self {
            Op::Command(c) => OpModel::Command(*c),
            Op::Data(d) => OpModel::Data(d@),
            Op::DataRepeat(b, n) => OpModel::DataRepeat(*b, *n),
            Op::HardReset => OpModel::HardReset,
            Op::WaitUntilIdle(p) => OpModel::WaitUntilIdle(*p),
            Op::DelayMs(ms) => OpModel::DelayMs(*ms),
        }
    }
}

/// A command byte followed by its data bytes.
pub open spec fn cmd_with_data_ops(command: u8, data: Seq<u8>) -> Seq<OpModel> {
    seq![OpModel::Command(command), OpModel::Data(data)]
}

/// Every `first` in `ops` is directly followed by `next`.
pub open spec fn always_followed_by(ops: Seq<OpModel>, first: OpModel, next: OpModel) -> bool {
    forall|i: int| 0 <= i < ops.len() && #[trigger] ops[i] == first ==> i + 1 < ops.len() && ops[i + 1] == next
}

/// `first` occurs in `ops` directly followed by `next`.
pub open spec fn sends_then(ops: Seq<OpModel>, first: OpModel, next: OpModel) -> bool {
    exists|i: int| 0 <= i && i + 1 < ops.len() && #[trigger] ops[i] == first && ops[i + 1] == next
}

/// `op` does not occur in `ops`.
pub open spec fn never_sends(ops: Seq<OpModel>, op: OpModel) -> bool {
    forall|i: int| 0 <= i < ops.len() ==> #[trigger] ops[i] != op
}

/// A sequence of interface operations, built in the order they are to be sent.
pub struct CommandSequence {
    ops: Vec<Op>,
}

impl View for CommandSequence {
    type V = Seq<OpModel>;

    closed spec fn view(&self) -> Seq<OpModel> {
        self.ops@.map_values(|op: Op| op@)
    }
}

impl CommandSequence {
    /// An empty sequence.
    pub fn new() -> (seq: Self)
        ensures
            seq@ == Seq::<OpModel>::empty(),
    {
        let seq = CommandSequence { ops: Vec::new() };
        assert(seq@ =~= Seq::<OpModel>::empty());
        seq
    }

    fn push(&mut self, op: Op)
        ensures
            final(self)@ == old(self)@.push(op@),
    {
        self.ops.push(op);
        assert(self@ =~= old(self)@.push(op@));
    }

    /// Append a command byte.
    pub fn cmd(&mut self, command: u8)
        ensures
            final(self)@ == old(self)@.push(OpModel::Command(command)),
    {
        self.push(Op::Command(command));
    }

    /// Append data bytes.
    pub fn data(&mut self, data: &[u8])
        ensures
            final(self)@ == old(self)@.push(OpModel::Data(data@)),
    {
        self.push(Op::Data(vstd::slice::slice_to_vec(data)));
    }

    /// Append a command byte followed by its data bytes.
    pub fn cmd_with_data(&mut self, command: u8, data: &[u8])
        ensures
            final(self)@ == old(self)@ + cmd_with_data_ops(command, data@),
    {
        self.cmd(command);
        self.data(data);
        assert(final(self)@ =~= old(self)@ + cmd_with_data_ops(command, data@));
    }

    /// Append a command byte followed by a single data byte.
    pub fn cmd_with_byte(&mut self, command: u8, value: u8)
        ensures
            final(self)@ == old(self)@ + cmd_with_data_ops(command, seq![value]),
    {
        let data: [u8; 1] = [value];
        assert(data@ =~= seq![value]);
        self.cmd_with_data(command, &data);
    }

    /// Append `repetitions` copies of one data byte.
    pub fn data_x_times(&mut self, value: u8, repetitions: u32)
        ensures
            final(self)@ == old(self)@.push(OpModel::DataRepeat(value, repetitions)),
    {
        self.push(Op::DataRepeat(value, repetitions));
    }

    /// Append a hardware reset.
    pub fn hard_reset(&mut self)
        ensures
            final(self)@ == old(self)@.push(OpModel::HardReset),
    {
        self.push(Op::HardReset);
    }

    /// Append a wait for the busy pin to show the controller ready.
    pub fn wait_until_idle(&mut self, polarity: BusyPolarity)
        ensures
            final(self)@ == old(self)@.push(OpModel::WaitUntilIdle(polarity)),
    {
        self.push(Op::WaitUntilIdle(polarity));
    }

    /// Append a pause of `ms` milliseconds.
    pub fn delay_ms(&mut self, ms: u32)
        ensures
            final(self)@ == old(self)@.push(OpModel::DelayMs(ms)),
    {
        self.push(Op::DelayMs(ms));
    }

    /// Append another sequence.
    pub fn append(&mut self, other: CommandSequence)
        ensures
            final(self)@ == old(self)@ + other@,
    {
        let ghost appended = other@;
        let mut other = other;
        self.ops.append(&mut other.ops);
        assert(self@ =~= old(self)@ + appended);
    }

    /// The operations, in order.
    pub fn into_ops(self) -> (ops: Vec<Op>)
        ensures
            ops@.map_values(|op: Op| op@) == self@,
    {
        self.ops
    }
}

/// Carrying out a sequence of operations, one at a time, until the first one
/// that fails.
///
/// The caller performs the operation that [`Transaction::next_op`] hands out
/// and reports its outcome with [`Transaction::record`], until `next_op` hands
/// out nothing; [`Transaction::finish`] then gives the outcome of the whole.
pub struct Transaction<E> {
    ops: Vec<Op>,
    done: usize,
    error: Option<E>,
}

impl<E> Transaction<E> {
    /// The operations to carry out.
    pub closed spec fn ops(&self) -> Seq<OpModel> {
        self.ops@.map_values(|op: Op| op@)
    }

    /// How many operations have been carried out.
    pub closed spec fn done(&self) -> nat {
        self.done as nat
    }

    /// The failure of the last operation carried out, if it failed.
    pub closed spec fn error(&self) -> Option<E> {
        self.error
    }

    /// Whether nothing is left to carry out: an operation failed, or all succeeded.
    pub open spec fn is_over(&self) -> bool {
        self.error() is Some || self.done() == self.ops().len()
    }

    /// The count of operations carried out never exceeds their number.
    pub closed spec fn wf(&self) -> bool {
        self.done <= self.ops@.len()
    }

    /// A transaction over the operations of `sequence`, none of them carried out yet.
    pub fn new(sequence: CommandSequence) -> (t: Self)
        ensures
            t.wf(),
            t.ops() == sequence@,
            t.done() == 0,
            t.error() is None,
    {
        Transaction { ops: sequence.into_ops(), done: 0, error: None }
    }

    /// The next operation to carry out: none once an operation has failed or
    /// all have been carried out.
    pub fn next_op(&self) -> (op: Option<&Op>)
        requires
            self.wf(),
        ensures
            op is None <==> self.is_over(),
            op matches Some(o) ==> o@ == self.ops()[self.done() as int],
    {
        if self.error.is_some() || self.done >= self.ops.len() {
            None
        } else {
            Some(&self.ops[self.done])
        }
    }

    /// Record the outcome of the operation that `next_op` handed out.
    pub fn record(&mut self, outcome: Result<(), E>)
        requires
            old(self).wf(),
            !old(self).is_over(),
        ensures
            final(self).wf(),
            final(self).ops() == old(self).ops(),
            final(self).done() == old(self).done() + 1,
            final(self).error() == match outcome {
                Ok(()) => None,
                Err(e) => Some(e),
            },
    {
        let count = self.ops.len();
        assert(self.ops().len() == count);
        self.done = self.done + 1;
        match outcome {
            Ok(()) => {},
            Err(e) => {
                self.error = Some(e);
            },
        }
    }

    /// The outcome of the whole sequence: the failure that stopped it, or
    /// success when every operation was carried out and succeeded.
    pub fn finish(self) -> (outcome: Result<(), E>)
        requires
            self.wf(),
            self.is_over(),
        ensures
            outcome matches Ok(()) <==> self.error() is None,
            outcome is Ok ==> self.done() == self.ops().len(),
            outcome matches Err(e) ==> self.error() == Some(e),
    {
        match self.error {
            Some(e) => Err(e),
            None => Ok(()),
        }
    }
}

} // verus!
