//! The transaction sequencer.
//!
//! Every operation of the driver is a short, fixed conversation with the
//! device: a few register reads and writes in a set order, where a byte that
//! is written may depend on bytes that were read before. An [`Exchange`] is
//! such a conversation under way. It names the transaction to perform next
//! and, given the outcome, either moves on or ends with the result of the
//! operation. A failure of the bus ends it at once.

use vstd::prelude::*;
use crate::codec::{als_value, decode_als, decode_hrs, hrs_value, switch, switched};
use crate::register::{
    C0DATAL,
    C0DATAM,
    C1DATAH,
    C1DATAM,
    ENABLE,
    HEN,
    HGAIN,
    ID,
    OSC,
    PDRIVER,
    RESOLUTION,
};
use crate::types::{AlsResolution, ConversionDelay, Error, Gain, LedCurrent};

verus! {

/// One transaction on the bus, addressed to the device.
#[derive(Debug, Clone, Copy, PartialEq, Eq, Structural)]
pub enum Request {
    /// Write the two bytes `register`, `value`: the device stores `value` in
    /// that register.
    Write { register: u8, value: u8 },
    /// Write the byte `register`, then read `count` bytes in the same
    /// transaction: the device answers with the contents of that register and
    /// of those that follow it.
    Read { register: u8, count: usize },
}

/// What an operation yields when it succeeds.
#[derive(Debug, Clone, Copy, PartialEq, Eq, Structural)]
pub enum Output {
    /// Nothing: the operation only wrote to the device.
    Done,
    /// The contents of one register.
    Byte(u8),
    /// A measurement.
    Reading(u32),
}

/// The operations of the driver.
#[derive(Debug, Clone, Copy, PartialEq, Eq, Structural)]
pub enum Operation {
    /// Write the default configuration.
    Init,
    /// Switch heart-rate sensing on.
    EnableHrs,
    /// Switch heart-rate sensing off.
    DisableHrs,
    /// Switch the oscillator on.
    EnableOscillator,
    /// Switch the oscillator off.
    DisableOscillator,
    /// Set the wait between conversion cycles.
    SetConversionDelay(ConversionDelay),
    /// Set the gain.
    SetGain(Gain),
    /// Set the resolution of the ambient-light sensor.
    SetAlsResolution(AlsResolution),
    /// Set the LED drive current.
    SetLedCurrent(LedCurrent),
    /// Read the device identifier.
    DeviceId,
    /// Read the last heart-rate measurement.
    ReadHrs,
    /// Read the last ambient-light measurement.
    ReadAls,
    /// Write `value` to `register`.
    WriteRegister { register: u8, value: u8 },
    /// Read `register`.
    ReadRegister { register: u8 },
}

/// Reading a register and writing `value` back to it.
pub open spec fn read_modify_write(register: u8, value: u8) -> Seq<Request> {
    seq![Request::Read { register, count: 1 }, Request::Write { register, value }]
}

impl Request {
    /// The number of bytes the device sends in answer.
    pub open spec fn answer_len(self) -> nat {
        match self {
            Request::Write { .. } => 0,
            Request::Read { count, .. } => count as nat,
        }
    }

    /// The bytes of the read buffer `data` that answer this request: none
    /// for a write, the first `count` for a read.
    pub open spec fn answer(self, data: [u8; 2]) -> Seq<u8> {
        data@.take(self.answer_len() as int)
    }
}

impl Operation {
    /// The transactions of this operation, in order. `input` holds the bytes
    /// that the device sent in answer, in the order of their arrival; a
    /// transaction depends only on bytes that arrived before it.
    pub open spec fn script(self, input: Seq<u8>) -> Seq<Request> {
        match self {
            Operation::Init => seq![
                Request::Write { register: ENABLE, value: 0x68 },
                Request::Write { register: PDRIVER, value: 0x0E },
                Request::Write { register: RESOLUTION, value: 0x66 },
                Request::Write { register: HGAIN, value: 0x0D },
            ],
            Operation::EnableHrs => read_modify_write(ENABLE, switched(input[0], HEN, true)),
            Operation::DisableHrs => read_modify_write(ENABLE, switched(input[0], HEN, false)),
            Operation::EnableOscillator => read_modify_write(
                PDRIVER,
                switched(input[0], OSC, true),
            ),
            Operation::DisableOscillator => read_modify_write(
                PDRIVER,
                switched(input[0], OSC, false),
            ),
            Operation::SetConversionDelay(delay) => read_modify_write(
                ENABLE,
                delay.applied(input[0]),
            ),
            Operation::SetGain(gain) => read_modify_write(HGAIN, gain.applied(input[0])),
            Operation::SetAlsResolution(resolution) => read_modify_write(
                RESOLUTION,
                resolution.applied(input[0]),
            ),
            Operation::SetLedCurrent(current) => seq![
                Request::Read { register: ENABLE, count: 1 },
                Request::Read { register: PDRIVER, count: 1 },
                Request::Write { register: ENABLE, value: current.applied_to_enable(input[0]) },
                Request::Write { register: PDRIVER, value: current.applied_to_pdriver(input[1]) },
            ],
            Operation::DeviceId => seq![Request::Read { register: ID, count: 1 }],
            Operation::ReadHrs => seq![
                Request::Read { register: C0DATAM, count: 2 },
                Request::Read { register: C0DATAL, count: 1 },
            ],
            Operation::ReadAls => seq![
                Request::Read { register: C1DATAM, count: 1 },
                Request::Read { register: C1DATAH, count: 2 },
            ],
            Operation::WriteRegister { register, value } => seq![
                Request::Write { register, value },
            ],
            Operation::ReadRegister { register } => seq![Request::Read { register, count: 1 }],
        }
    }

    /// What this operation yields once all its transactions succeeded and the
    /// device sent `input` in answer.
    pub open spec fn output(self, input: Seq<u8>) -> Output {
        match self {
            Operation::DeviceId => Output::Byte(input[0]),
            Operation::ReadRegister { .. } => Output::Byte(input[0]),
            Operation::ReadHrs => Output::Reading(hrs_value(input[0], input[1], input[2])),
            Operation::ReadAls => Output::Reading(als_value(input[0], input[1], input[2])),
            _ => Output::Done,
        }
    }

    /// The number of transactions of this operation.
    pub open spec fn length(self) -> nat {
        self.script(Seq::empty()).len()
    }

    /// The number of bytes that the first `done` transactions of this
    /// operation read.
    pub open spec fn answered(self, done: nat) -> nat
        decreases done,
    {
        if done == 0 {
            0
        } else {
            self.answered((done - 1) as nat) + self.script(Seq::empty())[done - 1].answer_len()
        }
    }

    /// The number of transactions of this operation.
    pub fn len(self) -> (n: usize)
        ensures
            n == self.length(),
            1 <= n <= 4,
    {
        match self {
            Operation::Init => 4,
            Operation::SetLedCurrent(_) => 4,
            Operation::DeviceId => 1,
            Operation::WriteRegister { .. } => 1,
            Operation::ReadRegister { .. } => 1,
            _ => 2,
        }
    }
}

/// How far an exchange has come.
pub struct Progress {
    /// The operation under way.
    pub op: Operation,
    /// The number of its transactions that succeeded.
    pub done: nat,
    /// The bytes that the device sent in answer to those.
    pub input: Seq<u8>,
}

impl Progress {
    /// An operation before its first transaction.
    pub open spec fn start(op: Operation) -> Progress {
        Progress { op, done: 0, input: Seq::empty() }
    }

    /// At least one transaction is still to come, and `input` holds what the
    /// transactions so far have read.
    pub open spec fn wf(self) -> bool {
        &&& self.done < self.op.length()
        &&& self.input.len() == self.op.answered(self.done)
    }

    /// The transaction to perform next.
    pub open spec fn request(self) -> Request {
        self.op.script(self.input)[self.done as int]
    }

    /// The progress once the next transaction succeeded and the device sent
    /// `answer`.
    pub open spec fn after(self, answer: Seq<u8>) -> Progress {
        Progress { op: self.op, done: self.done + 1, input: self.input + answer }
    }

    /// No transaction is left.
    pub open spec fn complete(self) -> bool {
        self.done >= self.op.length()
    }
}

/// An operation under way: its state between two transactions.
#[derive(Debug)]
pub struct Exchange {
    op: Operation,
    done: usize,
    have: usize,
    input: [u8; 3],
}

/// What follows a transaction.
#[derive(Debug)]
pub enum Step<E> {
    /// The operation goes on with the next transaction of this exchange.
    Continue(Exchange),
    /// The operation is over: it succeeded with an output, or the bus failed.
    Finished(Result<Output, Error<E>>),
}

impl View for Exchange {
    type V = Progress;

    closed spec fn view(&self) -> Progress {
        Progress { op: self.op, done: self.done as nat, input: self.input@.take(self.have as int) }
    }
}

impl Exchange {
    #[verifier::type_invariant]
    spec fn inv(self) -> bool {
        &&& self.have <= 3
        &&& self@.wf()
    }

    /// Starts `op`: nothing has been sent yet.
    pub fn begin(op: Operation) -> (exchange: Exchange)
        ensures
            exchange@ == Progress::start(op),
    {
        let exchange = Exchange { op, done: 0, have: 0, input: [0, 0, 0] };
        assert(exchange@.input =~= Seq::empty());
        exchange
    }

    /// The operation under way.
    pub fn operation(&self) -> (op: Operation)
        ensures
            op == self@.op,
    {
        self.op
    }

    /// The transaction to perform next. There always is one: an exchange
    /// that has none left is finished and gone.
    pub fn request(&self) -> (request: Request)
        ensures
            self@.wf(),
            request == self@.request(),
            request matches Request::Read { count, .. } ==> count == 1 || count == 2,
    {
        proof {
            use_type_invariant(self);
            reveal_with_fuel(Operation::answered, 5);
        }
        match self.op {
            Operation::Init => {
                if self.done == 0 {
                    Request::Write { register: ENABLE, value: 0x68 }
                } else if self.done == 1 {
                    Request::Write { register: PDRIVER, value: 0x0E }
                } else if self.done == 2 {
                    Request::Write { register: RESOLUTION, value: 0x66 }
                } else {
                    Request::Write { register: HGAIN, value: 0x0D }
                }
            },
            Operation::EnableHrs => {
                if self.done == 0 {
                    Request::Read { register: ENABLE, count: 1 }
                } else {
                    Request::Write { register: ENABLE, value: switch(self.input[0], HEN, true) }
                }
            },
            Operation::DisableHrs => {
                if self.done == 0 {
                    Request::Read { register: ENABLE, count: 1 }
                } else {
                    Request::Write { register: ENABLE, value: switch(self.input[0], HEN, false) }
                }
            },
            Operation::EnableOscillator => {
                if self.done == 0 {
                    Request::Read { register: PDRIVER, count: 1 }
                } else {
                    Request::Write { register: PDRIVER, value: switch(self.input[0], OSC, true) }
                }
            },
            Operation::DisableOscillator => {
                if self.done == 0 {
                    Request::Read { register: PDRIVER, count: 1 }
                } else {
                    Request::Write { register: PDRIVER, value: switch(self.input[0], OSC, false) }
                }
            },
            Operation::SetConversionDelay(delay) => {
                if self.done == 0 {
                    Request::Read { register: ENABLE, count: 1 }
                } else {
                    Request::Write { register: ENABLE, value: delay.apply(self.input[0]) }
                }
            },
            Operation::SetGain(gain) => {
                if self.done == 0 {
                    Request::Read { register: HGAIN, count: 1 }
                } else {
                    Request::Write { register: HGAIN, value: gain.apply(self.input[0]) }
                }
            },
            Operation::SetAlsResolution(resolution) => {
                if self.done == 0 {
                    Request::Read { register: RESOLUTION, count: 1 }
                } else {
                    Request::Write { register: RESOLUTION, value: resolution.apply(self.input[0]) }
                }
            },
            Operation::SetLedCurrent(current) => {
                if self.done == 0 {
                    Request::Read { register: ENABLE, count: 1 }
                } else if self.done == 1 {
                    Request::Read { register: PDRIVER, count: 1 }
                } else if self.done == 2 {
                    Request::Write {
                        register: ENABLE,
                        value: current.apply_to_enable(self.input[0]),
                    }
                } else {
                    Request::Write {
                        register: PDRIVER,
                        value: current.apply_to_pdriver(self.input[1]),
                    }
                }
            },
            Operation::DeviceId => Request::Read { register: ID, count: 1 },
            Operation::ReadHrs => {
                if self.done == 0 {
                    Request::Read { register: C0DATAM, count: 2 }
                } else {
                    Request::Read { register: C0DATAL, count: 1 }
                }
            },
            Operation::ReadAls => {
                if self.done == 0 {
                    Request::Read { register: C1DATAM, count: 1 }
                } else {
                    Request::Read { register: C1DATAH, count: 2 }
                }
            },
            Operation::WriteRegister { register, value } => Request::Write { register, value },
            Operation::ReadRegister { register } => Request::Read { register, count: 1 },
        }
    }

    /// Takes the outcome of the transaction that [`Exchange::request`] named:
    /// the error of the bus, or the read buffer after a success. Of the
    /// buffer only the bytes that the request asked for are looked at.
    ///
    /// A failure ends the operation with that error, whatever was done before
    /// stays done, and nothing is tried again. A success moves on to the next
    /// transaction or, after the last, ends the operation with its output.
    pub fn advance<E>(self, outcome: Result<[u8; 2], E>) -> (step: Step<E>)
        ensures
            match outcome {
                Err(e) => step == Step::<E>::Finished(Err(Error::I2C(e))),
                Ok(data) => {
                    let next = self@.after(self@.request().answer(data));
                    if next.complete() {
                        step == Step::<E>::Finished(Ok(next.op.output(next.input)))
                    } else {
                        step matches Step::Continue(exchange) && exchange@ == next
                    }
                },
            },
    {
        proof {
            use_type_invariant(&self);
            reveal_with_fuel(Operation::answered, 5);
        }
        match outcome {
            Err(e) => Step::Finished(Err(Error::I2C(e))),
            Ok(data) => {
                let request = self.request();
                let ghost next = self@.after(request.answer(data));
                let mut input = self.input;
                let mut have = self.have;
                match request {
                    Request::Write { .. } => {},
                    Request::Read { count, .. } => {
                        input[have] = data[0];
                        have = have + 1;
                        if count == 2 {
                            input[have] = data[1];
                            have = have + 1;
                        }
                    },
                }
                assert(input@.take(have as int) =~= next.input);
                let done = self.done + 1;
                if done < self.op.len() {
                    Step::Continue(Exchange { op: self.op, done, have, input })
                } else {
                    let output = match self.op {
                        Operation::DeviceId => Output::Byte(input[0]),
                        Operation::ReadRegister { .. } => Output::Byte(input[0]),
                        Operation::ReadHrs => Output::Reading(
                            decode_hrs(input[0], input[1], input[2]),
                        ),
                        Operation::ReadAls => Output::Reading(
                            decode_als(input[0], input[1], input[2]),
                        ),
                        _ => Output::Done,
                    };
                    Step::Finished(Ok(output))
                }
            },
        }
    }
}

/// The shape of a script does not depend on what the device answers: the
/// number of transactions is fixed, and so is every read. Only the values that
/// are written depend on the bytes that were read.
pub proof fn lemma_script_shape(op: Operation, input: Seq<u8>, i: int)
    requires
        0 <= i < op.length(),
    ensures
        1 <= op.length() <= 4,
        op.script(input).len() == op.length(),
        op.script(input)[i] is Read <==> op.script(Seq::empty())[i] is Read,
        op.script(input)[i] is Read ==> op.script(input)[i] == op.script(Seq::empty())[i],
        op.script(input)[i].answer_len() <= 2,
{
}

/// No operation reads more than three bytes, and an exchange that is under
/// way has stored as many as its transactions so far have read.
pub proof fn lemma_answered_bounded(op: Operation, done: nat)
    requires
        done <= op.length(),
    ensures
        op.answered(done) <= 3,
        done < op.length() ==> op.answered(done + 1) == op.answered(done) + op.script(
            Seq::empty(),
        )[done as int].answer_len(),
{
    reveal_with_fuel(Operation::answered, 5);
}

/// What an exchange asks for next depends only on what it has read: bytes
/// that arrive later do not change it.
pub proof fn lemma_request_causal(progress: Progress, later: Seq<u8>)
    requires
        progress.wf(),
    ensures
        progress.op.script(progress.input + later)[progress.done as int] == progress.request(),
{
    reveal_with_fuel(Operation::answered, 5);
    let longer = progress.input + later;
    if progress.input.len() >= 1 {
        assert(longer[0] == progress.input[0]);
    }
    if progress.input.len() >= 2 {
        assert(longer[1] == progress.input[1]);
    }
}

/// A transaction that succeeds leaves an exchange either under way and well
/// formed, or complete with every byte read that the output is made of.
pub proof fn lemma_after_wf(progress: Progress, answer: Seq<u8>)
    requires
        progress.wf(),
        answer.len() == progress.request().answer_len(),
    ensures
        progress.after(answer).wf() || progress.after(answer).complete(),
        progress.after(answer).input.len() == progress.op.answered(progress.done + 1),
{
    reveal_with_fuel(Operation::answered, 5);
}

} // verus!
