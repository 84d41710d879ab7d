//! Reading the reports of the Neuftech reader, and making the scan codes of
//! one card out of them.
//!
//! The reader types ten digits and the enter key, and then repeats an empty
//! report while it has nothing to say. That first empty report after the
//! enter key is what ends an identifier.

use crate::rfid_reader::error::Error;
use crate::rfid_reader::humbleusbdevice::HumbleUsbDevice;
use vstd::prelude::*;

verus! {

/// What one report of the reader means.
#[derive(Debug, PartialEq, Eq, Clone, Copy, Structural)]
pub enum RawDataInterpretation {
    /// The scan code of a digit key.
    Value(u8),
    /// Nothing new: the reader is idle.
    Repeated,
    /// The enter key.
    Enter,
}

impl RawDataInterpretation {
    /// The meaning of a report. Only its third byte counts.
    pub open spec fn of(data: Seq<u8>) -> Result<RawDataInterpretation, Error> {
        if data.len() >= 3 {
            let value = data[2];
            if value == 0 {
                Ok(RawDataInterpretation::Repeated)
            } else if 30 <= value <= 39 {
                Ok(RawDataInterpretation::Value(value))
            } else if value == 40 {
                Ok(RawDataInterpretation::Enter)
            } else {
                Err(Error::InvalidData(value))
            }
        } else {
            Err(Error::TooFewReceivedData(data.len() as usize))
        }
    }

    pub fn from(data: &[u8]) -> (result: Result<RawDataInterpretation, Error>)
        ensures
            result == Self::of(data@),
    {
        if data.len() >= 3 {
            let value = data[2];
            if value == 0 {
                Ok(RawDataInterpretation::Repeated)
            } else if 30 <= value && value <= 39 {
                Ok(RawDataInterpretation::Value(value))
            } else if value == 40 {
                Ok(RawDataInterpretation::Enter)
            } else {
                Err(Error::InvalidData(value))
            }
        } else {
            Err(Error::TooFewReceivedData(data.len()))
        }
    }
}

/// What has been made of the reports so far.
#[verifier::ext_equal]
pub ghost struct Accumulated {
    /// The scan codes of the digits, in the order of their arrival.
    pub digits: Seq<u8>,
    /// The rest of the ten places for digits: those behind the digits taken
    /// in so far.
    pub behind: Seq<u8>,
    /// The meaning of the last report that was a key.
    pub last: Option<RawDataInterpretation>,
    /// Whether the identifier is complete.
    pub finished: bool,
}

/// What to do after a read.
#[derive(Debug, PartialEq)]
pub enum ReadStep {
    /// The identifier is not complete: read again.
    Pending,
    /// The identifier is complete.
    Complete,
    /// The read is given up with this error.
    Failed(Error),
    /// The report holds an eleventh digit, for which there is no room.
    /// Nothing was changed.
    Overrun(u8),
}

impl Accumulated {
    /// Before the first report.
    pub open spec fn initial() -> Accumulated {
        Accumulated {
            digits: Seq::empty(),
            behind: Seq::new(10, |i: int| 0u8),
            last: None,
            finished: false,
        }
    }

    /// The ten places for digits: the digits taken in so far, and what
    /// stands behind them.
    pub open spec fn places(self) -> Seq<u8> {
        self.digits + self.behind
    }

    /// There are ten places and so never more than ten digits, each digit is
    /// the scan code of a digit key, and an identifier is complete only with
    /// all ten and the enter key behind them.
    pub open spec fn well_formed(self) -> bool {
        &&& self.digits.len() + self.behind.len() == 10
        &&& forall|i: int| 0 <= i < self.digits.len() ==> 30 <= #[trigger] self.digits[i] <= 39
        &&& self.finished ==> self.digits.len() == 10 && self.last == Some(
            RawDataInterpretation::Enter,
        )
    }

    /// Whether there is room for what the report brings: any report but
    /// an eleventh digit.
    pub open spec fn accepts(self, report: Seq<u8>) -> bool {
        RawDataInterpretation::of(report) is Ok && RawDataInterpretation::of(report)->Ok_0 is Value
            ==> self.digits.len() < 10
    }

    /// The state after a report. A digit is appended, in the first place
    /// behind the digits. The enter key is remembered. An idle report
    /// completes the identifier if ten digits are there and the enter key
    /// came last, and else changes nothing. A report without meaning changes
    /// nothing.
    pub open spec fn process(self, report: Seq<u8>) -> Accumulated {
        match RawDataInterpretation::of(report) {
            Ok(RawDataInterpretation::Value(value)) => Accumulated {
                digits: self.digits.push(value),
                behind: self.behind.drop_first(),
                last: Some(RawDataInterpretation::Value(value)),
                finished: self.finished,
            },
            Ok(RawDataInterpretation::Enter) => Accumulated {
                digits: self.digits,
                behind: self.behind,
                last: Some(RawDataInterpretation::Enter),
                finished: self.finished,
            },
            Ok(RawDataInterpretation::Repeated) => Accumulated {
                digits: self.digits,
                behind: self.behind,
                last: self.last,
                finished: self.finished || (self.digits.len() == 10 && self.last == Some(
                    RawDataInterpretation::Enter,
                )),
            },
            Err(_) => self,
        }
    }

    /// What follows from one read of the device, which either failed or
    /// filled `report`.
    ///
    /// A timeout means that the reader was idle: read again. Any other
    /// failure, and a report without meaning, end the read with that error.
    pub open spec fn step(self, outcome: Result<(), Error>, report: Seq<u8>) -> ReadStep {
        match outcome {
            Err(Error::Timeout) => ReadStep::Pending,
            Err(error) => ReadStep::Failed(error),
            Ok(_) => match RawDataInterpretation::of(report) {
                Err(error) => ReadStep::Failed(error),
                Ok(RawDataInterpretation::Value(value)) => if self.digits.len() < 10 {
                    ReadStep::Pending
                } else {
                    ReadStep::Overrun(value)
                },
                Ok(_) => if self.process(report).finished {
                    ReadStep::Complete
                } else {
                    ReadStep::Pending
                },
            },
        }
    }

    /// The state after one read of the device: that after the report, where
    /// the read brought one for which there is room.
    pub open spec fn after(self, outcome: Result<(), Error>, report: Seq<u8>) -> Accumulated {
        if outcome is Ok && self.accepts(report) {
            self.process(report)
        } else {
            self
        }
    }
}

/// Makes the scan codes of one card out of the reports of the reader.
pub struct RawDataInterpreter {
    finished: bool,
    index: usize,
    data: [u8; 10],
    last: Option<RawDataInterpretation>,
}

impl View for RawDataInterpreter {
    type V = Accumulated;

    closed spec fn view(&self) -> Accumulated {
        Accumulated {
            digits: self.data@.take(self.index as int),
            behind: self.data@.skip(self.index as int),
            last: self.last,
            finished: self.finished,
        }
    }
}

impl Default for RawDataInterpreter {
    fn default() -> (interpreter: Self)
        ensures
            interpreter@ == Accumulated::initial(),
    {
        RawDataInterpreter { finished: false, index: 0, data: [0;10], last: None }
    }
}

impl RawDataInterpreter {
    #[verifier::type_invariant]
    spec fn inv(self) -> bool {
        &&& self.index <= 10
        &&& forall|i: int| 0 <= i < self.index ==> 30 <= #[trigger] self.data@[i] <= 39
        &&& self.finished ==> self.index == 10 && self.last == Some(RawDataInterpretation::Enter)
    }

    /// Takes in one report.
    ///
    /// A report without meaning is refused with its error and changes
    /// nothing. There is room for ten digits: an eleventh must not be
    /// handed in.
    pub fn process(&mut self, raw_data: &[u8]) -> (result: Result<(), Error>)
        requires
            old(self)@.accepts(raw_data@),
        ensures
            match RawDataInterpretation::of(raw_data@) {
                Ok(_) => result is Ok,
                Err(error) => result == Err::<(), Error>(error),
            },
            final(self)@ == old(self)@.process(raw_data@),
            final(self)@.well_formed(),
    {
        proof {
            use_type_invariant(&*self);
        }
        let raw_data_interpretation = RawDataInterpretation::from(raw_data)?;
        match raw_data_interpretation {
            RawDataInterpretation::Value(value) => {
                self.data[self.index] = value;
                self.last = Some(raw_data_interpretation);
                self.index += 1;
            },
            RawDataInterpretation::Enter => {
                self.last = Some(raw_data_interpretation);
            },
            RawDataInterpretation::Repeated => {
                let after_enter = match self.last {
                    Some(RawDataInterpretation::Enter) => true,
                    _ => false,
                };
                if self.index == 10 && after_enter {
                    self.finished = true;
                }
            },
        }
        Ok(())
    }

    /// Whether the identifier is complete: ten digits, the enter key and an
    /// idle report have arrived.
    pub fn finished_processing(&self) -> (finished: bool)
        ensures
            finished == self@.finished,
            finished ==> self@.digits.len() == 10,
            self@.well_formed(),
    {
        proof {
            use_type_invariant(self);
        }
        self.finished
    }

    /// The number of digits taken in so far.
    pub fn index(&self) -> (index: usize)
        ensures
            index == self@.digits.len(),
            index <= 10,
    {
        proof {
            use_type_invariant(self);
        }
        self.index
    }

    /// The meaning of the last report that was a key.
    pub fn last(&self) -> (last: Option<RawDataInterpretation>)
        ensures
            last == self@.last,
    {
        self.last
    }

    /// The ten places for the scan codes. Those taken in so far stand at the
    /// front.
    pub fn data(&self) -> (data: [u8; 10])
        ensures
            data@ == self@.places(),
            self@.digits.len() == 10 ==> data@ == self@.digits,
    {
        proof {
            use_type_invariant(self);
        }
        self.data
    }

    /// Whether there is room for what the report brings.
    pub fn accepts(&self, raw_data: &[u8]) -> (room: bool)
        ensures
            room == self@.accepts(raw_data@),
    {
        proof {
            use_type_invariant(self);
        }
        match RawDataInterpretation::from(raw_data) {
            Ok(RawDataInterpretation::Value(_)) => self.index < 10,
            _ => true,
        }
    }

    /// Decides what follows from one read of the device, which either
    /// failed or filled `report`, and takes the report in where there is one
    /// to take.
    pub fn advance(&mut self, outcome: Result<(), Error>, report: &[u8]) -> (step: ReadStep)
        ensures
            step == old(self)@.step(outcome, report@),
            final(self)@ == old(self)@.after(outcome, report@),
            final(self)@.well_formed(),
    {
        proof {
            use_type_invariant(&*self);
        }
        match outcome {
            Err(Error::Timeout) => ReadStep::Pending,
            Err(error) => ReadStep::Failed(error),
            Ok(_) => match RawDataInterpretation::from(report) {
                Err(error) => ReadStep::Failed(error),
                Ok(RawDataInterpretation::Value(value)) => {
                    if self.index < 10 {
                        let _ = self.process(report);
                        ReadStep::Pending
                    } else {
                        ReadStep::Overrun(value)
                    }
                },
                Ok(_) => {
                    let _ = self.process(report);
                    if self.finished {
                        ReadStep::Complete
                    } else {
                        ReadStep::Pending
                    }
                },
            },
        }
    }
}

/// The Neuftech reader behind an initialized USB device.
pub struct NeuftechUsbReader<T: HumbleUsbDevice> {
    pub usb_device: T,
}

/// Whether `result` is what making a reader of the device gives.
///
/// A device that cannot say whether a kernel driver held its interface
/// gives that error. Of any other the steps of the initialization are
/// requested in order. When all of them succeeded, the reader holds the
/// device with exactly these requests on its record. The first that fails
/// ends it with its error, and there is no reader.
pub open spec fn is_reader_of<T: HumbleUsbDevice>(
    usb_device: T,
    result: Result<NeuftechUsbReader<T>, Error>,
) -> bool {
    match usb_device.attached_kernel_driver() {
        Err(error) => result is Err && result->Err_0 == error,
        Ok(attached) => match result {
            Ok(reader) => {
                &&& crate::rfid_reader::humbleusbdevice::is_performed_since(
                    usb_device.requests(),
                    crate::rfid_reader::humbleusbdevice::initialization_plan(attached),
                    reader.usb_device.requests(),
                    Ok(()),
                )
                &&& reader.usb_device.is_deinitialized() == usb_device.is_deinitialized()
                &&& reader.usb_device.attached_kernel_driver()
                    == usb_device.attached_kernel_driver()
            },
            Err(error) => exists|made: Seq<crate::rfid_reader::humbleusbdevice::UsbRequest>|
                #[trigger] crate::rfid_reader::humbleusbdevice::is_performed(
                    crate::rfid_reader::humbleusbdevice::initialization_plan(attached),
                    made,
                    Err(error),
                ),
        },
    }
}

/// Initializes the device and makes a reader of it, as [`is_reader_of`]
/// says.
pub fn new<T: HumbleUsbDevice>(humble_usb_device: T) -> (result: Result<NeuftechUsbReader<T>, Error>)
    ensures
        is_reader_of(humble_usb_device, result),
{
    NeuftechUsbReader::new(humble_usb_device)
}

impl<T: HumbleUsbDevice> NeuftechUsbReader<T> {
    /// Initializes the device and makes a reader of it, as [`is_reader_of`]
    /// says. The error of a failed initialization is handed on.
    pub fn new(usb_device: T) -> (result: Result<Self, Error>)
        ensures
            is_reader_of(usb_device, result),
    {
        let ghost before = usb_device.requests();
        let mut usb_device = usb_device;
        match usb_device.initialize() {
            Ok(()) => Ok(NeuftechUsbReader { usb_device }),
            Err(error) => {
                assert(usb_device.attached_kernel_driver() is Ok
                    ==> crate::rfid_reader::humbleusbdevice::is_performed(
                    crate::rfid_reader::humbleusbdevice::initialization_plan(
                        usb_device.attached_kernel_driver()->Ok_0,
                    ),
                    usb_device.requests().skip(before.len() as int),
                    Err(error),
                ));
                Err(error)
            },
        }
    }

    /// Reads one report into a fresh buffer of three bytes and hands it to
    /// the interpreter.
    ///
    /// Whatever the device answers, the interpreter advances by exactly that
    /// answer. An interpreter that is finished is left alone, and the device
    /// with it.
    pub fn poll(&self, interpreter: &mut RawDataInterpreter) -> (step: ReadStep)
        ensures
            old(interpreter)@.finished ==> step == ReadStep::Complete && final(interpreter)@ == old(
                interpreter,
            )@,
            !old(interpreter)@.finished ==> exists|outcome: Result<(), Error>, report: Seq<u8>|
                {
                    &&& report.len() == 3
                    &&& step == #[trigger] old(interpreter)@.step(outcome, report)
                    &&& final(interpreter)@ == old(interpreter)@.after(outcome, report)
                },
            final(interpreter)@.well_formed(),
    {
        if interpreter.finished_processing() {
            return ReadStep::Complete;
        }
        let mut buffer = [0u8;3];
        let outcome = self.usb_device.read(&mut buffer);
        interpreter.advance(outcome, &buffer)
    }

    /// Gives the device back: the steps of the teardown are requested in
    /// order, and after them the device is recorded as given back.
    ///
    /// A device that was given back already is not touched again. A device
    /// that cannot say whether a kernel driver held its interface fails with
    /// that error and is not touched. A step that fails ends the teardown
    /// with its error, and the device is not recorded as given back.
    pub fn deinitialize(&mut self) -> (result: Result<(), Error>)
        ensures
            old(self).usb_device.is_deinitialized() ==> result is Ok && *final(self) == *old(self),
            !old(self).usb_device.is_deinitialized() ==> match old(self).usb_device.attached_kernel_driver() {
                Err(error) => result == Err::<(), Error>(error) && *final(self) == *old(self),
                Ok(attached) => crate::rfid_reader::humbleusbdevice::is_performed_since(
                    old(self).usb_device.requests(),
                    crate::rfid_reader::humbleusbdevice::teardown_plan(attached),
                    final(self).usb_device.requests(),
                    result,
                ),
            },
            final(self).usb_device.attached_kernel_driver() == old(self).usb_device.attached_kernel_driver(),
            result is Ok ==> final(self).usb_device.is_deinitialized(),
            result is Err ==> final(self).usb_device.is_deinitialized() == old(self).usb_device.is_deinitialized(),
    {
        self.usb_device.deinitialize()
    }
}

/// One read of the device: how it ended, and what stands in the buffer
/// after it.
pub ghost struct Reading {
    pub outcome: Result<(), Error>,
    pub report: Seq<u8>,
}

/// The state after a row of reports, each taken in after the other.
pub open spec fn replay(reports: Seq<Seq<u8>>) -> Accumulated
    decreases reports.len(),
{
    if reports.len() == 0 {
        Accumulated::initial()
    } else {
        replay(reports.drop_last()).process(reports.last())
    }
}

/// Whether there was room for each report of the row when it came.
pub open spec fn admissible(reports: Seq<Seq<u8>>) -> bool
    decreases reports.len(),
{
    reports.len() > 0 ==> admissible(reports.drop_last()) && replay(reports.drop_last()).accepts(
        reports.last(),
    )
}

/// The number of reports in the row that hold a digit.
pub open spec fn digit_reports(reports: Seq<Seq<u8>>) -> nat
    decreases reports.len(),
{
    if reports.len() == 0 {
        0
    } else if RawDataInterpretation::of(reports.last()) is Ok && RawDataInterpretation::of(
        reports.last(),
    )->Ok_0 is Value {
        digit_reports(reports.drop_last()) + 1
    } else {
        digit_reports(reports.drop_last())
    }
}

/// How a blocking read ends that starts in `state` and gets `readings` from
/// the device, one after the other: the first step that is not `Pending`,
/// with the state it leaves. Where the readings run out before that, the read
/// is still `Pending`.
pub open spec fn session(state: Accumulated, readings: Seq<Reading>) -> (ReadStep, Accumulated)
    decreases readings.len(),
{
    if readings.len() == 0 {
        (ReadStep::Pending, state)
    } else {
        let first = readings.first();
        let step = state.step(first.outcome, first.report);
        let next = state.after(first.outcome, first.report);
        if step is Pending {
            session(next, readings.drop_first())
        } else {
            (step, next)
        }
    }
}

/// A report with the scan code of a digit adds exactly that digit, and
/// completes nothing. Where there was room for it, the digit is written to
/// the first place behind the digits, every other place keeps what it held,
/// and the state stays well formed: no identifier is complete with fewer
/// than ten digits.
pub proof fn lemma_digit_report_adds_one_digit(state: Accumulated, report: Seq<u8>)
    requires
        state.well_formed(),
        report.len() >= 3,
        30 <= report[2] <= 39,
    ensures
        state.process(report).digits == state.digits.push(report[2]),
        state.process(report).finished == state.finished,
        state.accepts(report) ==> state.process(report).well_formed(),
        state.accepts(report) ==> state.process(report).places() == state.places().update(
            state.digits.len() as int,
            report[2],
        ),
{
    if state.accepts(report) {
        assert(state.process(report).places() =~= state.places().update(
            state.digits.len() as int,
            report[2],
        ));
    }
}

/// A report that holds no digit, whether it is refused or not, leaves all
/// ten places as they were.
pub proof fn lemma_other_reports_keep_the_places(state: Accumulated, report: Seq<u8>)
    requires
        !(RawDataInterpretation::of(report) is Ok && RawDataInterpretation::of(report)->Ok_0
            is Value),
    ensures
        state.process(report).places() == state.places(),
        state.process(report).digits == state.digits,
{
}

/// Before the first report no digit is there, and all ten places hold zero.
pub proof fn lemma_initial_places_are_zero()
    ensures
        Accumulated::initial().well_formed(),
        Accumulated::initial().places() == Seq::new(10, |i: int| 0u8),
{
    assert(Accumulated::initial().places() =~= Seq::new(10, |i: int| 0u8));
}

/// Taking in a report for which there is room keeps the state well formed.
pub proof fn lemma_process_keeps_well_formed(state: Accumulated, report: Seq<u8>)
    requires
        state.well_formed(),
        state.accepts(report),
    ensures
        state.process(report).well_formed(),
{
}

/// After any row of reports for each of which there was room, the state is
/// well formed and holds as many digits as reports with a digit came: an
/// identifier is never complete before the tenth digit.
pub proof fn lemma_replay_counts_digits(reports: Seq<Seq<u8>>)
    requires
        admissible(reports),
    ensures
        replay(reports).well_formed(),
        replay(reports).digits.len() == digit_reports(reports),
    decreases reports.len(),
{
    if reports.len() > 0 {
        lemma_replay_counts_digits(reports.drop_last());
        lemma_process_keeps_well_formed(replay(reports.drop_last()), reports.last());
    }
}

/// An idle report that comes before the tenth digit, or before the enter
/// key, changes nothing, and the identifier is not complete after it.
pub proof fn lemma_early_idle_report_changes_nothing(state: Accumulated, report: Seq<u8>)
    requires
        state.well_formed(),
        RawDataInterpretation::of(report) == Ok::<RawDataInterpretation, Error>(
            RawDataInterpretation::Repeated,
        ),
        state.digits.len() < 10 || state.last != Some(RawDataInterpretation::Enter),
    ensures
        state.process(report) == state,
        !state.process(report).finished,
{
}

/// A read that timed out asks for another read and changes nothing.
pub proof fn lemma_timeout_changes_nothing(state: Accumulated, report: Seq<u8>)
    ensures
        state.step(Err(Error::Timeout), report) == ReadStep::Pending,
        state.after(Err(Error::Timeout), report) == state,
{
}

/// Timeouts do not count: a blocking read ends in the same way, and in the
/// same state, whether or not the reading at `index` is one that timed out.
pub proof fn lemma_timeouts_do_not_count(state: Accumulated, readings: Seq<Reading>, index: int)
    requires
        0 <= index < readings.len(),
        readings[index].outcome == Err::<(), Error>(Error::Timeout),
    ensures
        session(state, readings) == session(state, readings.remove(index)),
    decreases index,
{
    let first = readings.first();
    if index == 0 {
        assert(readings.remove(0) == readings.drop_first());
    } else {
        let shorter = readings.remove(index);
        assert(shorter.first() == first);
        assert(shorter.drop_first() == readings.drop_first().remove(index - 1));
        if state.step(first.outcome, first.report) is Pending {
            lemma_timeouts_do_not_count(
                state.after(first.outcome, first.report),
                readings.drop_first(),
                index - 1,
            );
        }
    }
}

/// A blocking read keeps the state well formed, and where it ends with a
/// complete identifier, the state holds exactly ten digits.
pub proof fn lemma_session_ends_well_formed(state: Accumulated, readings: Seq<Reading>)
    requires
        state.well_formed(),
    ensures
        session(state, readings).1.well_formed(),
        session(state, readings).0 is Complete ==> session(state, readings).1.finished && session(
            state,
            readings,
        ).1.digits.len() == 10,
    decreases readings.len(),
{
    if readings.len() > 0 {
        let first = readings.first();
        let next = state.after(first.outcome, first.report);
        if first.outcome is Ok && state.accepts(first.report) {
            lemma_process_keeps_well_formed(state, first.report);
        }
        if state.step(first.outcome, first.report) is Pending {
            lemma_session_ends_well_formed(next, readings.drop_first());
        }
    }
}

/// A read that filled the buffer with a report of this scan code.
pub open spec fn report_of(code: u8) -> Reading {
    Reading { outcome: Ok(()), report: seq![0u8, 0u8, code] }
}

/// What the reader sends for a card with these digits: a report for each
/// digit, one for the enter key, and an idle report.
pub open spec fn card(codes: Seq<u8>) -> Seq<Reading> {
    Seq::new(codes.len(), |i: int| report_of(codes[i])).push(report_of(40)).push(report_of(0))
}

/// Digits for which there is room are taken in one after the other, and the
/// read goes on with what comes behind them.
proof fn lemma_digits_are_taken(state: Accumulated, codes: Seq<u8>, rest: Seq<Reading>)
    requires
        state.digits.len() + state.behind.len() == 10,
        codes.len() <= state.behind.len(),
        !state.finished,
        forall|i: int| 0 <= i < codes.len() ==> 30 <= #[trigger] codes[i] <= 39,
    ensures
        session(state, Seq::new(codes.len(), |i: int| report_of(codes[i])) + rest) == session(
            Accumulated {
                digits: state.digits + codes,
                behind: state.behind.skip(codes.len() as int),
                last: if codes.len() > 0 {
                    Some(RawDataInterpretation::Value(codes.last()))
                } else {
                    state.last
                },
                finished: false,
            },
            rest,
        ),
    decreases codes.len(),
{
    let readings = Seq::new(codes.len(), |i: int| report_of(codes[i])) + rest;
    if codes.len() == 0 {
        assert(readings == rest);
        assert(state.digits + codes == state.digits);
        assert(state.behind.skip(0) == state.behind);
    } else {
        let tail = codes.drop_first();
        let next = state.process(report_of(codes[0]).report);
        assert(readings.first() == report_of(codes[0]));
        assert(readings.drop_first() == Seq::new(tail.len(), |i: int| report_of(tail[i])) + rest);
        assert(state.after(Ok(()), report_of(codes[0]).report) == next);
        lemma_digits_are_taken(next, tail, rest);
        assert(next.digits + tail == state.digits + codes);
        assert(next.behind.skip(tail.len() as int) == state.behind.skip(codes.len() as int));
        if tail.len() > 0 {
            assert(tail.last() == codes.last());
        }
    }
}

/// The framing of the reader works: the reports of a card with ten digits
/// end a blocking read with a complete identifier, which holds exactly
/// those digits in their order.
pub proof fn lemma_card_is_read(codes: Seq<u8>)
    requires
        codes.len() == 10,
        forall|i: int| 0 <= i < codes.len() ==> 30 <= #[trigger] codes[i] <= 39,
    ensures
        session(Accumulated::initial(), card(codes)).0 == ReadStep::Complete,
        session(Accumulated::initial(), card(codes)).1.digits == codes,
        session(Accumulated::initial(), card(codes)).1.finished,
{
    let end = seq![report_of(40), report_of(0)];
    let taken = Accumulated {
        digits: codes,
        behind: Seq::empty(),
        last: Some(RawDataInterpretation::Value(codes.last())),
        finished: false,
    };
    assert(card(codes) == Seq::new(codes.len(), |i: int| report_of(codes[i])) + end);
    lemma_digits_are_taken(Accumulated::initial(), codes, end);
    assert(Accumulated::initial().digits + codes == codes);
    assert(Accumulated::initial().behind.skip(10) == Seq::<u8>::empty());
    let entered = taken.after(Ok(()), report_of(40).report);
    assert(end.drop_first() == seq![report_of(0)]);
    assert(seq![report_of(0)].drop_first() == Seq::<Reading>::empty());
    reveal_with_fuel(session, 3);
    assert(session(taken, end) == session(entered, seq![report_of(0)]));
}

} // verus!
