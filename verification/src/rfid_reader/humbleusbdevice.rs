//! The opened USB device and the order in which it is set up and given back.

use crate::rfid_reader::error::Error;
use vstd::prelude::*;

verus! {

/// One request to the device on the way to reading from it, or back.
#[derive(Debug, PartialEq, Eq, Clone, Copy, Structural)]
pub enum UsbStep {
    DetachKernelDriver,
    SetActiveConfiguration,
    ClaimInterface,
    SetAlternateSetting,
    AttachKernelDriver,
    ReleaseInterface,
}

/// One request that was made of a device, with the answer of the device.
pub ghost struct UsbRequest {
    pub step: UsbStep,
    pub answer: Result<(), Error>,
}

/// What has to be done before the first read, in this order: a kernel
/// driver that holds the interface is detached first, and then, with or
/// without one, the configuration is set, the interface claimed and the
/// alternate setting set.
pub open spec fn initialization_plan(kernel_driver_attached: bool) -> Seq<UsbStep> {
    if kernel_driver_attached {
        seq![
            UsbStep::DetachKernelDriver,
            UsbStep::SetActiveConfiguration,
            UsbStep::ClaimInterface,
            UsbStep::SetAlternateSetting,
        ]
    } else {
        seq![UsbStep::SetActiveConfiguration, UsbStep::ClaimInterface, UsbStep::SetAlternateSetting]
    }
}

/// What gives the device back as it was found, in this order: the kernel
/// driver is attached again only where one was attached before.
pub open spec fn teardown_plan(kernel_driver_attached: bool) -> Seq<UsbStep> {
    if kernel_driver_attached {
        seq![UsbStep::AttachKernelDriver, UsbStep::ReleaseInterface]
    } else {
        Seq::empty()
    }
}

pub fn initialization_steps(kernel_driver_attached: bool) -> (steps: Vec<UsbStep>)
    ensures
        steps@ == initialization_plan(kernel_driver_attached),
{
    let mut steps = Vec::new();
    if kernel_driver_attached {
        steps.push(UsbStep::DetachKernelDriver);
    }
    steps.push(UsbStep::SetActiveConfiguration);
    steps.push(UsbStep::ClaimInterface);
    steps.push(UsbStep::SetAlternateSetting);
    steps
}

pub fn teardown_steps(kernel_driver_attached: bool) -> (steps: Vec<UsbStep>)
    ensures
        steps@ == teardown_plan(kernel_driver_attached),
{
    let mut steps = Vec::new();
    if kernel_driver_attached {
        steps.push(UsbStep::AttachKernelDriver);
        steps.push(UsbStep::ReleaseInterface);
    }
    steps
}

/// Whether the requests `after` are those `before` and then some more.
pub open spec fn extends(before: Seq<UsbRequest>, after: Seq<UsbRequest>) -> bool {
    before.len() <= after.len() && after.take(before.len() as int) == before
}

/// Whether `made` are the requests that come of performing `steps`, and
/// `result` is what comes of them: the steps are requested in order, each
/// once, as long as the device answers with success; the first failure ends
/// it with its error, and without a failure all steps are made.
pub open spec fn is_performed(
    steps: Seq<UsbStep>,
    made: Seq<UsbRequest>,
    result: Result<(), Error>,
) -> bool {
    &&& made.len() <= steps.len()
    &&& forall|i: int| 0 <= i < made.len() ==> (#[trigger] made[i]).step == steps[i]
    &&& forall|i: int| 0 <= i < made.len() - 1 ==> (#[trigger] made[i]).answer is Ok
    &&& match result {
        Ok(_) => made.len() == steps.len() && (made.len() > 0 ==> made.last().answer is Ok),
        Err(error) => made.len() > 0 && made.last().answer == Err::<(), Error>(error),
    }
}

/// The record of one request.
pub open spec fn request(step: UsbStep, answer: Result<(), Error>) -> UsbRequest {
    UsbRequest { step, answer }
}

/// Whether the record `after` is the record `before` and then the requests
/// that come of performing `steps` with this result, as [`is_performed`]
/// says.
pub open spec fn is_performed_since(
    before: Seq<UsbRequest>,
    steps: Seq<UsbStep>,
    after: Seq<UsbRequest>,
    result: Result<(), Error>,
) -> bool {
    extends(before, after) && is_performed(steps, after.skip(before.len() as int), result)
}

/// An opened USB device with one endpoint that is read by interrupt
/// transfers.
///
/// What the device says of its kernel driver and of being given back does
/// not change by a request to it.
///
/// An implementation supplies the single requests. The two that are made of
/// several, `initialize` and `deinitialize`, are given here.
pub trait HumbleUsbDevice: Sized {
    /// Whether the device is recorded as given back. An implementation
    /// keeps this record, whether or not it says where.
    open spec fn is_deinitialized(&self) -> bool {
        crate::unspecified::unspecified(self)
    }

    /// What the device answers when it is asked whether a kernel driver held
    /// its interface when it was opened.
    open spec fn attached_kernel_driver(&self) -> Result<bool, Error> {
        crate::unspecified::unspecified(self)
    }

    /// The requests that were made of the device to set it up and to give it
    /// back, each with its answer, the first first.
    open spec fn requests(&self) -> Seq<UsbRequest> {
        crate::unspecified::unspecified(self)
    }

    /// Whether a kernel driver held the interface when the device was
    /// opened.
    fn has_attached_kernel_driver(&self) -> (attached: Result<bool, Error>)
        ensures
            attached == self.attached_kernel_driver(),
    ;

    fn detach_kernel_driver(&mut self) -> (answer: Result<(), Error>)
        ensures
            final(self).requests() == old(self).requests().push(request(UsbStep::DetachKernelDriver, answer)),
            final(self).is_deinitialized() == old(self).is_deinitialized(),
            final(self).attached_kernel_driver() == old(self).attached_kernel_driver(),
    ;

    fn attach_kernel_driver(&mut self) -> (answer: Result<(), Error>)
        ensures
            final(self).requests() == old(self).requests().push(request(UsbStep::AttachKernelDriver, answer)),
            final(self).is_deinitialized() == old(self).is_deinitialized(),
            final(self).attached_kernel_driver() == old(self).attached_kernel_driver(),
    ;

    /// One interrupt transfer into `buffer`, which blocks until the device
    /// answers or the timeout of the device has passed.
    fn read(&self, buffer: &mut [u8]) -> Result<(), Error>;

    fn claim_interface(&mut self) -> (answer: Result<(), Error>)
        ensures
            final(self).requests() == old(self).requests().push(request(UsbStep::ClaimInterface, answer)),
            final(self).is_deinitialized() == old(self).is_deinitialized(),
            final(self).attached_kernel_driver() == old(self).attached_kernel_driver(),
    ;

    fn release_interface(&mut self) -> (answer: Result<(), Error>)
        ensures
            final(self).requests() == old(self).requests().push(request(UsbStep::ReleaseInterface, answer)),
            final(self).is_deinitialized() == old(self).is_deinitialized(),
            final(self).attached_kernel_driver() == old(self).attached_kernel_driver(),
    ;

    fn set_active_configuration(&mut self) -> (answer: Result<(), Error>)
        ensures
            final(self).requests() == old(self).requests().push(request(UsbStep::SetActiveConfiguration, answer)),
            final(self).is_deinitialized() == old(self).is_deinitialized(),
            final(self).attached_kernel_driver() == old(self).attached_kernel_driver(),
    ;

    fn set_alternate_setting(&mut self) -> (answer: Result<(), Error>)
        ensures
            final(self).requests() == old(self).requests().push(request(UsbStep::SetAlternateSetting, answer)),
            final(self).is_deinitialized() == old(self).is_deinitialized(),
            final(self).attached_kernel_driver() == old(self).attached_kernel_driver(),
    ;

    /// Records that the device was given back. Nothing is requested of the
    /// device for it.
    fn set_deinitialized(&mut self)
        ensures
            final(self).is_deinitialized(),
            final(self).requests() == old(self).requests(),
            final(self).attached_kernel_driver() == old(self).attached_kernel_driver(),
    ;

    /// Whether the device was given back already.
    fn deinitialized(&self) -> (given_back: bool)
        ensures
            given_back == self.is_deinitialized(),
    ;

    /// Makes the one request that `step` names, and returns its answer.
    fn perform(&mut self, step: UsbStep) -> (answer: Result<(), Error>)
        ensures
            final(self).requests() == old(self).requests().push(request(step, answer)),
            final(self).is_deinitialized() == old(self).is_deinitialized(),
            final(self).attached_kernel_driver() == old(self).attached_kernel_driver(),
    {
        match step {
            UsbStep::DetachKernelDriver => self.detach_kernel_driver(),
            UsbStep::SetActiveConfiguration => self.set_active_configuration(),
            UsbStep::ClaimInterface => self.claim_interface(),
            UsbStep::SetAlternateSetting => self.set_alternate_setting(),
            UsbStep::AttachKernelDriver => self.attach_kernel_driver(),
            UsbStep::ReleaseInterface => self.release_interface(),
        }
    }

    /// Makes the requests of `steps` in order and stops at the first that
    /// fails, with its error, as [`is_performed`] says. Where there is
    /// nothing to do, it succeeds and the device is not touched.
    fn perform_all(&mut self, steps: &Vec<UsbStep>) -> (result: Result<(), Error>)
        ensures
            is_performed_since(old(self).requests(), steps@, final(self).requests(), result),
            final(self).is_deinitialized() == old(self).is_deinitialized(),
            final(self).attached_kernel_driver() == old(self).attached_kernel_driver(),
            steps@.len() == 0 ==> result is Ok && *final(self) == *old(self),
    {
        let ghost start = self.requests().len() as int;
        let mut next: usize = 0;
        assert(self.requests().take(start) == self.requests());
        assert(self.requests().skip(start) == Seq::<UsbRequest>::empty());
        while next < steps.len()
            invariant
                next <= steps@.len(),
                start == old(self).requests().len(),
                next == 0 ==> *self == *old(self),
                self.is_deinitialized() == old(self).is_deinitialized(),
                self.attached_kernel_driver() == old(self).attached_kernel_driver(),
                extends(old(self).requests(), self.requests()),
                self.requests().skip(start).len() == next,
                forall|i: int|
                    0 <= i < next ==> (#[trigger] self.requests().skip(start)[i]).step == steps@[i]
                        && self.requests().skip(start)[i].answer is Ok,
            decreases steps@.len() - next,
        {
            let ghost before = self.requests();
            let answer = self.perform(steps[next]);
            proof {
                assert(self.requests().take(start) == before.take(start));
                assert(self.requests().skip(start) == before.skip(start).push(
                    request(steps@[next as int], answer),
                ));
            }
            match answer {
                Ok(()) => {},
                Err(error) => {
                    return Err(error);
                },
            }
            next += 1;
        }
        Ok(())
    }

    /// Prepares the device for reading: the steps of
    /// [`initialization_plan`], each of which must succeed.
    ///
    /// A device that cannot say whether a kernel driver held its interface
    /// fails with that error and is not touched. Of any other the steps of
    /// the plan are requested in order; the first that fails ends the setup
    /// with its error, and nothing is undone.
    fn initialize(&mut self) -> (result: Result<(), Error>)
        ensures
            match old(self).attached_kernel_driver() {
                Err(error) => result == Err::<(), Error>(error) && *final(self) == *old(self),
                Ok(attached) => is_performed_since(
                    old(self).requests(),
                    initialization_plan(attached),
                    final(self).requests(),
                    result,
                ),
            },
            final(self).is_deinitialized() == old(self).is_deinitialized(),
            final(self).attached_kernel_driver() == old(self).attached_kernel_driver(),
    {
        match self.has_attached_kernel_driver() {
            Err(error) => Err(error),
            Ok(kernel_driver_attached) => {
                let steps = initialization_steps(kernel_driver_attached);
                self.perform_all(&steps)
            },
        }
    }

    /// Gives the device back: the steps of [`teardown_plan`], after which
    /// the device is recorded as given back. A device that was given back
    /// already is not touched again.
    ///
    /// A device that cannot say whether a kernel driver held its interface
    /// fails with that error and is not touched. A step that fails ends the
    /// teardown with its error, and the device is not recorded as given
    /// back.
    fn deinitialize(&mut self) -> (result: Result<(), Error>)
        ensures
            old(self).is_deinitialized() ==> result is Ok && *final(self) == *old(self),
            !old(self).is_deinitialized() ==> match old(self).attached_kernel_driver() {
                Err(error) => result == Err::<(), Error>(error) && *final(self) == *old(self),
                Ok(attached) => is_performed_since(
                    old(self).requests(),
                    teardown_plan(attached),
                    final(self).requests(),
                    result,
                ),
            },
            final(self).attached_kernel_driver() == old(self).attached_kernel_driver(),
            result is Ok ==> final(self).is_deinitialized(),
            result is Err ==> final(self).is_deinitialized() == old(self).is_deinitialized(),
    {
        if !self.deinitialized() {
            match self.has_attached_kernel_driver() {
                Err(error) => {
                    return Err(error);
                },
                Ok(kernel_driver_attached) => {
                    let steps = teardown_steps(kernel_driver_attached);
                    match self.perform_all(&steps) {
                        Err(error) => {
                            return Err(error);
                        },
                        Ok(()) => {},
                    }
                    self.set_deinitialized();
                },
            }
        }
        Ok(())
    }
}

} // verus!
