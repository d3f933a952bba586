//! The converter as the sampler sees it: the outcome of one attempt, and a
//! scripted stand-in for the device.

use vstd::prelude::*;

verus! {

/// What one non-blocking conversion attempt came to.
#[derive(Clone, Copy, Debug, PartialEq, Eq, Structural)]
pub enum AdcResponse {
    /// The conversion finished; the value is in millivolts.
    Ready(u16),
    /// The device has no value yet. Transient: the attempt is repeated.
    NotReady,
    /// The device failed in a way that repeating will not mend.
    Error,
}

/// The error half of a non-blocking result, `nb::Error`. Nothing of its
/// inside is visible to the verifier.
#[verifier::external_type_specification]
#[verifier::external_body]
#[verifier::reject_recursive_types(E)]
pub struct ExNbError<E>(nb::Error<E>);

/// Tells the two variants of `nb::Error` apart: `true` for `WouldBlock`,
/// `false` for `Other`. Nothing is claimed of the result, since the verifier
/// cannot look into the error.
#[verifier::external_body]
fn would_block<E>(error: &nb::Error<E>) -> (blocked: bool) {
    matches!(error, nb::Error::WouldBlock)
}

impl AdcResponse {
    /// Reads the result of a non-blocking conversion call. A value is a
    /// finished conversion. An error is either the transient "would block"
    /// or a device error, whose payload is dropped; which of the two, the
    /// error itself decides.
    pub fn from_poll<E>(polled: Result<u16, nb::Error<E>>) -> (response: AdcResponse)
        ensures
            match polled {
                Ok(millivolts) => response == AdcResponse::Ready(millivolts),
                Err(_) => response == AdcResponse::NotReady || response == AdcResponse::Error,
            },
    {
        match polled {
            Ok(millivolts) => AdcResponse::Ready(millivolts),
            Err(error) => {
                if would_block(&error) {
                    AdcResponse::NotReady
                } else {
                    AdcResponse::Error
                }
            },
        }
    }
}

/// A simulated converter that answers from a fixed script, one response per
/// attempt, and has nothing to say once the script is used up.
#[derive(Clone, Debug, PartialEq, Eq)]
pub struct ScriptedAdc {
    script: Vec<AdcResponse>,
    position: usize,
}

impl ScriptedAdc {
    /// The responses not yet handed out, next first.
    pub closed spec fn pending(&self) -> Seq<AdcResponse> {
        if self.position <= self.script@.len() {
            self.script@.skip(self.position as int)
        } else {
            Seq::empty()
        }
    }

    /// What is pending came out of a vector, so its length is a `usize`.
    pub proof fn lemma_pending_fits(&self)
        ensures
            self.pending().len() <= usize::MAX,
    {
        assert(self.script@.len() == self.script.len());
    }

    /// A device that will give these responses in order.
    pub fn new(script: Vec<AdcResponse>) -> (adc: ScriptedAdc)
        ensures
            adc.pending() == script@,
    {
        ScriptedAdc { script, position: 0 }
    }

    /// How many responses are left.
    pub fn remaining(&self) -> (count: usize)
        ensures
            count == self.pending().len(),
    {
        if self.position <= self.script.len() {
            self.script.len() - self.position
        } else {
            0
        }
    }

    /// One conversion attempt: the next response of the script, or `None`
    /// once the script is used up.
    pub fn attempt_conversion(&mut self) -> (response: Option<AdcResponse>)
        ensures
            old(self).pending().len() == 0 ==> {
                &&& response.is_none()
                &&& final(self).pending() == old(self).pending()
            },
            old(self).pending().len() > 0 ==> {
                &&& response == Some(old(self).pending()[0])
                &&& final(self).pending() == old(self).pending().skip(1)
            },
    {
        if self.position < self.script.len() {
            let response = self.script[self.position];
            self.position = self.position + 1;
            Some(response)
        } else {
            None
        }
    }
}

} // verus!
