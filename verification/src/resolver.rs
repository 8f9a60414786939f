//! Device and configuration resolution.
//!
//! The audio backend owns device discovery: it reports whether a default
//! output device exists, what the device calls itself, and which default
//! output configuration it negotiated. This module makes the construction
//! decisions on those reported outcomes. A factory is only ever built around
//! a well-formed configuration, and each way the backend can fail maps to
//! exactly one [`AudioError`](crate::errors::AudioError) variant.

use vstd::prelude::*;
use crate::clock::SampleRequestOptions;
use crate::errors::AudioError;

verus! {

/// The sample encodings a backend can negotiate: signed 16-bit, unsigned
/// 16-bit, or 32-bit floating point.
#[derive(Clone, Copy, Debug, PartialEq, Eq, Structural)]
pub enum SampleFormat {
    I16,
    U16,
    F32,
}

/// A resolved output configuration: sample encoding, frames per second, and
/// channel slots per frame. Once resolved it is never mutated; a new stream
/// needs a new resolution.
#[derive(Clone, Copy, Debug, PartialEq, Eq, Structural)]
pub struct StreamConfig {
    pub sample_format: SampleFormat,
    pub sample_rate: u32,
    pub channels: u16,
}

impl StreamConfig {
    /// A configuration is usable only with a positive rate and at least one
    /// channel.
    pub open spec fn wf(self) -> bool {
        0 < self.sample_rate && 1 <= self.channels
    }

    /// The clock state a new stream's callback starts from: zero, so the
    /// first frame is generated at clock value one.
    pub fn initial_request(&self) -> (r: SampleRequestOptions)
        requires
            self.wf(),
        ensures
            r.sample_rate == self.sample_rate,
            r.sample_clock == 0,
            r.wf(),
    {
        SampleRequestOptions { sample_rate: self.sample_rate, sample_clock: 0 }
    }
}

/// One resolved device together with its negotiated configuration, held
/// immutably for the lifetime of the factory. `D` is the backend's device
/// handle; the factory never looks inside it.
pub struct StreamFactory<D> {
    device: D,
    config: StreamConfig,
}

impl<D> StreamFactory<D> {
    /// The device handle the factory was resolved around.
    pub closed spec fn spec_device(self) -> D {
        self.device
    }

    /// The configuration the factory was resolved around.
    pub closed spec fn spec_config(self) -> StreamConfig {
        self.config
    }

    /// Every factory holds a well-formed configuration.
    pub open spec fn wf(self) -> bool {
        self.spec_config().wf()
    }

    /// Decide resolution from what the backend reported: the default output
    /// device if any, the device's answer to the name query, and the
    /// negotiated default output configuration.
    ///
    /// Resolution succeeds exactly when a device exists, its name query
    /// succeeded, and the backend produced a well-formed configuration; each
    /// failure surfaces as its own error, checked in that order, and a failed
    /// resolution leaves no partial state behind. The name is used by callers
    /// for diagnostics only, so it is not retained here.
    pub fn new(
        device: Option<D>,
        name: Result<String, String>,
        config: Result<StreamConfig, String>,
    ) -> (r: Result<StreamFactory<D>, AudioError>)
        ensures
            (match r {
                Ok(factory) => {
                    &&& device is Some
                    &&& name is Ok
                    &&& config is Ok
                    &&& config->Ok_0.wf()
                    &&& factory.spec_device() == device->0
                    &&& factory.spec_config() == config->Ok_0
                    &&& factory.wf()
                },
                Err(e) => match e {
                    AudioError::DeviceError => device is None,
                    AudioError::DeviceNameError(m) => {
                        &&& device is Some
                        &&& name is Err
                        &&& m == name->Err_0
                    },
                    AudioError::DefaultStreamConfigError(m) => {
                        &&& device is Some
                        &&& name is Ok
                        &&& (config is Err ==> m == config->Err_0)
                        &&& (config is Ok ==> !config->Ok_0.wf())
                    },
                    AudioError::BuildStreamError(_) => false,
                },
            }),
    {
        let d = match device {
            Some(d) => d,
            None => {
                return Err(AudioError::DeviceError);
            },
        };
        match name {
            Ok(_) => (),
            Err(e) => {
                return Err(AudioError::DeviceNameError(e));
            },
        };
        let cfg = match config {
            Ok(c) => c,
            Err(e) => {
                return Err(AudioError::DefaultStreamConfigError(e));
            },
        };
        if cfg.sample_rate == 0 || cfg.channels == 0 {
            return Err(
                AudioError::DefaultStreamConfigError(
                    "backend reported an unusable default output config".to_owned(),
                ),
            );
        }
        Ok(StreamFactory { device: d, config: cfg })
    }

    /// Read access to the resolved device handle, for handing to the backend
    /// at stream-construction time.
    pub fn device(&self) -> (d: &D)
        ensures
            *d == self.spec_device(),
    {
        &self.device
    }

    /// Read access to the resolved configuration.
    pub fn config(&self) -> (c: &StreamConfig)
        ensures
            *c == self.spec_config(),
    {
        &self.config
    }
}

} // verus!
