//! The H.265 encoder element.

pub mod config_laws;
pub mod configure;
pub mod format;
pub mod format_laws;
pub mod frame_laws;
pub mod frames;
pub mod pipeline_laws;
pub mod settings;
pub mod setup_laws;
pub mod state;
pub mod state_laws;
pub mod trace_laws;

use vstd::prelude::*;

use crate::call::{Call, Flow};
use crate::enc::configure::{EncSetFormat, SetFormatError};
use crate::enc::format::EncFormat;
use crate::enc::frames::{EncFinish, EncHandleFrame};
use crate::enc::settings::Settings;
use crate::enc::state::{EncStart, EncTeardown, EncoderState};
use crate::output::Entry;

verus! {

/// The encoder: its settings, and what it holds while it runs.
#[derive(Debug, PartialEq, Eq)]
pub struct MppH265Enc {
    pub settings: Settings,
    pub state: Option<EncoderState>,
}

impl Default for MppH265Enc {
    fn default() -> (enc: MppH265Enc)
        ensures
            enc.settings == (Settings {
                bps: crate::enc::settings::DEFAULT_BPS,
                gop: crate::enc::settings::DEFAULT_GOP,
            }),
            enc.state is None,
    {
        MppH265Enc { settings: Settings::default(), state: None }
    }
}

impl MppH265Enc {
    /// The script that starts the encoder. What it comes to is put in place by `install`.
    pub fn start(&self) -> (script: EncStart)
        ensures
            script == EncStart::Allocator(crate::allocator::NewAllocator::Begin),
    {
        EncStart::begin()
    }

    /// Puts a started encoder in place. One that was there before is to be torn down.
    pub fn install(&mut self, state: EncoderState) -> (previous: Option<EncTeardown>)
        ensures
            final(self).settings == old(self).settings,
            final(self).state == Some(state),
            old(self).state is None ==> previous is None,
            old(self).state matches Some(enc) ==> previous == Some(EncTeardown::Begin { enc }),
    {
        let previous = self.stop();
        self.state = Some(state);
        previous
    }

    /// Stops the encoder. What it held is to be torn down.
    pub fn stop(&mut self) -> (teardown: Option<EncTeardown>)
        ensures
            final(self).settings == old(self).settings,
            final(self).state is None,
            old(self).state is None ==> teardown is None,
            old(self).state matches Some(enc) ==> teardown == Some(EncTeardown::Begin { enc }),
    {
        match self.state.take() {
            Some(enc) => Some(EncTeardown::begin(enc)),
            None => None,
        }
    }

    /// The script that sets the encoder up for an input of this size and frame rate.
    pub fn set_format(&self, width: u32, height: u32, fps_n: i32, fps_d: i32) -> (r: Result<
        EncSetFormat,
        SetFormatError,
    >)
        requires
            crate::enc::format::format_fits(self.settings, width, height, fps_n, fps_d),
        ensures
            self.state is None ==> r == Err::<EncSetFormat, SetFormatError>(SetFormatError::NotStarted),
            self.state is Some ==> (r matches Ok(EncSetFormat::Begin { format }) && format.follows(
                self.settings,
                width,
                height,
                fps_n,
                fps_d,
            )),
    {
        let format = EncFormat::new(self.settings, width, height, fps_n, fps_d);
        if self.state.is_none() {
            return Err(SetFormatError::NotStarted);
        }
        Ok(EncSetFormat::Begin { format })
    }

    /// The script that takes a frame, whose time stamp is in nanoseconds.
    pub fn handle_frame(&self, pts: Option<u64>) -> (entry: Entry<EncHandleFrame>)
        ensures
            self.state is None ==> entry == Entry::<EncHandleFrame>::Answer(Flow::NotNegotiated),
            self.state is Some ==> entry == Entry::Run(
                EncHandleFrame::Begin {
                    pts: match pts {
                        Some(ns) => Some(ns as i64),
                        None => None,
                    },
                },
            ),
    {
        if self.state.is_none() {
            return Entry::Answer(Flow::NotNegotiated);
        }
        let pts = match pts {
            Some(ns) => Some(ns as i64),
            None => None,
        };
        Entry::Run(EncHandleFrame::Begin { pts })
    }

    /// The script that fetches the last packet. An encoder that does not run has none.
    pub fn finish(&self) -> (entry: Entry<EncFinish>)
        ensures
            self.state is None ==> entry == Entry::<EncFinish>::Answer(Flow::Success),
            self.state is Some ==> entry == Entry::Run(EncFinish::Begin),
    {
        if self.state.is_none() {
            return Entry::Answer(Flow::Success);
        }
        Entry::Run(EncFinish::Begin)
    }

    /// Forgets what the encoder is working on.
    pub fn flush(&mut self) -> (calls: Vec<Call>)
        ensures
            final(self).settings == old(self).settings,
            old(self).state is None ==> final(self).state is None && calls@ == Seq::<Call>::empty(),
            old(self).state matches Some(enc) ==> final(self).state == Some(enc.landed()) && calls@
                == enc.flush_calls(),
    {
        match &mut self.state {
            Some(enc) => enc.flush(),
            None => vec![],
        }
    }
}

} // verus!
