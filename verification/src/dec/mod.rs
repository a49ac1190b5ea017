//! The H.264/H.265 decoder element.

pub mod frames;
pub mod laws;
pub mod stage_laws;
pub mod state;
pub mod trace_laws;

use vstd::prelude::*;

use crate::call::{Call, Flow, FrameResult};
use crate::dec::frames::{SendEos, SubmitPacket, TryGetFrame};
use crate::dec::state::{codec_of, DecSetFormat, DecStart, DecTeardown, DecoderState, SetFormatError, StreamCaps};
use crate::mpp_ffi::GstBuffer;
use crate::output::{Deliver, Entry, NegotiateOutput};

verus! {

/// The decoder: what it holds while it runs.
#[derive(Debug, PartialEq, Eq)]
pub struct MppVideoDec {
    pub state: Option<DecoderState>,
}

impl Default for MppVideoDec {
    fn default() -> (dec: MppVideoDec)
        ensures
            dec.state is None,
    {
        MppVideoDec { state: None }
    }
}

impl MppVideoDec {
    /// The script that starts the decoder. What it comes to is put in place by `install`.
    pub fn start(&self) -> (script: DecStart)
        ensures
            script == DecStart::Begin,
    {
        DecStart::Begin
    }

    /// Puts a started decoder in place. One that was there before is to be torn down.
    pub fn install(&mut self, state: DecoderState) -> (previous: Option<DecTeardown>)
        ensures
            final(self).state == Some(state),
            old(self).state is None ==> previous is None,
            old(self).state matches Some(dec) ==> previous == Some(DecTeardown::Begin { dec }),
    {
        let previous = self.stop();
        self.state = Some(state);
        previous
    }

    /// Stops the decoder. What it held is to be torn down.
    pub fn stop(&mut self) -> (teardown: Option<DecTeardown>)
        ensures
            final(self).state is None,
            old(self).state is None ==> teardown is None,
            old(self).state matches Some(dec) ==> teardown == Some(DecTeardown::Begin { dec }),
    {
        match self.state.take() {
            Some(dec) => Some(DecTeardown::Begin { dec }),
            None => None,
        }
    }

    /// The script that sets the decoder up for a stream.
    pub fn set_format(&self, caps: StreamCaps) -> (r: Result<DecSetFormat, SetFormatError>)
        ensures
            r == match crate::dec::state::stream_codec(caps) {
                Err(error) => Err::<DecSetFormat, SetFormatError>(error),
                Ok(codec) => if self.state is None {
                    Err(SetFormatError::NotStarted)
                } else {
                    Ok(DecSetFormat::Begin { codec })
                },
            },
    {
        match codec_of(caps) {
            Err(error) => Err(error),
            Ok(codec) => {
                if self.state.is_none() {
                    return Err(SetFormatError::NotStarted);
                }
                Ok(DecSetFormat::Begin { codec })
            },
        }
    }

    /// The script that submits a packet, whose time stamp is in nanoseconds. It leads on to handing
    /// on the frames that are ready.
    pub fn handle_frame(&self, pts: Option<u64>) -> (entry: Entry<SubmitPacket>)
        ensures
            self.state is None ==> entry == Entry::<SubmitPacket>::Answer(Flow::NotNegotiated),
            self.state is Some ==> entry == Entry::Run(
                SubmitPacket::Begin {
                    pts: match pts {
                        Some(ns) => Some(ns as i64),
                        None => None,
                    },
                },
            ),
    {
        if self.state.is_none() {
            return Entry::Answer(Flow::NotNegotiated);
        }
        let pts = match pts {
            Some(ns) => Some(ns as i64),
            None => None,
        };
        Entry::Run(SubmitPacket::Begin { pts })
    }

    /// The script that tells the decoder that the stream has ended. It leads on to handing on the
    /// frames that are left.
    pub fn finish(&self) -> (entry: Entry<SendEos>)
        ensures
            self.state is None ==> entry == Entry::<SendEos>::Answer(Flow::Error),
            self.state is Some ==> entry == Entry::Run(SendEos::Begin),
    {
        if self.state.is_none() {
            return Entry::Answer(Flow::Error);
        }
        Entry::Run(SendEos::Begin)
    }

    /// The script that fetches one decoded frame. Where the decoder does not run, or hands no
    /// frames out, the stream is over.
    pub fn try_get_one_frame(&self) -> (r: Result<TryGetFrame, FrameResult>)
        ensures
            r == match self.state {
                Some(dec) if dec.api.decode_get_frame => Ok::<TryGetFrame, FrameResult>(TryGetFrame::Begin),
                _ => Err(FrameResult::Eos),
            },
    {
        match &self.state {
            Some(dec) => if dec.api.decode_get_frame {
                Ok(TryGetFrame::Begin)
            } else {
                Err(FrameResult::Eos)
            },
            None => Err(FrameResult::Eos),
        }
    }

    /// The script that hands a picture downstream. A picture that nobody waits for is dropped.
    pub fn finish_one_frame(&self, buffer: GstBuffer) -> (script: Deliver)
        ensures
            script == (Deliver::Begin { buffer, missing: Flow::Success }),
    {
        Deliver::begin(buffer, Flow::Success)
    }

    /// The script that announces pictures of a size.
    pub fn negotiate_output(&self, width: u32, height: u32) -> (script: NegotiateOutput)
        ensures
            script == (NegotiateOutput::Begin { width, height }),
    {
        NegotiateOutput::begin(width, height)
    }

    /// Forgets what the decoder is working on.
    pub fn flush(&self) -> (calls: Vec<Call>)
        ensures
            self.state is None ==> calls@ == Seq::<Call>::empty(),
            self.state matches Some(dec) ==> calls@ == crate::call::when(dec.api.reset, Call::Reset(dec.mpp)),
    {
        match &self.state {
            Some(dec) => crate::call::call_when(dec.api.reset, Call::Reset(dec.mpp)),
            None => vec![],
        }
    }
}

} // verus!
