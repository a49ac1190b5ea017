//! The JPEG decoder element.

pub mod frames;
pub mod laws;
pub mod stage_laws;
pub mod state;
pub mod trace_laws;

use vstd::prelude::*;

use crate::call::{call_when, Call, Flow};
use crate::jpegdec::frames::{JpegDecode, JpegDeliver, Picture};
use crate::jpegdec::state::{DecoderState, JpegFormat, JpegSetFormat, JpegStart, SetFormatError};
use crate::output::Entry;

verus! {

/// The decoder: what it holds while it runs.
#[derive(Debug, PartialEq, Eq)]
pub struct MppJpegDec {
    pub state: Option<DecoderState>,
}

impl Default for MppJpegDec {
    fn default() -> (dec: MppJpegDec)
        ensures
            dec.state is None,
    {
        MppJpegDec { state: None }
    }
}

/// What the input caps say of the pictures.
#[derive(Clone, Copy, PartialEq, Eq, Debug)]
pub enum PictureCaps {
    /// There are none.
    Missing,
    /// They have no structure.
    Empty,
    /// The size, as far as they give one.
    Size { width: Option<i32>, height: Option<i32> },
}

impl MppJpegDec {
    /// The script that starts the decoder. What it comes to is put in place by `install`.
    pub fn start(&self) -> (script: JpegStart)
        ensures
            script == JpegStart::Begin,
    {
        JpegStart::Begin
    }

    /// Puts a started decoder in place, and gives back what one that was there before held.
    pub fn install(&mut self, state: DecoderState) -> (calls: Vec<Call>)
        ensures
            final(self).state == Some(state),
            old(self).state is None ==> calls@ == Seq::<Call>::empty(),
            old(self).state matches Some(dec) ==> calls@ == dec.release_calls(),
    {
        let calls = self.stop();
        self.state = Some(state);
        calls
    }

    /// Stops the decoder and gives back what it held.
    pub fn stop(&mut self) -> (calls: Vec<Call>)
        ensures
            final(self).state is None,
            old(self).state is None ==> calls@ == Seq::<Call>::empty(),
            old(self).state matches Some(dec) ==> calls@ == dec.release_calls(),
    {
        match self.state.take() {
            Some(dec) => dec.release(),
            None => vec![],
        }
    }

    /// The script that sets the decoder up for pictures of a size.
    pub fn set_format(&self, caps: PictureCaps) -> (r: Result<JpegSetFormat, SetFormatError>)
        requires
            self.state is Some ==> (caps matches PictureCaps::Size { width, height }
                ==> crate::jpegdec::state::format_fits(width, height)),
        ensures
            self.state is None ==> r == Err::<JpegSetFormat, SetFormatError>(SetFormatError::NotStarted),
            self.state is Some ==> match caps {
                PictureCaps::Missing => r == Err::<JpegSetFormat, SetFormatError>(SetFormatError::NoCaps),
                PictureCaps::Empty => r == Err::<JpegSetFormat, SetFormatError>(SetFormatError::NoStructure),
                PictureCaps::Size { width, height } => r matches Ok(JpegSetFormat::Begin { format })
                    && format.follows(width, height),
            },
    {
        if self.state.is_none() {
            return Err(SetFormatError::NotStarted);
        }
        match caps {
            PictureCaps::Missing => Err(SetFormatError::NoCaps),
            PictureCaps::Empty => Err(SetFormatError::NoStructure),
            PictureCaps::Size { width, height } => Ok(
                JpegSetFormat::Begin { format: JpegFormat::new(width, height) },
            ),
        }
    }

    /// The script that decodes an input of `length` bytes, `None` where the input cannot be read.
    pub fn handle_frame(&self, length: Option<usize>) -> (entry: Entry<JpegDecode>)
        ensures
            entry == match (length, self.state) {
                (None, _) => Entry::<JpegDecode>::Answer(Flow::Error),
                (Some(_), None) => Entry::Answer(Flow::NotNegotiated),
                (Some(length), Some(dec)) => if dec.buf_size == 0 {
                    Entry::Answer(Flow::NotNegotiated)
                } else {
                    Entry::Run(JpegDecode::Begin { length })
                },
            },
    {
        match length {
            None => Entry::Answer(Flow::Error),
            Some(length) => match &self.state {
                None => Entry::Answer(Flow::NotNegotiated),
                Some(dec) => if dec.buf_size == 0 {
                    Entry::Answer(Flow::NotNegotiated)
                } else {
                    Entry::Run(JpegDecode::Begin { length })
                },
            },
        }
    }

    /// The script that copies a decoded picture out, once its size is announced. The decoder may have
    /// been stopped meanwhile.
    pub fn deliver(&self, picture: Picture) -> (entry: Entry<JpegDeliver>)
        ensures
            entry == match self.state {
                Some(_) => Entry::Run(JpegDeliver::Begin { picture }),
                None => Entry::Answer(Flow::Error),
            },
    {
        if self.state.is_none() {
            return Entry::Answer(Flow::Error);
        }
        Entry::Run(JpegDeliver::Begin { picture })
    }

    /// Forgets what the decoder is working on; the output is negotiated anew.
    pub fn flush(&mut self) -> (calls: Vec<Call>)
        ensures
            old(self).state is None ==> final(self).state is None && calls@ == Seq::<Call>::empty(),
            old(self).state matches Some(dec) ==> final(self).state == Some(
                DecoderState { negotiated: false, ..dec },
            ) && calls@ == crate::call::when(dec.api.reset, Call::Reset(dec.mpp)),
    {
        match &mut self.state {
            Some(dec) => {
                dec.negotiated = false;
                call_when(dec.api.reset, Call::Reset(dec.mpp))
            },
            None => vec![],
        }
    }
}

} // verus!
