//! What holds of the JPEG decoder's frame handler over all its stages.

use vstd::prelude::*;

use crate::call::{Call, Flow, Reply};
use crate::jpegdec::frames::{AnnouncePicture, Decoded, FinishPicture, JpegDecode, JpegDeliver, Picture};
use crate::jpegdec::state::DecoderState;
use crate::mpp_ffi::NULL;
use crate::output::Entry;
use crate::script::Event;

verus! {

/// One input that is handed to the decoder: its length, and the replies in each stage. While a new
/// size is announced the decoder is unlocked; `later` is what it is afterwards.
pub ghost struct PictureCall {
    pub length: usize,
    pub decoding: Seq<Reply>,
    pub announcing: Seq<Reply>,
    pub later: Option<DecoderState>,
    pub copying: Seq<Reply>,
    pub finishing: Seq<Reply>,
}

impl PictureCall {
    /// How decoding goes.
    pub open spec fn decode(self, state: DecoderState) -> crate::script::Run<JpegDecode> {
        crate::script::run(JpegDecode::Begin { length: self.length }, state, self.decoding)
    }

    /// How announcing a new size goes.
    pub open spec fn announce(self, script: AnnouncePicture) -> crate::script::Run<AnnouncePicture> {
        crate::script::run(script, (), self.announcing)
    }

    /// How copying the picture out goes.
    pub open spec fn copy(self, picture: Picture, state: DecoderState) -> crate::script::Run<JpegDeliver> {
        crate::script::run(JpegDeliver::Begin { picture }, state, self.copying)
    }

    /// How handing the picture downstream goes.
    pub open spec fn finish(self, script: FinishPicture) -> crate::script::Run<FinishPicture> {
        crate::script::run(script, (), self.finishing)
    }

    /// What happens to a picture from the copy on, with the decoder as it is then.
    pub open spec fn delivery_log(self, picture: Picture, dec: Option<DecoderState>) -> Seq<Event> {
        match dec {
            None => Seq::empty(),
            Some(state) => {
                let copy = self.copy(picture, state);
                match copy.out {
                    Some(Entry::Run(script)) => copy.log + self.finish(script).log,
                    _ => copy.log,
                }
            },
        }
    }

    /// What the element answers to a picture, with the decoder as it is when the copy is due.
    pub open spec fn delivery_answer(self, picture: Picture, dec: Option<DecoderState>) -> Option<Flow> {
        match dec {
            None => Some(Flow::Error),
            Some(state) => match self.copy(picture, state).out {
                Some(Entry::Run(script)) => self.finish(script).out,
                Some(Entry::Answer(flow)) => Some(flow),
                None => None,
            },
        }
    }

    /// All that happens.
    pub open spec fn log(self, state: DecoderState) -> Seq<Event> {
        let decode = self.decode(state);
        match decode.out {
            Some(Decoded::Ready(picture)) => decode.log + self.delivery_log(picture, Some(decode.state)),
            Some(Decoded::NewSize(script)) => {
                let announce = self.announce(script);
                match announce.out {
                    Some(picture) => decode.log + announce.log + self.delivery_log(picture, self.later),
                    None => decode.log + announce.log,
                }
            },
            _ => decode.log,
        }
    }

    /// What the element answers.
    pub open spec fn answer(self, state: DecoderState) -> Option<Flow> {
        let decode = self.decode(state);
        match decode.out {
            Some(Decoded::Ready(picture)) => self.delivery_answer(picture, Some(decode.state)),
            Some(Decoded::NewSize(script)) => match self.announce(script).out {
                Some(picture) => self.delivery_answer(picture, self.later),
                None => None,
            },
            Some(Decoded::Answer(flow)) => Some(flow),
            None => None,
        }
    }
}

/// Whether a call copies a picture out or hands it on.
pub open spec fn moves_picture(call: Call) -> bool {
    call is CopyDecoded || call is SetFrameOutput || call is FinishThisFrame
}

/// Whether a picture is copied out by the layout that `dec` keeps, its frame is given back, and what
/// was copied goes downstream with the frame that is being handled; the answer is the one that
/// finishing that frame gave.
pub open spec fn hands_on(log: Seq<Event>, answer: Option<Flow>, picture: Picture, dec: DecoderState) -> bool {
    &&& log.len() == 4
    &&& log[0].call == (Call::CopyDecoded { buffer: picture.buffer, geometry: dec.geometry })
    &&& log[0].reply matches Some(copied) && copied.handle != NULL && log[2].call == Call::SetFrameOutput(
        copied.handle,
    )
    &&& log[1].call == Call::FrameDeinit(picture.frame)
    &&& log[3].call == Call::FinishThisFrame
    &&& log[3].reply matches Some(finished) && answer == Some(Flow::Downstream(finished.ret))
}

/// Whether nothing comes of a picture, which is no error: its frame is given back.
pub open spec fn lets_go(log: Seq<Event>, answer: Option<Flow>, picture: Picture, dec: DecoderState) -> bool {
    &&& answer == Some(Flow::Success)
    &&& log.last().call == Call::FrameDeinit(picture.frame)
    &&& if picture.buffer == NULL {
        log.len() == 1
    } else {
        &&& log.len() == 2
        &&& log[0].call == (Call::CopyDecoded { buffer: picture.buffer, geometry: dec.geometry })
        &&& log[0].reply matches Some(copied) && copied.handle == NULL
    }
}

/// A picture whose turn has come is handed on or let go of; it is let go of only where it has no
/// buffer or could not be copied. Where the decoder was stopped meanwhile, the answer is an error.
pub open spec fn delivers(call: PictureCall, picture: Picture, dec: Option<DecoderState>) -> bool {
    let log = call.delivery_log(picture, dec);
    let answer = call.delivery_answer(picture, dec);
    match dec {
        None => log.len() == 0 && answer == Some(Flow::Error),
        Some(dec) => hands_on(log, answer, picture, dec) || lets_go(log, answer, picture, dec),
    }
}

proof fn lemma_delivers(call: PictureCall, picture: Picture, dec: Option<DecoderState>)
    requires
        call.delivery_answer(picture, dec) is Some,
    ensures
        delivers(call, picture, dec),
{
    reveal_with_fuel(crate::script::run, 3);
}

/// An input goes through the decoder in order. What is decoded is neither announced, copied nor
/// handed on before decoding has ended. Where there is no picture, decoding gives the answer. A
/// picture of a new size is copied only after that size was announced; a picture of a known size is
/// copied at once, by the layout that its own frame reported. What was copied goes downstream with
/// the frame that is being handled, and finishing that frame gives the answer.
pub proof fn law_picture_goes_through_in_order(call: PictureCall, state: DecoderState)
    requires
        call.answer(state) is Some,
    ensures
        ({
            let decode = call.decode(state);
            &&& forall|i: int|
                0 <= i < decode.log.len() ==> !moves_picture((#[trigger] decode.log[i]).call)
                    && !(decode.log[i].call is SetPictureState)
            &&& match decode.out->0 {
                Decoded::Answer(flow) => {
                    &&& call.log(state) == decode.log
                    &&& call.answer(state) == Some(flow)
                },
                Decoded::Ready(picture) => {
                    &&& call.log(state) == decode.log + call.delivery_log(picture, Some(decode.state))
                    &&& call.answer(state) == call.delivery_answer(picture, Some(decode.state))
                    &&& delivers(call, picture, Some(decode.state))
                    &&& decode.log.last().reply matches Some(reply) && decode.state.geometry
                        == crate::dec::frames::reported(reply.info)
                },
                Decoded::NewSize(script) => {
                    let announced = call.announce(script).log;
                    let size = decode.state.geometry;
                    &&& announced.len() > 0
                    &&& announced[0].call == (Call::SetPictureState { width: size.width, height: size.height })
                    &&& forall|i: int| 0 <= i < announced.len() ==> !moves_picture((#[trigger] announced[i]).call)
                    &&& call.log(state) == decode.log + announced + call.delivery_log(script.picture, call.later)
                    &&& call.answer(state) == call.delivery_answer(script.picture, call.later)
                    &&& delivers(call, script.picture, call.later)
                },
            }
        }),
{
    let decode = call.decode(state);
    lemma_decode_moves_nothing(call.length, state, call.decoding);
    crate::jpegdec::laws::law_new_size_is_announced(call.length, state, call.decoding);
    match decode.out->0 {
        Decoded::Answer(_) => {},
        Decoded::Ready(picture) => {
            crate::jpegdec::laws::law_picture_brings_its_layout(call.length, state, call.decoding);
            lemma_delivers(call, picture, Some(decode.state));
        },
        Decoded::NewSize(script) => {
            assert(call.announce(script).out == Some(script.picture) && {
                let announced = call.announce(script).log;
                let size = decode.state.geometry;
                &&& announced.len() > 0
                &&& announced[0].call == (Call::SetPictureState { width: size.width, height: size.height })
                &&& forall|i: int| 0 <= i < announced.len() ==> !moves_picture((#[trigger] announced[i]).call)
            }) by {
                reveal_with_fuel(crate::script::run, 3);
            }
            lemma_delivers(call, script.picture, call.later);
        },
    }
}

proof fn lemma_decode_moves_nothing(length: usize, state: DecoderState, replies: Seq<Reply>)
    ensures
        forall|i: int|
            0 <= i < crate::script::run(JpegDecode::Begin { length }, state, replies).log.len() ==> {
                let call = (#[trigger] crate::script::run(JpegDecode::Begin { length }, state, replies).log[i]).call;
                !moves_picture(call) && !(call is SetPictureState)
            },
{
    let conduct = crate::script::Conduct {
        at: |script: JpegDecode, st: DecoderState| true,
        allowed: |event: Event| !moves_picture(event.call) && !(event.call is SetPictureState),
        ends: |st: DecoderState, out: Decoded| true,
    };
    crate::script::lemma_run_conduct(conduct, JpegDecode::Begin { length }, state, replies);
}

} // verus!
