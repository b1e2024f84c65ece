//! Incremental MP3 frame decoding.
//!
//! The decoder keeps one decoded frame and an offset into it, and hands
//! out PCM samples one at a time; when the current frame is exhausted
//! it pulls the next frame out of the compressed byte source. The
//! source is sequential and non-seekable — it may still be growing
//! while decoding runs — so the decoder never looks back. The frame
//! decoding itself is done by the minimp3 crate behind trusted
//! declarations; everything around it — offset bookkeeping, the order
//! samples come out in, and how decode failures are classified — is
//! verified.
//!
//! Policy on decode failure: the sample sequence ends (`next` yields
//! `None`) on any failed decode, and playback then winds down as
//! end-of-track; the failure's kind stays observable through
//! [`Mp3Decoder::advance_frame`], so a caller that must tell a slow
//! source from a corrupt one can. A decoded frame with no samples also
//! ends the sequence instead of being read past its bounds.

use vstd::prelude::*;

verus! {

/// Declares minimp3's decoder type so that values of it can be held
/// and passed; what is inside stays opaque.
#[verifier::external_type_specification]
#[verifier::external_body]
#[verifier::reject_recursive_types(R)]
pub struct ExDecoder<R>(minimp3::Decoder<R>);

/// Relies on minimp3's `Decoder::new`: wraps a reader into a fresh
/// decoder. Nothing is assumed of the value it returns.
pub assume_specification<R>[ minimp3::Decoder::<R>::new ](reader: R) -> minimp3::Decoder<R>;

/// One decoded MP3 frame: interleaved PCM samples and the stream
/// parameters the decoder reported for it.
#[derive(Clone, Debug)]
pub struct Frame {
    /// Decoded audio, channels interleaved.
    pub data: Vec<i16>,
    /// Sample rate in hertz.
    pub sample_rate: i32,
    /// Number of interleaved channels.
    pub channels: usize,
}

/// Why a frame could not be decoded. A source that is merely behind the
/// network yields `NeedMoreData`; unparsable bytes yield
/// `MalformedFrame`; the two are never collapsed, since treating a slow
/// source as end-of-track would cut playback short.
#[derive(Clone, Copy, PartialEq, Eq, Structural, Debug)]
pub enum DecodeError {
    /// The source holds no complete frame yet but is still open.
    NeedMoreData,
    /// Bytes were present but did not parse as a frame.
    MalformedFrame,
    /// Reading from the source failed.
    Io,
    /// The source is closed and fully consumed.
    EndOfStream,
}

/// Relies on minimp3's `Decoder::next_frame`: pulls compressed bytes
/// from the inner reader and decodes the next MP3 frame, blocking on
/// the reader as needed. The outcome depends on the reader's hidden
/// state, so nothing is assumed of it; the caller handles every case.
#[verifier::external_body]
fn decode_next_frame<R: std::io::Read>(decoder: &mut minimp3::Decoder<R>) -> (r: Result<
    Frame,
    DecodeError,
>) {
    match decoder.next_frame() {
        Ok(f) => Ok(Frame { data: f.data, sample_rate: f.sample_rate, channels: f.channels }),
        Err(minimp3::Error::InsufficientData) => Err(DecodeError::NeedMoreData),
        Err(minimp3::Error::SkippedData) => Err(DecodeError::MalformedFrame),
        Err(minimp3::Error::Io(_)) => Err(DecodeError::Io),
        Err(minimp3::Error::Eof) => Err(DecodeError::EndOfStream),
    }
}

/// An MP3 decoder over a sequential byte source, yielding PCM samples
/// one by one in decode order.
#[verifier::reject_recursive_types(R)]
pub struct Mp3Decoder<R> {
    pub decoder: minimp3::Decoder<R>,
    pub current_frame: Frame,
    pub current_frame_offset: usize,
}

impl<R: std::io::Read> Mp3Decoder<R> {
    /// The offset never runs past the current frame's samples.
    pub open spec fn wf(self) -> bool {
        self.current_frame_offset <= self.current_frame.data.len()
    }

    /// Start decoding the byte source. The first frame is decoded at
    /// once; a source whose very first frame cannot be decoded is
    /// rejected.
    pub fn new(data: R) -> (r: Result<Mp3Decoder<R>, ()>)
        ensures
            r matches Ok(d) ==> d.wf() && d.current_frame_offset == 0,
    {
        let mut decoder = minimp3::Decoder::new(data);
        match decode_next_frame(&mut decoder) {
            Ok(frame) => Ok(
                Mp3Decoder { decoder, current_frame: frame, current_frame_offset: 0 },
            ),
            Err(_) => Err(()),
        }
    }

    /// Pull and decode the next frame from the source, replacing the
    /// current one. On failure the current frame and offset stay put,
    /// and the failure keeps its kind — a source that is merely slow
    /// stays distinguishable from a malformed or exhausted one.
    pub fn advance_frame(&mut self) -> (r: Result<(), DecodeError>)
        ensures
            r matches Ok(()) ==> final(self).current_frame_offset == 0 && final(self).wf(),
            r matches Err(_) ==> {
                &&& final(self).current_frame == old(self).current_frame
                &&& final(self).current_frame_offset == old(self).current_frame_offset
            },
    {
        match decode_next_frame(&mut self.decoder) {
            Ok(frame) => {
                self.current_frame = frame;
                self.current_frame_offset = 0;
                Ok(())
            },
            Err(e) => Err(e),
        }
    }

    /// The next PCM sample, in frame order and in sample order within
    /// each frame. Yields `None` when no further frame can be decoded;
    /// the decoder state is then left so that a later call may try
    /// again once more bytes have arrived.
    pub fn next(&mut self) -> (r: Option<i16>)
        requires
            old(self).wf(),
        ensures
            final(self).wf(),
            old(self).current_frame_offset < old(self).current_frame.data.len() ==> {
                &&& r == Some(
                    old(self).current_frame.data[old(self).current_frame_offset as int],
                )
                &&& final(self).current_frame == old(self).current_frame
                &&& final(self).current_frame_offset == old(self).current_frame_offset + 1
            },
            old(self).current_frame_offset == old(self).current_frame.data.len() ==> match r {
                Some(v) => {
                    &&& final(self).current_frame.data.len() > 0
                    &&& final(self).current_frame_offset == 1
                    &&& v == final(self).current_frame.data[0]
                },
                None => final(self).current_frame_offset
                    == final(self).current_frame.data.len(),
            },
    {
        if self.current_frame_offset == self.current_frame.data.len() {
            match self.advance_frame() {
                Ok(()) => {},
                Err(_) => {
                    return None;
                },
            }
        }
        if self.current_frame_offset < self.current_frame.data.len() {
            let v: i16 = self.current_frame.data[self.current_frame_offset];
            self.current_frame_offset = self.current_frame_offset + 1;
            Some(v)
        } else {
            None
        }
    }

    /// Samples remaining in the current frame as decoded, before any
    /// were handed out.
    pub fn current_frame_len(&self) -> (r: Option<usize>)
        ensures
            r == Some(self.current_frame.data.len()),
    {
        Some(self.current_frame.data.len())
    }

    /// Channel count of the current frame.
    pub fn channels(&self) -> (r: u16)
        ensures
            r == self.current_frame.channels as u16,
    {
        #[verifier::truncate]
        (self.current_frame.channels as u16)
    }

    /// Sample rate of the current frame, in hertz.
    pub fn sample_rate(&self) -> (r: u32)
        ensures
            r == self.current_frame.sample_rate as u32,
    {
        #[verifier::truncate]
        (self.current_frame.sample_rate as u32)
    }
}

} // verus!
