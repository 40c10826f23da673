use vstd::prelude::*;
use crate::error::{checked, check_code, CodecError, NativeCall, CODEC_OK};
use crate::packet::{kind_of_tag, packet_of, AOMPacket, NativeRecord};
use crate::picture::{descriptor_fits, image_from_picture, ImageDescriptor, Picture, PixelFormat};
use crate::session::SessionState;

verus! {

/// The protocol state of an encoder session.
pub struct EncoderState {
    pub session: SessionState,
}

impl EncoderState {
    /// The state of an encoder whose native context was just created.
    pub fn new() -> (e: EncoderState)
        ensures
            e.session == SessionState::initial(),
    {
        EncoderState { session: SessionState::new() }
    }

    /// Interprets the result code of the native encoder initialisation: a
    /// fresh state on success, `InitFailed(code)` otherwise.
    pub fn from_init(code: u32) -> (r: Result<EncoderState, CodecError>)
        ensures
            code == CODEC_OK <==> r is Ok,
            code != CODEC_OK ==> (r matches Err(e) && e == CodecError::InitFailed(code)),
            r matches Ok(e) ==> e.session == SessionState::initial(),
    {
        match check_code(NativeCall::Init, code) {
            Ok(()) => Ok(EncoderState::new()),
            Err(e) => Err(e),
        }
    }

    /// Records the result code of a runtime control call; the session is
    /// left as it was.
    pub fn finish_control(&self, code: u32) -> (r: Result<(), CodecError>)
        ensures
            r == checked(NativeCall::Control, code),
    {
        check_code(NativeCall::Control, code)
    }

    /// Prepares a picture for an encode call: the descriptor fields for the
    /// native engine. A picture in any format but 4:2:0 8-bit is refused with
    /// `UnsupportedFormat` before it reaches the native engine, and that
    /// refused input call resets the cursor like any other.
    pub fn start_encode(&mut self, pic: &Picture) -> (r: Result<ImageDescriptor, CodecError>)
        ensures
            pic.format == PixelFormat::Yuv420 <==> r is Ok,
            r is Err ==> (r matches Err(e) && e == CodecError::UnsupportedFormat),
            r matches Ok(d) ==> descriptor_fits(*pic, d),
            r is Ok ==> final(self).session == old(self).session,
            r is Err ==> final(self).session == old(self).session.after_input(false),
    {
        let r = image_from_picture(pic);
        if r.is_err() {
            self.session.record_input(false);
        }
        r
    }

    /// Records the result code of an encode call. The cursor is reset
    /// whatever the outcome; a failure is `EncodeFailed(code)`.
    pub fn finish_encode(&mut self, code: u32) -> (r: Result<(), CodecError>)
        ensures
            r == checked(NativeCall::Encode, code),
            final(self).session == old(self).session.after_input(code == CODEC_OK),
    {
        let r = check_code(NativeCall::Encode, code);
        self.session.record_input(code == CODEC_OK);
        r
    }

    /// Records the result code of a flush (an encode call with no picture);
    /// the same rules as for an encode call apply.
    pub fn finish_flush(&mut self, code: u32) -> (r: Result<(), CodecError>)
        ensures
            r == checked(NativeCall::Encode, code),
            final(self).session == old(self).session.after_input(code == CODEC_OK),
    {
        self.finish_encode(code)
    }

    /// Records one drain call. `None` means the native engine has nothing
    /// more for the last input; otherwise the record becomes the variant that
    /// its discriminant selects, or `UnknownPacketKind`.
    pub fn next_packet(&mut self, record: Option<NativeRecord>) -> (r: Result<
        Option<AOMPacket>,
        CodecError,
    >)
        ensures
            final(self).session == old(self).session.after_drain(record is Some),
            record is None ==> (r matches Ok(None)),
            record matches Some(rec) ==> {
                &&& (kind_of_tag(rec.kind) is Ok <==> r is Ok)
                &&& r is Err ==> (r matches Err(e) && e == CodecError::UnknownPacketKind)
                &&& r matches Ok(out) ==> (out matches Some(p) && packet_of(rec, p))
            },
    {
        match record {
            None => {
                self.session.record_drain(false);
                Ok(None)
            },
            Some(rec) => {
                self.session.record_drain(true);
                match AOMPacket::new(rec) {
                    Ok(p) => Ok(Some(p)),
                    Err(e) => Err(e),
                }
            },
        }
    }

    /// Marks the session released; true on the first call only, when the
    /// native context must be destroyed.
    pub fn release(&mut self) -> (destroy: bool)
        ensures
            (destroy, final(self).session) == old(self).session.after_release(),
    {
        self.session.release()
    }
}

} // verus!
