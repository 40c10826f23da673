use vstd::prelude::*;
use crate::error::{checked, check_code, CodecError, NativeCall, CODEC_OK};
use crate::ledger::{take_spec, holds, lemma_hand_back_exactly_once, UserDataLedger};
use crate::picture::{picture_from_image, Picture, Plane, PixelFormat, NATIVE_FMT_I420};
use crate::session::{SessionState, Phase};

verus! {

/// A decoded image as the native engine hands it out: format tag, display
/// size, the planes copied out of native memory, and the token of the user
/// data attached to the input it came from (zero for none).
#[derive(Debug, Clone)]
pub struct NativeImage {
    pub fmt: u32,
    pub d_w: u32,
    pub d_h: u32,
    pub planes: Vec<Plane>,
    pub user_token: u64,
}

/// The protocol state of a decoder session: cursor and phase, and the user
/// data that the native engine holds on the caller's behalf.
pub struct DecoderState<T> {
    pub session: SessionState,
    pub ledger: UserDataLedger<T>,
}

/// The abstract state of a decoder session.
pub struct DecoderModel<T> {
    pub session: SessionState,
    pub pending: Seq<(u64, T)>,
    pub next_token: u64,
}

impl<T> DecoderModel<T> {
    /// Attaching optional user data to the next input: its token (zero for
    /// none) and the state afterwards.
    pub open spec fn attach(self, private: Option<T>) -> (u64, DecoderModel<T>) {
        match private {
            None => (0, self),
            Some(v) => (
                self.next_token,
                DecoderModel {
                    pending: self.pending.push((self.next_token, v)),
                    next_token: (self.next_token + 1) as u64,
                    ..self
                },
            ),
        }
    }

    /// The outcome of an input call that carried token `tok`, given the
    /// native result code, and the state afterwards. On failure the user
    /// data attached to that input is released.
    pub open spec fn finish_input(self, tok: u64, code: u32) -> (
        Result<(), CodecError>,
        DecoderModel<T>,
    ) {
        (
            checked(NativeCall::Decode, code),
            DecoderModel {
                session: self.session.after_input(code == CODEC_OK),
                pending: if code == CODEC_OK {
                    self.pending
                } else {
                    take_spec(self.pending, tok).1
                },
                next_token: self.next_token,
            },
        )
    }
}

impl<T> View for DecoderState<T> {
    type V = DecoderModel<T>;

    open spec fn view(&self) -> DecoderModel<T> {
        DecoderModel {
            session: self.session,
            pending: self.ledger.entries@,
            next_token: self.ledger.next_token,
        }
    }
}

impl<T> DecoderState<T> {
    pub open spec fn wf(&self) -> bool {
        self.ledger.wf()
    }

    /// The state of a decoder whose native context was just created.
    pub fn new() -> (d: DecoderState<T>)
        ensures
            d.wf(),
            d@.session == SessionState::initial(),
            d@.pending.len() == 0,
            d@.next_token == 1,
    {
        DecoderState { session: SessionState::new(), ledger: UserDataLedger::new() }
    }

    /// Interprets the result code of the native decoder initialisation: a
    /// fresh state on success, `InitFailed(code)` otherwise.
    pub fn from_init(code: u32) -> (r: Result<DecoderState<T>, CodecError>)
        ensures
            code == CODEC_OK <==> r is Ok,
            code != CODEC_OK ==> (r matches Err(e) && e == CodecError::InitFailed(code)),
            r matches Ok(d) ==> d.wf() && d@.session == SessionState::initial() && d@.pending.len()
                == 0 && d@.next_token == 1,
    {
        match check_code(NativeCall::Init, code) {
            Ok(()) => Ok(DecoderState::new()),
            Err(e) => Err(e),
        }
    }

    /// Whether user data can be attached to another input.
    pub fn can_attach(&self) -> (r: bool)
        ensures
            r == self.ledger.can_file(),
    {
        self.ledger.next_token < u64::MAX
    }

    /// Takes ownership of the user data for the next decode call and returns
    /// the token to hand to the native engine (zero for none).
    pub fn attach(&mut self, private: Option<T>) -> (tok: u64)
        requires
            old(self).wf(),
            old(self).ledger.can_file(),
        ensures
            final(self).wf(),
            (tok, final(self)@) == old(self)@.attach(private),
    {
        match private {
            None => 0,
            Some(v) => self.ledger.file(v),
        }
    }

    /// Records the result code of a decode call that carried token `tok`.
    /// The cursor is reset whatever the outcome; on failure the attached
    /// user data is dropped here, and `DecodeFailed(code)` is returned.
    pub fn finish_decode(&mut self, tok: u64, code: u32) -> (r: Result<(), CodecError>)
        requires
            old(self).wf(),
        ensures
            final(self).wf(),
            (r, final(self)@) == old(self)@.finish_input(tok, code),
    {
        let r = check_code(NativeCall::Decode, code);
        self.session.record_input(code == CODEC_OK);
        if code != CODEC_OK {
            self.ledger.discard(tok);
        }
        r
    }

    /// Records the result code of a flush (a decode call with no data and no
    /// user data).
    pub fn finish_flush(&mut self, code: u32) -> (r: Result<(), CodecError>)
        requires
            old(self).wf(),
        ensures
            final(self).wf(),
            (r, final(self)@) == old(self)@.finish_input(0, code),
            final(self)@.pending == old(self)@.pending,
    {
        proof {
            assert(!holds(self.ledger.entries@, 0));
        }
        self.finish_decode(0, code)
    }

    /// Records one drain call. `None` means the native engine has nothing
    /// more for the last input. Otherwise the image becomes an owned
    /// picture, and the user data filed under its token, if any, is handed
    /// back with it. An image in any format but 4:2:0 8-bit is refused with
    /// `UnsupportedFormat`; its user data is dropped.
    pub fn next_frame(&mut self, image: Option<NativeImage>) -> (r: Result<
        Option<(Picture, Option<T>)>,
        CodecError,
    >)
        requires
            old(self).wf(),
        ensures
            final(self).wf(),
            final(self)@.session == old(self)@.session.after_drain(image is Some),
            final(self)@.next_token == old(self)@.next_token,
            image is None ==> (r matches Ok(None) && final(self)@.pending == old(self)@.pending),
            image matches Some(img) ==> {
                &&& final(self)@.pending == take_spec(old(self)@.pending, img.user_token).1
                &&& (img.fmt == NATIVE_FMT_I420 <==> r is Ok)
                &&& r is Err ==> (r matches Err(e) && e == CodecError::UnsupportedFormat)
                &&& r matches Ok(out) ==> (out matches Some((p, d)) && p.width == img.d_w as usize
                    && p.height == img.d_h as usize && p.format == PixelFormat::Yuv420 && p.planes@
                    == img.planes@ && d == take_spec(old(self)@.pending, img.user_token).0)
            },
    {
        match image {
            None => {
                self.session.record_drain(false);
                Ok(None)
            },
            Some(img) => {
                self.session.record_drain(true);
                let NativeImage { fmt, d_w, d_h, planes, user_token } = img;
                let data = self.ledger.take(user_token);
                match picture_from_image(fmt, d_w, d_h, planes) {
                    Ok(p) => Ok(Some((p, data))),
                    Err(e) => Err(e),
                }
            },
        }
    }

    /// Marks the session released; true on the first call only, when the
    /// native context must be destroyed.
    pub fn release(&mut self) -> (destroy: bool)
        ensures
            (destroy, final(self).session) == old(self).session.after_release(),
            final(self).ledger == old(self).ledger,
    {
        self.session.release()
    }
}

/// User data attached to a decode call that succeeds comes back with the
/// frame that carries its token, and with no later frame; a frame that
/// carries no token carries no user data.
pub proof fn lemma_user_data_round_trip<T>(d: DecoderModel<T>, v: T, code: u32)
    requires
        code == CODEC_OK,
        d.next_token >= 1,
        forall|i: int| 0 <= i < d.pending.len() ==> (#[trigger] d.pending[i]).0 != 0,
        !holds(d.pending, d.next_token),
        forall|i: int, j: int|
            0 <= i < j < d.pending.len() ==> (#[trigger] d.pending[i]).0
                != (#[trigger] d.pending[j]).0,
    ensures
        ({
            let (tok, d1) = d.attach(Some(v));
            let (r, d2) = d1.finish_input(tok, code);
            &&& tok != 0
            &&& r is Ok
            &&& d2.session.phase == Phase::Draining
            &&& take_spec(d2.pending, tok) == (Some(v), d.pending)
            &&& take_spec(take_spec(d2.pending, tok).1, tok).0 is None
            &&& take_spec(d2.pending, 0).0 is None
        }),
{
    lemma_hand_back_exactly_once(d.pending, d.next_token, v);
    let s = d.pending.push((d.next_token, v));
    assert(!holds(s, 0)) by {
        assert forall|i: int| 0 <= i < s.len() implies (#[trigger] s[i]).0 != 0 by {
            if i < d.pending.len() {
                assert(s[i] == d.pending[i]);
            }
        }
    }
}

/// A decode call that the native engine rejects returns `DecodeFailed` with
/// its code, and leaves no user data behind: what was pending before the
/// value was attached is what stays pending.
pub proof fn lemma_failed_decode_releases_user_data<T>(d: DecoderModel<T>, v: T, code: u32)
    requires
        code != CODEC_OK,
        !holds(d.pending, d.next_token),
        forall|i: int, j: int|
            0 <= i < j < d.pending.len() ==> (#[trigger] d.pending[i]).0
                != (#[trigger] d.pending[j]).0,
    ensures
        ({
            let (tok, d1) = d.attach(Some(v));
            let (r, d2) = d1.finish_input(tok, code);
            &&& r == Err::<(), CodecError>(CodecError::DecodeFailed(code))
            &&& d2.pending == d.pending
            &&& d2.session.cursor_is_initial()
            &&& d2.session.phase == d.session.phase
        }),
{
    lemma_hand_back_exactly_once(d.pending, d.next_token, v);
}

} // verus!
