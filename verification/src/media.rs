//! The audio of calls, what is heard in it, and the end of the endpoint.

use crate::audio::AudioFrame;
use crate::call::{CallView, DialogSide};
use crate::calling::Hangup;
use crate::endpoint::{EndpointView, SipEndpoint};
use crate::error::{not_active, other, EndpointError, ErrorView};
use crate::event::{event_view, EndpointEvent, EventView};
use crate::registration::UnregisterPlan;
use vstd::prelude::*;
use vstd::string::*;

verus! {

/// Whether all audio that was queued has been sent. Whoever waits for that is woken when it is set.
pub struct PlayoutFlag {
    pub done: bool,
}

/// All audio that was queued has been sent.
pub fn notify(p: &mut PlayoutFlag)
    ensures
        final(p).done,
{
    p.done = true;
}

/// What is done to supplied audio before it is queued.
#[derive(Clone, Copy, Debug, PartialEq, Eq, Structural)]
pub enum Conversion {
    AsIs,
    /// It is resampled, by a resampler made for it where `fresh`.
    Resample { from: u32, to: u32, fresh: bool },
}

/// What is done to audio at `rate` before it is queued at `target`, where there is a resampler from
/// the rate `current`. A rate of zero stands for the right one. A resampler from another rate is not
/// used: the state of its filter would spoil the audio.
pub open spec fn conversion(rate: u32, target: u32, current: Option<u32>) -> Conversion {
    if rate == 0 || rate == target {
        Conversion::AsIs
    } else {
        Conversion::Resample { from: rate, to: target, fresh: current != Some(rate) }
    }
}

fn convert(rate: u32, target: u32, current: Option<u32>) -> (c: Conversion)
    ensures
        c == conversion(rate, target, current),
{
    if rate == 0 || rate == target {
        Conversion::AsIs
    } else {
        let fresh: bool = match current {
            Some(from) => from != rate,
            None => true,
        };
        Conversion::Resample { from: rate, to: target, fresh }
    }
}

/// The queues of a call.
#[derive(Clone, Copy, Debug, PartialEq, Eq, Structural)]
pub enum Queue {
    Voice,
    /// Mixed with the voice as it is sent.
    Background,
}

/// Audio to queue as far as there is room.
#[derive(Clone, Copy, Debug, PartialEq, Eq, Structural)]
pub struct DirectPush {
    pub queue: Queue,
    pub conversion: Conversion,
}

/// The samples to queue: those that were resampled, else, where no resampler could be made, those
/// that were supplied.
pub fn samples_to_queue(resampled: Option<Vec<i16>>, frame: &AudioFrame) -> (samples: Vec<i16>)
    ensures
        samples@ == (match resampled {
            Some(r) => r@,
            None => frame.data@,
        }),
{
    match resampled {
        Some(r) => r,
        None => frame.data.clone(),
    }
}

/// Supplied audio.
pub enum AudioPush {
    /// The call has ended: nothing is queued, and that is reported as done.
    Done { async_id: u64, event: EndpointEvent },
    Queue { async_id: u64, queue: Queue, conversion: Conversion },
}

/// A wait for all audio to be sent.
pub enum PlayoutWait {
    /// The call has ended: that is reported as done.
    Done { async_id: u64, event: EndpointEvent },
    /// It is reported once this queue has been sent.
    Queue { async_id: u64, queue: Queue },
}

#[derive(Clone, Copy, Debug, PartialEq, Eq, Structural)]
pub enum RecordingMode {
    Mono,
    Stereo,
}

pub fn recording_mode(stereo: bool) -> (mode: RecordingMode)
    ensures
        mode == if stereo {
            RecordingMode::Stereo
        } else {
            RecordingMode::Mono
        },
{
    if stereo {
        RecordingMode::Stereo
    } else {
        RecordingMode::Mono
    }
}

/// A call that was let go when the endpoint shut down.
pub struct LetGo {
    pub call_id: String,
    pub hangup: Hangup,
}

/// The end of the endpoint, in the order in which it is carried out and told: the registration is
/// withdrawn, every call is let go, and the end itself is told.
pub struct Shutdown {
    pub unregister: Option<UnregisterPlan>,
    pub unregistered: EndpointEvent,
    pub calls: Vec<LetGo>,
    pub event: EndpointEvent,
}

/// The number that follows `id`.
pub open spec fn next_id(id: u64) -> u64 {
    if id == u64::MAX {
        0
    } else {
        (id + 1) as u64
    }
}

/// The number handed out `n` requests after `first`.
pub open spec fn nth_id(first: u64, n: nat) -> u64
    decreases n,
{
    if n == 0 {
        first
    } else {
        next_id(nth_id(first, (n - 1) as nat))
    }
}

impl EndpointView {
    /// The state with one more number handed out.
    pub open spec fn counted(self) -> EndpointView {
        EndpointView { next_async_id: next_id(self.next_async_id), ..self }
    }

    /// The state once a request to change a call was carried out: a call that has ended, or is not
    /// there, is not changed.
    pub open spec fn changed(self, id: Seq<char>, call: CallView) -> EndpointView {
        if self.active(id) {
            self.with_call(id, call)
        } else {
            self
        }
    }

    /// Whether a request for a call was answered as it should: it succeeds exactly where the call
    /// is there, ended or not.
    pub open spec fn answers<T>(self, id: Seq<char>, r: Result<T, EndpointError>) -> bool {
        match r {
            Ok(_) => self.has(id),
            Err(e) => !self.has(id) && e@ == ErrorView::CallNotActive(id),
        }
    }

    /// What audio at `rate` comes to that is queued as far as there is room, each time by a resampler
    /// made for it: nothing where the call has ended.
    pub open spec fn direct(self, id: Seq<char>, queue: Queue, rate: u32) -> Option<DirectPush> {
        if self.active(id) {
            Some(
                DirectPush {
                    queue,
                    conversion: conversion(rate, self.config.output_sample_rate, None),
                },
            )
        } else {
            None
        }
    }

    /// Whether a plan is what supplying audio at `rate` comes to.
    pub open spec fn supplies(self, id: Seq<char>, rate: u32, push: AudioPush) -> bool {
        if self.calls[id].terminated {
            &&& push is Done
            &&& push->Done_async_id == self.next_async_id
            &&& push->Done_event@ == (EventView::AudioCaptureComplete {
                session_id: id,
                async_id: self.next_async_id,
                cancelled: false,
            })
        } else {
            &&& push is Queue
            &&& push->Queue_async_id == self.next_async_id
            &&& push->queue == Queue::Voice
            &&& push->conversion == conversion(
                rate,
                self.config.output_sample_rate,
                self.calls[id].resampler_rate,
            )
        }
    }
}

impl SipEndpoint {
    pub fn mute(&mut self, call_id: &str) -> (r: Result<(), EndpointError>)
        ensures
            old(self)@.answers(call_id@, r),
            final(self)@ == old(self)@.changed(
                call_id@,
                CallView { muted: true, ..old(self)@.calls[call_id@] },
            ),
    {
        self.set_muted(call_id, true)
    }

    pub fn unmute(&mut self, call_id: &str) -> (r: Result<(), EndpointError>)
        ensures
            old(self)@.answers(call_id@, r),
            final(self)@ == old(self)@.changed(
                call_id@,
                CallView { muted: false, ..old(self)@.calls[call_id@] },
            ),
    {
        self.set_muted(call_id, false)
    }

    fn set_muted(&mut self, call_id: &str, muted: bool) -> (r: Result<(), EndpointError>)
        ensures
            old(self)@.answers(call_id@, r),
            final(self)@ == old(self)@.changed(
                call_id@,
                CallView { muted, ..old(self)@.calls[call_id@] },
            ),
    {
        match self.take_call(call_id) {
            Some((id, mut ctx)) => {
                if !ctx.terminated {
                    ctx.muted = muted;
                }
                self.put_call(id, ctx);
                Ok(())
            },
            None => Err(not_active(call_id)),
        }
    }

    pub fn pause(&mut self, call_id: &str) -> (r: Result<(), EndpointError>)
        ensures
            old(self)@.answers(call_id@, r),
            final(self)@ == old(self)@.changed(
                call_id@,
                CallView { paused: true, ..old(self)@.calls[call_id@] },
            ),
    {
        self.set_paused(call_id, true)
    }

    pub fn resume(&mut self, call_id: &str) -> (r: Result<(), EndpointError>)
        ensures
            old(self)@.answers(call_id@, r),
            final(self)@ == old(self)@.changed(
                call_id@,
                CallView { paused: false, ..old(self)@.calls[call_id@] },
            ),
    {
        self.set_paused(call_id, false)
    }

    fn set_paused(&mut self, call_id: &str, paused: bool) -> (r: Result<(), EndpointError>)
        ensures
            old(self)@.answers(call_id@, r),
            final(self)@ == old(self)@.changed(
                call_id@,
                CallView { paused, ..old(self)@.calls[call_id@] },
            ),
    {
        match self.take_call(call_id) {
            Some((id, mut ctx)) => {
                if !ctx.terminated {
                    ctx.paused = paused;
                }
                self.put_call(id, ctx);
                Ok(())
            },
            None => Err(not_active(call_id)),
        }
    }

    /// Resets the playout flag, so that the next wait lasts until the queue has been sent. Queued
    /// audio stays.
    pub fn flush(&self, call_id: &str, flag: &mut PlayoutFlag) -> (r: Result<(), EndpointError>)
        ensures
            self@.answers(call_id@, r),
            final(flag).done == (old(flag).done && !self@.active(call_id@)),
    {
        if self.with_active_call(call_id)?.is_some() {
            flag.done = false;
        }
        Ok(())
    }

    /// The queue to empty, where the call has not ended. The resampler goes with it: its state would
    /// click at the start of what is supplied next.
    pub fn clear_buffer(&mut self, call_id: &str) -> (r: Result<Option<Queue>, EndpointError>)
        ensures
            old(self)@.answers(call_id@, r),
            r is Ok ==> r->Ok_0 == if old(self)@.active(call_id@) {
                Some(Queue::Voice)
            } else {
                None
            },
            final(self)@ == old(self)@.changed(
                call_id@,
                CallView { resampler_rate: None, ..old(self)@.calls[call_id@] },
            ),
    {
        match self.take_call(call_id) {
            Some((id, mut ctx)) => {
                let queue: Option<Queue> = if ctx.terminated {
                    None
                } else {
                    ctx.resampler_rate = None;
                    Some(Queue::Voice)
                };
                self.put_call(id, ctx);
                Ok(queue)
            },
            None => Err(not_active(call_id)),
        }
    }

    /// Whether all queued audio was sent before a wait for that timed out.
    pub fn wait_for_playout(&self, call_id: &str, timed_out: bool) -> (r: Result<
        bool,
        EndpointError,
    >)
        ensures
            self@.answers(call_id@, r),
            r is Ok ==> r->Ok_0 == !timed_out,
    {
        let _ = self.with_call(call_id)?;
        Ok(!timed_out)
    }

    /// Hands out the next number for what completes later.
    fn allocate_id(&mut self) -> (id: u64)
        ensures
            id == old(self)@.next_async_id,
            final(self)@ == old(self)@.counted(),
    {
        let id: u64 = self.next_async_id;
        self.next_async_id = if id == u64::MAX {
            0
        } else {
            id + 1
        };
        id
    }

    /// Audio is supplied for a call. Whenever this succeeds, and the samples are queued, completion
    /// is reported under the number that comes back.
    pub fn send_audio_async(&mut self, call_id: &str, frame: &AudioFrame) -> (r: Result<
        AudioPush,
        EndpointError,
    >)
        ensures
            old(self)@.answers(call_id@, r),
            r is Ok ==> old(self)@.supplies(call_id@, frame.sample_rate, r->Ok_0),
            final(self)@ == old(self)@.counted(),
    {
        let async_id: u64 = self.allocate_id();
        let ctx = self.with_call(call_id)?;
        if ctx.terminated {
            let event = EndpointEvent::AudioCaptureComplete {
                session_id: call_id.to_owned(),
                async_id,
                cancelled: false,
            };
            return Ok(AudioPush::Done { async_id, event });
        }
        let conversion = convert(
            frame.sample_rate,
            self.config.output_sample_rate,
            ctx.resampler_rate,
        );
        Ok(AudioPush::Queue { async_id, queue: Queue::Voice, conversion })
    }

    /// The same for whoever does not wait for the completion.
    pub fn send_audio(&mut self, call_id: &str, frame: &AudioFrame) -> (r: Result<
        AudioPush,
        EndpointError,
    >)
        ensures
            old(self)@.answers(call_id@, r),
            r is Ok ==> old(self)@.supplies(call_id@, frame.sample_rate, r->Ok_0),
            final(self)@ == old(self)@.counted(),
    {
        self.send_audio_async(call_id, frame)
    }

    /// A resampler from the rate `from` was made for a call, or could not be.
    pub fn resampler_made(&mut self, call_id: &str, from: u32, made: bool)
        ensures
            final(self)@ == if old(self)@.has(call_id@) {
                old(self)@.with_call(
                    call_id@,
                    CallView {
                        resampler_rate: if made {
                            Some(from)
                        } else {
                            None
                        },
                        ..old(self)@.calls[call_id@]
                    },
                )
            } else {
                old(self)@
            },
    {
        if let Some((id, mut ctx)) = self.take_call(call_id) {
            ctx.resampler_rate = if made {
                Some(from)
            } else {
                None
            };
            self.put_call(id, ctx);
        }
    }

    /// The number that completion is reported under, once the queue took the samples.
    pub fn queued(&self, async_id: u64, outcome: Result<(), String>) -> (r: Result<
        u64,
        EndpointError,
    >)
        ensures
            match outcome {
                Ok(_) => r is Ok && r->Ok_0 == async_id,
                Err(why) => r is Err && r->Err_0@ == ErrorView::Other(why@),
            },
    {
        match outcome {
            Ok(_) => Ok(async_id),
            Err(why) => Err(EndpointError::Other(why)),
        }
    }

    /// Voice that is queued as far as there is room. Audio for a call that has ended is dropped.
    pub fn send_audio_no_backpressure(&self, call_id: &str, frame: &AudioFrame) -> (r: Result<
        Option<DirectPush>,
        EndpointError,
    >)
        ensures
            self@.answers(call_id@, r),
            r is Ok ==> r->Ok_0 == self@.direct(call_id@, Queue::Voice, frame.sample_rate),
    {
        self.push_directly(call_id, Queue::Voice, frame)
    }

    /// Background audio. It goes to the background queue, and leaves the voice and the resampler for
    /// the voice as they are.
    pub fn send_background_audio(&self, call_id: &str, frame: &AudioFrame) -> (r: Result<
        Option<DirectPush>,
        EndpointError,
    >)
        ensures
            self@.answers(call_id@, r),
            r is Ok ==> r->Ok_0 == self@.direct(call_id@, Queue::Background, frame.sample_rate),
    {
        self.push_directly(call_id, Queue::Background, frame)
    }

    fn push_directly(&self, call_id: &str, queue: Queue, frame: &AudioFrame) -> (r: Result<
        Option<DirectPush>,
        EndpointError,
    >)
        ensures
            self@.answers(call_id@, r),
            r is Ok ==> r->Ok_0 == self@.direct(call_id@, queue, frame.sample_rate),
    {
        match self.with_active_call(call_id)? {
            Some(_) => {
                let conversion = convert(frame.sample_rate, self.config.output_sample_rate, None);
                Ok(Some(DirectPush { queue, conversion }))
            },
            None => Ok(None),
        }
    }

    /// The audio that was received on a call, given what waited.
    pub fn recv_audio(&self, call_id: &str, waiting: Option<AudioFrame>) -> (r: Result<
        Option<AudioFrame>,
        EndpointError,
    >)
        ensures
            self@.answers(call_id@, r),
            r is Ok ==> r->Ok_0 == waiting,
    {
        let _ = self.with_call(call_id)?;
        Ok(waiting)
    }

    /// The same for what came within a timeout.
    pub fn recv_audio_blocking(&self, call_id: &str, came: Option<AudioFrame>) -> (r: Result<
        Option<AudioFrame>,
        EndpointError,
    >)
        ensures
            self@.answers(call_id@, r),
            r is Ok ==> r->Ok_0 == came,
    {
        self.recv_audio(call_id, came)
    }

    /// How many whole frames of twenty milliseconds the voice queue of a call holds, given its samples.
    pub fn queued_frames(&self, call_id: &str, samples: usize) -> (r: Result<usize, EndpointError>)
        requires
            self@.config.output_sample_rate * 20 <= u32::MAX,
            self@.has(call_id@) ==> self@.config.output_sample_rate >= 50,
        ensures
            self@.answers(call_id@, r),
            r is Ok ==> r->Ok_0 as int == samples as int / (self@.config.output_sample_rate as int
                * 20 / 1000),
    {
        let frame: usize = (self.config.output_sample_rate * 20 / 1000) as usize;
        let _ = self.with_call(call_id)?;
        Ok(samples / frame)
    }

    /// Somebody waits for the queue of a call to be sent. Whenever this succeeds, completion is
    /// reported under the number that comes back.
    pub fn wait_for_playout_async(&mut self, call_id: &str) -> (r: Result<
        PlayoutWait,
        EndpointError,
    >)
        ensures
            old(self)@.answers(call_id@, r),
            r is Ok ==> {
                let async_id = old(self)@.next_async_id;
                if old(self)@.calls[call_id@].terminated {
                    &&& r->Ok_0 is Done
                    &&& r->Ok_0->Done_async_id == async_id
                    &&& r->Ok_0->Done_event@ == (EventView::AudioPlayoutComplete {
                        session_id: call_id@,
                        async_id,
                    })
                } else {
                    r->Ok_0 == (PlayoutWait::Queue { async_id, queue: Queue::Voice })
                }
            },
            final(self)@ == old(self)@.counted(),
    {
        let async_id: u64 = self.allocate_id();
        let ctx = self.with_call(call_id)?;
        if ctx.terminated {
            let event = EndpointEvent::AudioPlayoutComplete {
                session_id: call_id.to_owned(),
                async_id,
            };
            return Ok(PlayoutWait::Done { async_id, event });
        }
        Ok(PlayoutWait::Queue { async_id, queue: Queue::Voice })
    }

    /// The recording that was started for a call takes in its audio from now on.
    pub fn start_recording(&mut self, call_id: &str) -> (r: Result<(), EndpointError>)
        ensures
            old(self)@.answers(call_id@, r),
            final(self)@ == old(self)@.recording(call_id@, true),
    {
        match self.take_call(call_id) {
            Some((id, mut ctx)) => {
                ctx.recording = true;
                self.put_call(id, ctx);
                Ok(())
            },
            None => Err(not_active(call_id)),
        }
    }

    /// The recording of a call was stopped. A call that is gone had its recording stopped all the
    /// same.
    pub fn stop_recording(&mut self, call_id: &str) -> (r: Result<(), EndpointError>)
        ensures
            r is Ok,
            final(self)@ == old(self)@.recording(call_id@, false),
    {
        if let Some((id, mut ctx)) = self.take_call(call_id) {
            ctx.recording = false;
            self.put_call(id, ctx);
        }
        Ok(())
    }

    /// A beep is listened for on a call from now on.
    pub fn detect_beep(&mut self, call_id: &str) -> (r: Result<(), EndpointError>)
        ensures
            old(self)@.answers(call_id@, r),
            final(self)@ == old(self)@.listening(call_id@, true),
    {
        match self.take_call(call_id) {
            Some((id, mut ctx)) => {
                ctx.beep_detection = true;
                self.put_call(id, ctx);
                Ok(())
            },
            None => Err(not_active(call_id)),
        }
    }

    /// A beep is no longer listened for, at the application's request.
    pub fn cancel_beep_detection(&mut self, call_id: &str) -> (r: Result<(), EndpointError>)
        ensures
            match r {
                Ok(_) => old(self)@.has(call_id@) && old(self)@.calls[call_id@].beep_detection,
                Err(e) => if old(self)@.has(call_id@) {
                    !old(self)@.calls[call_id@].beep_detection && e@ == ErrorView::Other(
                        "no beep detection"@,
                    )
                } else {
                    e@ == ErrorView::CallNotActive(call_id@)
                },
            },
            final(self)@ == old(self)@.listening(call_id@, false),
    {
        match self.take_call(call_id) {
            Some((id, mut ctx)) => {
                let listened: bool = ctx.beep_detection;
                ctx.beep_detection = false;
                self.put_call(id, ctx);
                if listened {
                    Ok(())
                } else {
                    Err(other("no beep detection"))
                }
            },
            None => Err(not_active(call_id)),
        }
    }

    /// The detection of a beep came to its end.
    pub fn beep_settled(&mut self, call_id: &str)
        ensures
            final(self)@ == old(self)@.listening(call_id@, false),
    {
        if let Some((id, mut ctx)) = self.take_call(call_id) {
            ctx.beep_detection = false;
            self.put_call(id, ctx);
        }
    }

    /// Shuts the endpoint down: its registration is withdrawn, or the server would keep the stale
    /// contact, and every call is hung up. One that was shut down stays so.
    pub fn shutdown(&mut self) -> (end: Option<Shutdown>)
        ensures
            match end {
                None => old(self)@.cancelled && final(self)@ == old(self)@,
                Some(s) => {
                    &&& !old(self)@.cancelled
                    &&& final(self)@ == (EndpointView {
                        registered: false,
                        cancelled: true,
                        calls: Map::empty(),
                        ..old(self)@
                    })
                    &&& old(self)@.withdraws(s.unregister)
                    &&& s.unregistered@ == EventView::Unregistered
                    &&& s.event@ == EventView::Shutdown
                    &&& old(self)@.let_go(s.calls@)
                },
            },
    {
        if self.cancelled {
            return None;
        }
        let unregister = self.unregister();
        let unregistered = self.unregistered();
        self.cancelled = true;
        let ids = self.calls.keys();
        let ghost before = old(self)@;
        let ghost start = self@;
        assert(start == EndpointView { registered: false, cancelled: true, ..before });
        let mut calls: Vec<LetGo> = Vec::new();
        let mut i: usize = 0;
        while i < ids.len()
            invariant
                before == old(self)@,
                start == (EndpointView { registered: false, cancelled: true, ..before }),
                i <= ids@.len(),
                calls@.len() == i,
                forall|j: int| 0 <= j < ids@.len() ==> before.has((#[trigger] ids@[j])@),
                forall|j: int, k: int|
                    0 <= j < k < ids@.len() ==> (#[trigger] ids@[j])@ != (#[trigger] ids@[k])@,
                self@ == (EndpointView { calls: self@.calls, ..start }),
                forall|id: Seq<char>| #[trigger]
                    self@.calls.dom().contains(id) <==> before.has(id) && (forall|j: int|
                        0 <= j < i ==> (#[trigger] ids@[j])@ != id),
                forall|id: Seq<char>| #[trigger]
                    self@.calls.dom().contains(id) ==> self@.calls[id] == before.calls[id],
                forall|j: int|
                    0 <= j < i ==> (#[trigger] calls@[j]).call_id@ == ids@[j]@ && before.lets_go(
                        calls@[j],
                    ),
            decreases ids@.len() - i,
        {
            let call_id = ids[i].clone();
            assert(self@.calls.dom().contains(call_id@));
            let hangup = self.hangup(call_id.as_str());
            calls.push(LetGo { call_id, hangup });
            i += 1;
        }
        proof {
            assert forall|id: Seq<char>| !self@.calls.dom().contains(id) by {
                if before.has(id) {
                    let j = choose|j: int| 0 <= j < ids@.len() && (#[trigger] ids@[j])@ == id;
                    assert(ids@[j]@ == id);
                }
            }
            assert(self@.calls =~= Map::empty());
            assert forall|id: Seq<char>| before.has(id) implies exists|j: int|
                0 <= j < calls@.len() && (#[trigger] calls@[j]).call_id@ == id by {
                let j = choose|j: int| 0 <= j < ids@.len() && (#[trigger] ids@[j])@ == id;
                assert(calls@[j].call_id@ == id);
            }
            assert forall|j: int, k: int| 0 <= j < k < calls@.len() implies (
            #[trigger] calls@[j]).call_id@ != (#[trigger] calls@[k]).call_id@ by {
                assert(ids@[j]@ != ids@[k]@);
            }
        }
        Some(Shutdown { unregister, unregistered, calls, event: EndpointEvent::Shutdown })
    }
}

impl EndpointView {
    /// The state once a beep is listened for on a call, or no longer.
    pub open spec fn listening(self, id: Seq<char>, on: bool) -> EndpointView {
        if self.has(id) {
            self.with_call(id, CallView { beep_detection: on, ..self.calls[id] })
        } else {
            self
        }
    }

    /// The state once a call is recorded, or no longer.
    pub open spec fn recording(self, id: Seq<char>, on: bool) -> EndpointView {
        if self.has(id) {
            self.with_call(id, CallView { recording: on, ..self.calls[id] })
        } else {
            self
        }
    }

    /// Whether a call was let go as hanging it up would.
    pub open spec fn lets_go(self, call: LetGo) -> bool {
        &&& self.has(call.call_id@)
        &&& event_view(call.hangup.event) == self.termination(call.call_id@, "local hangup"@)
        &&& call.hangup.bye == self.farewell(call.call_id@)
        &&& call.hangup.cancel == self.active(call.call_id@)
    }

    /// Whether every call was let go, and each once.
    pub open spec fn let_go(self, calls: Seq<LetGo>) -> bool {
        &&& forall|i: int| 0 <= i < calls.len() ==> self.lets_go(#[trigger] calls[i])
        &&& forall|id: Seq<char>| #[trigger]
            self.has(id) ==> exists|i: int|
                0 <= i < calls.len() && (#[trigger] calls[i]).call_id@ == id
        &&& forall|i: int, j: int|
            0 <= i < j < calls.len() ==> (#[trigger] calls[i]).call_id@ != (
            #[trigger] calls[j]).call_id@
    }
}

/// What is asked of a call that has ended succeeds and changes nothing.
pub proof fn an_ended_call_does_not_change(e: EndpointView, id: Seq<char>, call: CallView)
    ensures
        e.has(id) ==> e.terminated(id).changed(id, call) == e.terminated(id),
{
}

/// Unmuting a call that was muted, and resuming one that was paused, leaves it as it was before.
pub proof fn muting_and_pausing_are_undone(e: EndpointView, id: Seq<char>)
    requires
        e.active(id),
    ensures
        ({
            let muted = e.changed(id, CallView { muted: true, ..e.calls[id] });
            !e.calls[id].muted ==> muted.changed(
                id,
                CallView { muted: false, ..muted.calls[id] },
            ) == e
        }),
        ({
            let paused = e.changed(id, CallView { paused: true, ..e.calls[id] });
            !e.calls[id].paused ==> paused.changed(
                id,
                CallView { paused: false, ..paused.calls[id] },
            ) == e
        }),
{
    let muted = e.changed(id, CallView { muted: true, ..e.calls[id] });
    let paused = e.changed(id, CallView { paused: true, ..e.calls[id] });
    assert(!e.calls[id].muted ==> muted.calls.insert(
        id,
        CallView { muted: false, ..muted.calls[id] },
    ) =~= e.calls);
    assert(!e.calls[id].paused ==> paused.calls.insert(
        id,
        CallView { paused: false, ..paused.calls[id] },
    ) =~= e.calls);
}

/// Stopping a recording, or the detection of a beep, twice is stopping it once.
pub proof fn stopping_twice_is_stopping_once(e: EndpointView, id: Seq<char>)
    ensures
        e.recording(id, false).recording(id, false) == e.recording(id, false),
        e.listening(id, false).listening(id, false) == e.listening(id, false),
{
    if e.has(id) {
        let silent = CallView { recording: false, ..e.calls[id] };
        assert(e.calls.insert(id, silent).insert(id, silent) =~= e.calls.insert(id, silent));
        let deaf = CallView { beep_detection: false, ..e.calls[id] };
        assert(e.calls.insert(id, deaf).insert(id, deaf) =~= e.calls.insert(id, deaf));
    }
}

/// The numbers handed out do not repeat before all of them have been.
pub proof fn async_ids_do_not_repeat(first: u64, i: nat, j: nat)
    requires
        i < j <= u64::MAX,
    ensures
        nth_id(first, i) != nth_id(first, j),
{
    nth_id_counts(first, i);
    nth_id_counts(first, j);
}

proof fn nth_id_counts(first: u64, n: nat)
    requires
        n <= u64::MAX,
    ensures
        nth_id(first, n) == if first + n <= u64::MAX {
            first + n
        } else {
            first + n - 0x1_0000_0000_0000_0000
        },
    decreases n,
{
    if n > 0 {
        nth_id_counts(first, (n - 1) as nat);
    }
}

/// Audio is resampled exactly where its rate is known and is not the one it is queued at: from the
/// one to the other, by a resampler made for it unless there is one from its rate.
pub proof fn audio_is_resampled_where_its_rate_differs(rate: u32, target: u32, current: Option<u32>)
    ensures
        conversion(rate, target, current) == Conversion::AsIs <==> rate == 0 || rate == target,
        conversion(rate, target, current) matches Conversion::Resample { from, to, fresh } ==> {
            &&& from == rate
            &&& to == target
            &&& fresh <==> current is None || current->0 != rate
        },
{
}

/// Handing out a number moves on to the next, around the end to zero, and touches nothing else.
pub proof fn handing_out_a_number_counts_on(e: EndpointView)
    ensures
        e.counted().next_async_id == (e.next_async_id + 1) % 0x1_0000_0000_0000_0000,
        next_id(e.next_async_id) == (e.next_async_id + 1) % 0x1_0000_0000_0000_0000,
        e.counted().config == e.config,
        e.counted().registered == e.registered,
        e.counted().calls == e.calls,
        e.counted().connected == e.connected,
        e.counted().credential == e.credential,
        e.counted().contact_uri == e.contact_uri,
        e.counted().aor == e.aor,
        e.counted().local_addr == e.local_addr,
        e.counted().public_addr == e.public_addr,
        e.counted().sip_server_addr == e.sip_server_addr,
        e.counted().cancelled == e.cancelled,
{
}

/// A request to change a call changes that call, where it is here and has not ended, and nothing
/// else.
pub proof fn an_active_call_changes_alone(
    e: EndpointView,
    id: Seq<char>,
    call: CallView,
    another: Seq<char>,
)
    requires
        another != id,
    ensures
        e.calls.dom().contains(id) && !e.calls[id].terminated ==> e.changed(id, call).calls[id]
            == call && e.changed(id, call).calls.dom().contains(id),
        !(e.calls.dom().contains(id) && !e.calls[id].terminated) ==> e.changed(id, call) == e,
        e.changed(id, call).calls.dom().contains(another) <==> e.calls.dom().contains(another),
        e.calls.dom().contains(another) ==> e.changed(id, call).calls[another] == e.calls[another],
        e.changed(id, call) == (EndpointView { calls: e.changed(id, call).calls, ..e }),
{
}

/// A request for a call succeeds exactly where the call is here, ended or not; otherwise it fails
/// with an error that names the call.
pub proof fn a_request_succeeds_where_the_call_is_here<T>(
    e: EndpointView,
    id: Seq<char>,
    r: Result<T, EndpointError>,
)
    requires
        e.answers(id, r),
    ensures
        r is Ok <==> e.calls.dom().contains(id),
        r matches Err(error) ==> error is CallNotActive && error->CallNotActive_0@ == id,
{
}

/// Audio that is queued as far as there is room goes to the queue it is meant for, brought to the
/// rate it is queued at; that of a call that has ended, or is not here, is dropped.
pub proof fn direct_audio_goes_to_its_queue(e: EndpointView, id: Seq<char>, queue: Queue, rate: u32)
    ensures
        e.direct(id, queue, rate) is Some <==> e.calls.dom().contains(id)
            && !e.calls[id].terminated,
        e.direct(id, queue, rate) matches Some(push) ==> {
            &&& push.queue == queue
            &&& push.conversion == Conversion::AsIs <==> rate == 0 || rate
                == e.config.output_sample_rate
            &&& push.conversion != Conversion::AsIs ==> push.conversion == (Conversion::Resample {
                from: rate,
                to: e.config.output_sample_rate,
                fresh: true,
            })
        },
{
}

/// Audio that is supplied goes to the voice queue, under the next number, brought to the rate it is
/// queued at by the call's resampler where that is from its rate; for a call that has ended it is
/// reported as done, under the same number, and not as cancelled.
pub proof fn supplied_audio_goes_to_the_voice_queue(
    e: EndpointView,
    id: Seq<char>,
    rate: u32,
    push: AudioPush,
)
    requires
        e.supplies(id, rate, push),
    ensures
        push is Done <==> e.calls[id].terminated,
        push matches AudioPush::Done { async_id, event } ==> {
            &&& async_id == e.next_async_id
            &&& event is AudioCaptureComplete
            &&& event->AudioCaptureComplete_session_id@ == id
            &&& event->AudioCaptureComplete_async_id == e.next_async_id
            &&& !event->cancelled
        },
        push matches AudioPush::Queue { async_id, queue, conversion } ==> {
            &&& async_id == e.next_async_id
            &&& queue == Queue::Voice
            &&& conversion == Conversion::AsIs <==> rate == 0 || rate
                == e.config.output_sample_rate
            &&& conversion != Conversion::AsIs ==> conversion == (Conversion::Resample {
                from: rate,
                to: e.config.output_sample_rate,
                fresh: e.calls[id].resampler_rate != Some(rate),
            })
        },
{
}

/// Listening for a beep on a call, and recording it, is switched on and off for that call, ended or
/// not, and touches nothing else of it and nothing but it.
pub proof fn listening_and_recording_are_switched(
    e: EndpointView,
    id: Seq<char>,
    on: bool,
    another: Seq<char>,
)
    requires
        another != id,
    ensures
        !e.calls.dom().contains(id) ==> e.listening(id, on) == e && e.recording(id, on) == e,
        e.calls.dom().contains(id) ==> e.listening(id, on).calls[id] == (CallView {
            beep_detection: on,
            ..e.calls[id]
        }),
        e.calls.dom().contains(id) ==> e.recording(id, on).calls[id] == (CallView {
            recording: on,
            ..e.calls[id]
        }),
        e.calls.dom().contains(another) ==> e.listening(id, on).calls[another] == e.calls[another]
            && e.recording(id, on).calls[another] == e.calls[another],
        e.listening(id, on).calls.dom() == e.calls.dom(),
        e.recording(id, on).calls.dom() == e.calls.dom(),
        e.listening(id, on) == (EndpointView { calls: e.listening(id, on).calls, ..e }),
        e.recording(id, on) == (EndpointView { calls: e.recording(id, on).calls, ..e }),
{
    assert(e.listening(id, on).calls.dom() =~= e.calls.dom());
    assert(e.recording(id, on).calls.dom() =~= e.calls.dom());
}

/// When the endpoint is shut down every call that is here is let go, once, and none that is not. Of
/// each that had not ended the end is reported, with its session and as a local hangup, and its
/// tasks are stopped; its peer is told on the dialog that we opened, else on its own.
pub proof fn every_call_is_let_go(e: EndpointView, calls: Seq<LetGo>, i: int, id: Seq<char>)
    requires
        e.let_go(calls),
        0 <= i < calls.len(),
    ensures
        e.calls.dom().contains(calls[i].call_id@),
        e.calls.dom().contains(id) ==> exists|k: int|
            0 <= k < calls.len() && (#[trigger] calls[k]).call_id@ == id,
        forall|k: int|
            0 <= k < calls.len() && k != i ==> (#[trigger] calls[k]).call_id@ != calls[i].call_id@,
        ({
            let call = e.calls[calls[i].call_id@];
            let hangup = calls[i].hangup;
            &&& call.client_dialog ==> hangup.bye == Some(DialogSide::Client)
            &&& !call.client_dialog && call.server_dialog ==> hangup.bye == Some(DialogSide::Server)
            &&& hangup.bye is None <==> !call.client_dialog && !call.server_dialog
            &&& hangup.cancel <==> !call.terminated
            &&& hangup.event is Some <==> !call.terminated
            &&& hangup.event matches Some(event) ==> event is CallTerminated
                && event->CallTerminated_session@ == call.session && event->reason@
                == "local hangup"@
        }),
{
    assert(e.lets_go(calls[i]));
    if e.calls.dom().contains(id) {
        assert(e.has(id));
    }
}

} // verus!
