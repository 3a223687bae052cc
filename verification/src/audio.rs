//! The capture session without the device: what the input device said of
//! itself, the bounded buffer that the stream callback fills, and the
//! conversion of what was recorded to the rate of the speech engine.

use vstd::prelude::*;
use crate::error::{PipelineError, PipelineErrorView};
use crate::resample::{convertible, resample, resampled_len, resamples, TARGET_RATE};

verus! {

/// How the input device delivers its samples.
#[derive(Debug, Clone, Copy, PartialEq, Eq)]
pub enum SampleFormat {
    /// 32-bit floating point, already normalised.
    F32,
    /// 16-bit signed integers.
    I16,
    /// Anything else; not handled.
    Other,
}

/// What looking for the default input device brought.
#[derive(Debug, PartialEq, Eq)]
pub enum DeviceProbe {
    /// The machine has no input device.
    Missing,
    /// There is a device, but it would not tell its configuration.
    Unreadable(String),
    /// The device and its native rate and format.
    Ready { sample_rate: u32, format: SampleFormat },
}

pub ghost enum DeviceProbeView {
    Missing,
    Unreadable(Seq<char>),
    Ready { sample_rate: u32, format: SampleFormat },
}

impl View for DeviceProbe {
    type V = DeviceProbeView;

    open spec fn view(&self) -> DeviceProbeView {
        match self {
            DeviceProbe::Missing => DeviceProbeView::Missing,
            DeviceProbe::Unreadable(detail) => DeviceProbeView::Unreadable(detail@),
            DeviceProbe::Ready { sample_rate, format } => DeviceProbeView::Ready {
                sample_rate: *sample_rate,
                format: *format,
            },
        }
    }
}

/// The number of samples in `seconds` seconds at `sample_rate`, as far as a
/// buffer can hold them.
pub open spec fn capacity_for(sample_rate: u32, seconds: u64) -> nat {
    if sample_rate * seconds <= usize::MAX {
        (sample_rate * seconds) as nat
    } else {
        usize::MAX as nat
    }
}

/// A buffer of samples that never grows beyond its capacity. What does not
/// fit is dropped, so the audio thread is never held up.
pub struct CaptureBuffer<T> {
    samples: Vec<T>,
    capacity: usize,
}

pub ghost struct CaptureBufferView<T> {
    pub samples: Seq<T>,
    pub capacity: nat,
}

impl<T> CaptureBufferView<T> {
    /// The buffer holds no more than its capacity.
    pub open spec fn wf(self) -> bool {
        self.samples.len() <= self.capacity
    }

    /// How many more samples fit.
    pub open spec fn room(self) -> nat {
        (self.capacity - self.samples.len()) as nat
    }

    /// The buffer after `data` was offered to it: as much of the front of
    /// `data` as fits is appended, the rest is dropped.
    pub open spec fn offered(self, data: Seq<T>) -> CaptureBufferView<T> {
        CaptureBufferView {
            samples: self.samples + data.take(accepted(self.room(), data.len()) as int),
            capacity: self.capacity,
        }
    }
}

/// How many of `offered` samples a buffer with `room` free places takes.
pub open spec fn accepted(room: nat, offered: nat) -> nat {
    if offered <= room {
        offered
    } else {
        room
    }
}

impl<T> View for CaptureBuffer<T> {
    type V = CaptureBufferView<T>;

    closed spec fn view(&self) -> CaptureBufferView<T> {
        CaptureBufferView { samples: self.samples@, capacity: self.capacity as nat }
    }
}

impl<T> CaptureBuffer<T> {
    /// An empty buffer for at most `capacity` samples.
    pub fn new(capacity: usize) -> (buffer: Self)
        ensures
            buffer@.wf(),
            buffer@ == (CaptureBufferView::<T> { samples: Seq::empty(), capacity: capacity as nat }),
    {
        CaptureBuffer { samples: Vec::new(), capacity }
    }

    /// The number of samples held.
    pub fn len(&self) -> (count: usize)
        ensures
            count == self@.samples.len(),
    {
        self.samples.len()
    }

    /// The greatest number of samples the buffer will hold.
    pub fn capacity(&self) -> (limit: usize)
        ensures
            limit == self@.capacity,
    {
        self.capacity
    }

    /// Whether no further sample fits.
    pub fn is_full(&self) -> (full: bool)
        requires
            self@.wf(),
        ensures
            full == (self@.samples.len() == self@.capacity),
    {
        self.samples.len() >= self.capacity
    }

    /// Appends `sample` if it fits and says whether it did.
    pub fn push(&mut self, sample: T) -> (kept: bool)
        requires
            old(self)@.wf(),
        ensures
            final(self)@.wf(),
            kept == (old(self)@.samples.len() < old(self)@.capacity),
            kept ==> final(self)@.samples == old(self)@.samples.push(sample),
            !kept ==> final(self)@ == old(self)@,
            final(self)@.capacity == old(self)@.capacity,
    {
        if self.samples.len() < self.capacity {
            self.samples.push(sample);
            true
        } else {
            false
        }
    }

    /// Hands the samples over.
    pub fn into_samples(self) -> (samples: Vec<T>)
        ensures
            samples@ == self@.samples,
    {
        self.samples
    }
}

impl<T: Copy> CaptureBuffer<T> {
    /// Offers a block of samples, as the stream callback does: the front of
    /// `data` is appended as far as it fits, the rest is dropped. Returns
    /// how many samples were taken.
    pub fn extend(&mut self, data: &[T]) -> (taken: usize)
        requires
            old(self)@.wf(),
        ensures
            final(self)@.wf(),
            final(self)@ == old(self)@.offered(data@),
            taken == accepted(old(self)@.room(), data@.len()),
    {
        let mut taken: usize = 0;
        while taken < data.len() && self.samples.len() < self.capacity
            invariant
                taken <= data@.len(),
                self.capacity == old(self).capacity,
                self.samples@.len() <= self.capacity,
                self.samples@ == old(self).samples@ + data@.take(taken as int),
            decreases data@.len() - taken,
        {
            self.samples.push(data[taken]);
            taken += 1;
            assert(data@.take(taken as int) =~= data@.take(taken - 1).push(data@[taken - 1]));
            assert(self.samples@ =~= old(self).samples@ + data@.take(taken as int));
        }
        taken
    }
}

impl<T> CaptureBufferView<T> {
    /// Whether `after` is this buffer once `data` was offered to it with
    /// every sample passed through `convert` on the way in.
    pub open spec fn offered_through<U, F: Fn(U) -> T>(
        self,
        data: Seq<U>,
        convert: F,
        after: CaptureBufferView<T>,
    ) -> bool {
        &&& after.capacity == self.capacity
        &&& after.samples.len() == self.samples.len() + accepted(self.room(), data.len())
        &&& after.samples.take(self.samples.len() as int) == self.samples
        &&& forall|k: int|
            0 <= k < accepted(self.room(), data.len()) ==> call_ensures(
                convert,
                (data[k],),
                #[trigger] after.samples[self.samples.len() + k],
            )
    }
}

impl<T> CaptureBuffer<T> {
    /// Offers a block of samples in the device's own format: each sample
    /// that fits is converted and appended, the rest is dropped. Returns how
    /// many samples were taken.
    pub fn extend_mapped<U: Copy, F: Fn(U) -> T>(&mut self, data: &[U], convert: F) -> (taken:
        usize)
        requires
            old(self)@.wf(),
            forall|sample: U| call_requires(convert, (sample,)),
        ensures
            final(self)@.wf(),
            old(self)@.offered_through(data@, convert, final(self)@),
            taken == accepted(old(self)@.room(), data@.len()),
    {
        let ghost before = self.samples@;
        let mut taken: usize = 0;
        while taken < data.len() && self.samples.len() < self.capacity
            invariant
                taken <= data@.len(),
                before == old(self).samples@,
                self.capacity == old(self).capacity,
                self.samples@.len() <= self.capacity,
                self.samples@.len() == before.len() + taken,
                self.samples@.take(before.len() as int) == before,
                forall|sample: U| call_requires(convert, (sample,)),
                forall|k: int|
                    0 <= k < taken ==> call_ensures(
                        convert,
                        (data@[k],),
                        #[trigger] self.samples@[before.len() + k],
                    ),
            decreases data@.len() - taken,
        {
            let ghost earlier = self.samples@;
            let converted = convert(data[taken]);
            self.samples.push(converted);
            taken += 1;
            assert(self.samples@.take(before.len() as int) =~= earlier.take(before.len() as int));
            assert forall|k: int| 0 <= k < taken implies call_ensures(
                convert,
                (data@[k],),
                #[trigger] self.samples@[before.len() + k],
            ) by {
                if k < taken - 1 {
                    assert(self.samples@[before.len() + k] == earlier[before.len() + k]);
                }
            }
        }
        taken
    }
}

/// A capture session: the native rate and format of the input device that
/// it records from.
#[derive(Debug, Clone, Copy)]
pub struct AudioRecorder {
    sample_rate: u32,
    sample_format: SampleFormat,
}

pub ghost struct AudioRecorderView {
    pub sample_rate: u32,
    pub sample_format: SampleFormat,
}

impl View for AudioRecorder {
    type V = AudioRecorderView;

    closed spec fn view(&self) -> AudioRecorderView {
        AudioRecorderView { sample_rate: self.sample_rate, sample_format: self.sample_format }
    }
}

impl AudioRecorder {
    /// Opens a session on what the probe of the default input device
    /// brought. It fails with `NoInputDevice` where there is no device and
    /// with `DeviceConfigError` where the device would not tell its
    /// configuration, and succeeds otherwise.
    pub fn new(probe: DeviceProbe) -> (session: Result<Self, PipelineError>)
        ensures
            match probe@ {
                DeviceProbeView::Missing => session matches Err(error) && error@
                    == PipelineErrorView::NoInputDevice,
                DeviceProbeView::Unreadable(detail) => session matches Err(error) && error@
                    == PipelineErrorView::DeviceConfigError(detail),
                DeviceProbeView::Ready { sample_rate, format } => session matches Ok(recorder)
                    && recorder@ == (AudioRecorderView { sample_rate, sample_format: format }),
            },
    {
        match probe {
            DeviceProbe::Missing => Err(PipelineError::NoInputDevice),
            DeviceProbe::Unreadable(detail) => Err(PipelineError::DeviceConfigError(detail)),
            DeviceProbe::Ready { sample_rate, format } => Ok(
                AudioRecorder { sample_rate, sample_format: format },
            ),
        }
    }

    /// The device's native rate, in samples per second.
    pub fn sample_rate(&self) -> (rate: u32)
        ensures
            rate == self@.sample_rate,
    {
        self.sample_rate
    }

    /// The device's native sample format.
    pub fn sample_format(&self) -> (format: SampleFormat)
        ensures
            format == self@.sample_format,
    {
        self.sample_format
    }

    /// The number of samples that `seconds` seconds of recording deliver at
    /// the native rate, as far as a buffer can hold them.
    pub fn capacity(&self, seconds: u64) -> (samples: usize)
        ensures
            samples == capacity_for(self@.sample_rate, seconds),
    {
        assert(self.sample_rate * seconds <= 0xffff_ffff * 0xffff_ffff_ffff_ffff)
            by (nonlinear_arith)
            requires
                0 <= self.sample_rate <= 0xffff_ffff,
                0 <= seconds <= 0xffff_ffff_ffff_ffff,
        ;
        let wanted: u128 = self.sample_rate as u128 * seconds as u128;
        if wanted > usize::MAX as u128 {
            usize::MAX
        } else {
            wanted as usize
        }
    }

    /// Starts a recording of `seconds` seconds: hands out the empty buffer
    /// that the stream callback fills, sized for that duration at the native
    /// rate. It fails with `UnsupportedAudioFormat` where the device
    /// delivers neither 32-bit floats nor 16-bit integers.
    pub fn begin<T>(&self, seconds: u64) -> (started: Result<CaptureBuffer<T>, PipelineError>)
        ensures
            self@.sample_format is Other ==> (started matches Err(error) && error@
                == PipelineErrorView::UnsupportedAudioFormat),
            !(self@.sample_format is Other) ==> (started matches Ok(buffer) && buffer@.wf()
                && buffer@ == (CaptureBufferView::<T> {
                samples: Seq::empty(),
                capacity: capacity_for(self@.sample_rate, seconds),
            })),
    {
        match self.sample_format {
            SampleFormat::Other => Err(PipelineError::UnsupportedAudioFormat),
            _ => Ok(CaptureBuffer::new(self.capacity(seconds))),
        }
    }

    /// Starts a recording that lasts until it is cancelled: the buffer takes
    /// whatever arrives. It fails as [`Self::begin`] does.
    pub fn begin_unbounded<T>(&self) -> (started: Result<CaptureBuffer<T>, PipelineError>)
        ensures
            self@.sample_format is Other ==> (started matches Err(error) && error@
                == PipelineErrorView::UnsupportedAudioFormat),
            !(self@.sample_format is Other) ==> (started matches Ok(buffer) && buffer@.wf()
                && buffer@ == (CaptureBufferView::<T> {
                samples: Seq::empty(),
                capacity: usize::MAX as nat,
            })),
    {
        match self.sample_format {
            SampleFormat::Other => Err(PipelineError::UnsupportedAudioFormat),
            _ => Ok(CaptureBuffer::new(usize::MAX)),
        }
    }

    /// Ends a recording: brings what was recorded from the native rate to
    /// the rate of the speech engine, with `mix` as the blend of two
    /// neighbouring samples. At that rate already, the samples are returned
    /// as they are.
    pub fn finish<T: Copy, F: Fn(T, T, u32, u32) -> T>(&self, samples: Vec<T>, mix: F) -> (output:
        Vec<T>)
        requires
            convertible(samples@.len(), self@.sample_rate, TARGET_RATE),
            resampled_len(samples@.len(), self@.sample_rate, TARGET_RATE) <= usize::MAX,
            forall|a: T, b: T, num: u32|
                num < TARGET_RATE ==> call_requires(mix, (a, b, num, TARGET_RATE)),
        ensures
            resamples(samples@, self@.sample_rate, TARGET_RATE, mix, output@),
    {
        if self.sample_rate != TARGET_RATE {
            resample(samples.as_slice(), self.sample_rate, TARGET_RATE, mix)
        } else {
            samples
        }
    }
}

} // verus!
