//! Microphone capture support: normalization of every native sample format
//! into signed 16-bit PCM, and the consumer-side frame read.
//!
//! The hardware callback itself runs outside the library; it hands each
//! buffer to one of the conversion functions below and offers the result to
//! the frame channel without ever blocking.

use vstd::prelude::*;

use crate::channel::FrameChannel;

verus! {

/// Conversion of one signed 8-bit sample: scale up to the 16-bit range.
pub open spec fn i16_from_i8(s: i8) -> i16 {
    ((s as int) * 256) as i16
}

/// Conversion of one signed 32-bit sample: keep the top 16 bits.
pub open spec fn i16_from_i32(s: i32) -> i16 {
    (s >> 16) as i16
}

/// Conversion of one signed 64-bit sample: keep the top 16 bits.
pub open spec fn i16_from_i64(s: i64) -> i16 {
    (s >> 48) as i16
}

/// Conversion of one unsigned 8-bit sample: re-center, then scale up.
pub open spec fn i16_from_u8(s: u8) -> i16 {
    (((s as int) - 128) * 256) as i16
}

/// Conversion of one unsigned 16-bit sample: re-center around zero.
pub open spec fn i16_from_u16(s: u16) -> i16 {
    ((s as i32) - 32768) as i16
}

/// Conversion of one unsigned 32-bit sample: keep the top 16 bits,
/// re-centered around zero.
pub open spec fn i16_from_u32(s: u32) -> i16 {
    (((s >> 16) as i32) - 32768) as i16
}

/// Conversion of one unsigned 64-bit sample: keep the top 16 bits,
/// re-centered around zero.
pub open spec fn i16_from_u64(s: u64) -> i16 {
    (((s >> 48) as i32) - 32768) as i16
}

/// Normalizes a buffer of signed 8-bit samples.
pub fn convert_i8(data: &Vec<i8>) -> (r: Vec<i16>)
    ensures
        r@.len() == data@.len(),
        forall|i: int| 0 <= i < data@.len() ==> r@[i] == i16_from_i8(data@[i]),
{
    let mut out: Vec<i16> = Vec::new();
    let mut i: usize = 0;
    while i < data.len()
        invariant
            i <= data@.len(),
            out@.len() == i,
            forall|j: int| 0 <= j < i ==> out@[j] == i16_from_i8(data@[j]),
        decreases data@.len() - i,
    {
        let s = data[i];
        out.push((s as i16) * 256);
        i = i + 1;
    }
    out
}

/// Normalizes a buffer of signed 32-bit samples.
pub fn convert_i32(data: &Vec<i32>) -> (r: Vec<i16>)
    ensures
        r@.len() == data@.len(),
        forall|i: int| 0 <= i < data@.len() ==> r@[i] == i16_from_i32(data@[i]),
{
    let mut out: Vec<i16> = Vec::new();
    let mut i: usize = 0;
    while i < data.len()
        invariant
            i <= data@.len(),
            out@.len() == i,
            forall|j: int| 0 <= j < i ==> out@[j] == i16_from_i32(data@[j]),
        decreases data@.len() - i,
    {
        let s = data[i];
        let high = s >> 16;
        assert(-0x8000 <= high <= 0x7fff) by (bit_vector)
            requires
                high == s >> 16,
        ;
        out.push(high as i16);
        i = i + 1;
    }
    out
}

/// Normalizes a buffer of signed 64-bit samples.
pub fn convert_i64(data: &Vec<i64>) -> (r: Vec<i16>)
    ensures
        r@.len() == data@.len(),
        forall|i: int| 0 <= i < data@.len() ==> r@[i] == i16_from_i64(data@[i]),
{
    let mut out: Vec<i16> = Vec::new();
    let mut i: usize = 0;
    while i < data.len()
        invariant
            i <= data@.len(),
            out@.len() == i,
            forall|j: int| 0 <= j < i ==> out@[j] == i16_from_i64(data@[j]),
        decreases data@.len() - i,
    {
        let s = data[i];
        let high = s >> 48;
        assert(-0x8000 <= high <= 0x7fff) by (bit_vector)
            requires
                high == s >> 48,
        ;
        out.push(high as i16);
        i = i + 1;
    }
    out
}

/// Normalizes a buffer of unsigned 8-bit samples.
pub fn convert_u8(data: &Vec<u8>) -> (r: Vec<i16>)
    ensures
        r@.len() == data@.len(),
        forall|i: int| 0 <= i < data@.len() ==> r@[i] == i16_from_u8(data@[i]),
{
    let mut out: Vec<i16> = Vec::new();
    let mut i: usize = 0;
    while i < data.len()
        invariant
            i <= data@.len(),
            out@.len() == i,
            forall|j: int| 0 <= j < i ==> out@[j] == i16_from_u8(data@[j]),
        decreases data@.len() - i,
    {
        let s = data[i];
        out.push(((s as i16) - 128) * 256);
        i = i + 1;
    }
    out
}

/// Normalizes a buffer of unsigned 16-bit samples.
pub fn convert_u16(data: &Vec<u16>) -> (r: Vec<i16>)
    ensures
        r@.len() == data@.len(),
        forall|i: int| 0 <= i < data@.len() ==> r@[i] == i16_from_u16(data@[i]),
{
    let mut out: Vec<i16> = Vec::new();
    let mut i: usize = 0;
    while i < data.len()
        invariant
            i <= data@.len(),
            out@.len() == i,
            forall|j: int| 0 <= j < i ==> out@[j] == i16_from_u16(data@[j]),
        decreases data@.len() - i,
    {
        let s = data[i];
        out.push(((s as i32) - 32768) as i16);
        i = i + 1;
    }
    out
}

/// Normalizes a buffer of unsigned 32-bit samples.
pub fn convert_u32(data: &Vec<u32>) -> (r: Vec<i16>)
    ensures
        r@.len() == data@.len(),
        forall|i: int| 0 <= i < data@.len() ==> r@[i] == i16_from_u32(data@[i]),
{
    let mut out: Vec<i16> = Vec::new();
    let mut i: usize = 0;
    while i < data.len()
        invariant
            i <= data@.len(),
            out@.len() == i,
            forall|j: int| 0 <= j < i ==> out@[j] == i16_from_u32(data@[j]),
        decreases data@.len() - i,
    {
        let s = data[i];
        let high = s >> 16;
        assert(high <= 0xffff) by (bit_vector)
            requires
                high == s >> 16,
        ;
        out.push(((high as i32) - 32768) as i16);
        i = i + 1;
    }
    out
}

/// Normalizes a buffer of unsigned 64-bit samples.
pub fn convert_u64(data: &Vec<u64>) -> (r: Vec<i16>)
    ensures
        r@.len() == data@.len(),
        forall|i: int| 0 <= i < data@.len() ==> r@[i] == i16_from_u64(data@[i]),
{
    let mut out: Vec<i16> = Vec::new();
    let mut i: usize = 0;
    while i < data.len()
        invariant
            i <= data@.len(),
            out@.len() == i,
            forall|j: int| 0 <= j < i ==> out@[j] == i16_from_u64(data@[j]),
        decreases data@.len() - i,
    {
        let s = data[i];
        let high = s >> 48;
        assert(high <= 0xffff) by (bit_vector)
            requires
                high == s >> 48,
        ;
        out.push(((high as i32) - 32768) as i16);
        i = i + 1;
    }
    out
}

/// Why the capture device could not be opened; fatal to startup.
#[derive(Debug, Clone, Copy, PartialEq, Eq, Structural)]
pub enum DeviceError {
    /// The selector names no device and no default exists.
    NotFound,
    /// No input configuration reaches 16 kHz mono-compatible capture.
    UnsupportedFormat,
}

/// Why capture could not be started; fatal to startup.
#[derive(Debug, Clone, Copy, PartialEq, Eq, Structural)]
pub enum StartError {
    /// Capture is already running.
    AlreadyRunning,
    /// The native stream could not be built or played.
    StreamFailed,
}

/// Which device a selector opens: the indexed device while the index is
/// in range, otherwise the default one (`None`); with no device at all,
/// or an out-of-range index and no default, the device is not found.
pub fn select_device(device_count: usize, device_index: usize, has_default: bool) -> (r: Result<
    Option<usize>,
    DeviceError,
>)
    ensures
        device_count == 0 ==> r == Result::<Option<usize>, DeviceError>::Err(
            DeviceError::NotFound,
        ),
        device_count > 0 && device_index < device_count ==> r == Result::<
            Option<usize>,
            DeviceError,
        >::Ok(Some(device_index)),
        device_count > 0 && device_index >= device_count ==> r == (if has_default {
            Result::<Option<usize>, DeviceError>::Ok(None)
        } else {
            Result::<Option<usize>, DeviceError>::Err(DeviceError::NotFound)
        }),
{
    if device_count == 0 {
        Err(DeviceError::NotFound)
    } else if device_index < device_count {
        Ok(Some(device_index))
    } else if has_default {
        Ok(None)
    } else {
        Err(DeviceError::NotFound)
    }
}

/// Picks the input configuration to open: the first whose sample-rate range
/// reaches 16 kHz; `None` when no configuration is compatible.
pub fn select_input_config(rate_ranges: &Vec<(u32, u32)>) -> (r: Option<usize>)
    ensures
        match r {
            Some(i) => {
                &&& i < rate_ranges@.len()
                &&& rate_ranges@[i as int].0 <= 16000 <= rate_ranges@[i as int].1
                &&& forall|j: int|
                    0 <= j < i ==> !(#[trigger] rate_ranges@[j].0 <= 16000 <= rate_ranges@[j].1)
            },
            None => forall|j: int|
                0 <= j < rate_ranges@.len() ==> !(#[trigger] rate_ranges@[j].0 <= 16000
                    <= rate_ranges@[j].1),
        },
{
    let mut i: usize = 0;
    while i < rate_ranges.len()
        invariant
            i <= rate_ranges@.len(),
            forall|j: int|
                0 <= j < i ==> !(#[trigger] rate_ranges@[j].0 <= 16000 <= rate_ranges@[j].1),
        decreases rate_ranges@.len() - i,
    {
        let (low, high) = rate_ranges[i];
        if low <= 16000 && 16000 <= high {
            return Some(i);
        }
        i = i + 1;
    }
    None
}

/// The kind of recorder the front end drives.
#[derive(PartialEq, Eq, Structural, Debug, Copy, Clone)]
pub enum RecorderType {
    Cpal,
    PvRecorder,
    PortAudio,
}

/// How a stored selector maps to a recorder: unknown values fall back to
/// the portable recorder.
pub open spec fn recorder_from_u32(v: u32) -> RecorderType {
    if v == 0 {
        RecorderType::Cpal
    } else if v == 1 {
        RecorderType::PvRecorder
    } else if v == 2 {
        RecorderType::PortAudio
    } else {
        RecorderType::PvRecorder
    }
}

impl From<u32> for RecorderType {
    fn from(v: u32) -> (r: RecorderType)
        ensures
            r == recorder_from_u32(v),
    {
        match v {
            0 => RecorderType::Cpal,
            1 => RecorderType::PvRecorder,
            2 => RecorderType::PortAudio,
            _ => RecorderType::PvRecorder,
        }
    }
}

impl vstd::std_specs::convert::FromSpecImpl<u32> for RecorderType {
    open spec fn obeys_from_spec() -> bool {
        true
    }

    open spec fn from_spec(v: u32) -> RecorderType {
        recorder_from_u32(v)
    }
}

/// Moves the next buffered frame, if any, into the caller's buffer: the
/// frame's samples overwrite the buffer's prefix, up to the shorter of the
/// two lengths.  Without a buffered frame the buffer is left as it is.
pub fn read(channel: &mut FrameChannel, buffer: &mut Vec<i16>)
    requires
        old(channel).inv(),
    ensures
        final(channel).inv(),
        final(channel).spec_capacity() == old(channel).spec_capacity(),
        final(buffer)@.len() == old(buffer)@.len(),
        if old(channel)@.len() == 0 {
            final(buffer)@ == old(buffer)@ && final(channel)@ == old(channel)@
        } else {
            {
                let frame = old(channel)@[0];
                let copied = if frame.len() <= old(buffer)@.len() {
                    frame.len()
                } else {
                    old(buffer)@.len()
                };
                &&& final(channel)@ == old(channel)@.drop_first()
                &&& forall|i: int| 0 <= i < copied ==> final(buffer)@[i] == frame[i]
                &&& forall|i: int|
                    copied <= i < old(buffer)@.len() ==> final(buffer)@[i] == old(buffer)@[i]
            }
        },
{
    match channel.try_recv() {
        None => {
        },
        Some(frame) => {
            let copy_len = if frame.len() <= buffer.len() {
                frame.len()
            } else {
                buffer.len()
            };
            let mut i: usize = 0;
            while i < copy_len
                invariant
                    i <= copy_len,
                    copy_len <= frame@.len(),
                    copy_len <= buffer@.len(),
                    buffer@.len() == old(buffer)@.len(),
                    frame@ == old(channel)@[0],
                    old(channel)@.len() > 0,
                    forall|j: int| 0 <= j < i ==> buffer@[j] == frame@[j],
                    forall|j: int| i <= j < buffer@.len() ==> buffer@[j] == old(buffer)@[j],
                decreases copy_len - i,
            {
                let s = frame[i];
                buffer.set(i, s);
                i = i + 1;
            }
        },
    }
}

} // verus!
