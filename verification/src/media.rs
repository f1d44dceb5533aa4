//! Media types: formats, codecs, frames, packets and the description of an
//! opened file, with the decisions that the demuxer and decoders make on them.
//! Times are in microseconds; a time base is the rational `num / den` seconds
//! per tick.
use vstd::prelude::*;
use vstd::string::*;

verus! {

/// Pixel format.
#[derive(Clone, Copy, Debug, PartialEq, Eq, Structural)]
pub enum PixelFormat {
    Yuv420p,
    Nv12,
    Rgb24,
    Bgra,
    Unknown,
}

/// Video codec.
#[derive(Clone, Copy, Debug, PartialEq, Eq, Structural)]
pub enum VideoCodecId {
    H264,
    H265,
    Vp9,
    Av1,
    Unknown,
}

/// Audio codec.
#[derive(Clone, Copy, Debug, PartialEq, Eq, Structural)]
pub enum AudioCodecId {
    Aac,
    Mp3,
    Opus,
    Flac,
    Unknown,
}

/// Audio sample format.
#[derive(Clone, Copy, Debug, PartialEq, Eq, Structural)]
pub enum SampleFormat {
    U8,
    I16,
    I32,
    F32,
    F64,
    U8Planar,
    I16Planar,
    I32Planar,
    F32Planar,
    F64Planar,
    Unknown,
}

/// One plane of a video frame.
#[derive(Clone, Debug)]
pub struct PlaneData {
    pub data: Vec<u8>,
    pub stride: usize,
}

/// A decoded video frame.
#[derive(Clone, Debug)]
pub struct VideoFrame {
    /// Presentation time in microseconds.
    pub pts_us: i64,
    pub width: u32,
    pub height: u32,
    pub format: PixelFormat,
    /// The planes (Y, U, V or Y, UV).
    pub planes: Vec<PlaneData>,
}

/// A compressed packet.
#[derive(Clone, Debug)]
pub struct Packet {
    pub data: Vec<u8>,
    pub stream_index: usize,
    /// Presentation time in microseconds.
    pub pts_us: i64,
    /// Decoding time in microseconds.
    pub dts_us: i64,
    pub is_key: bool,
}

/// Description of an opened media file. The frame rate is the rational
/// `fps_num / fps_den` frames per second.
#[derive(Clone, Debug)]
pub struct MediaInfo {
    /// Duration in microseconds.
    pub duration_us: i64,
    pub video_stream_index: Option<usize>,
    pub audio_stream_index: Option<usize>,
    pub video_codec_id: Option<VideoCodecId>,
    pub audio_codec_id: Option<AudioCodecId>,
    pub width: u32,
    pub height: u32,
    pub pixel_format: PixelFormat,
    pub fps_num: i32,
    pub fps_den: i32,
    pub sample_rate: u32,
    pub channels: u32,
    pub sample_format: SampleFormat,
}

/// The parameters of one stream of a file, as the demuxer reads them.
#[derive(Clone, Copy, Debug)]
pub enum StreamParams {
    Video {
        codec: VideoCodecId,
        width: u32,
        height: u32,
        pixel_format: PixelFormat,
        /// Average frame rate, as a rational.
        fps_num: i32,
        fps_den: i32,
    },
    Audio { codec: AudioCodecId, sample_rate: u32, channels: u32, sample_format: SampleFormat },
    Other,
}

/// The index of the first video stream.
pub open spec fn first_video(s: Seq<StreamParams>) -> Option<int>
    decreases s.len(),
{
    if s.len() == 0 {
        None
    } else {
        match first_video(s.drop_last()) {
            Some(i) => Some(i),
            None => if s.last() is Video { Some(s.len() - 1) } else { None },
        }
    }
}

/// The index of the first audio stream.
pub open spec fn first_audio(s: Seq<StreamParams>) -> Option<int>
    decreases s.len(),
{
    if s.len() == 0 {
        None
    } else {
        match first_audio(s.drop_last()) {
            Some(i) => Some(i),
            None => if s.last() is Audio { Some(s.len() - 1) } else { None },
        }
    }
}

/// The description of a file of duration `duration_us` with streams `s`: the
/// first video stream and the first audio stream are the ones played.
pub open spec fn spec_media_info(duration_us: i64, s: Seq<StreamParams>) -> MediaInfo {
    let v = first_video(s);
    let a = first_audio(s);
    let (vc, w, h, pf, fnum, fden) = match v {
        Some(i) => match s[i] {
            StreamParams::Video { codec, width, height, pixel_format, fps_num, fps_den } =>
                (Some(codec), width, height, pixel_format, fps_num, if fps_den < 1 { 1i32 } else { fps_den }),
            _ => (None, 0u32, 0u32, PixelFormat::Unknown, 0i32, 1i32),
        },
        None => (None, 0u32, 0u32, PixelFormat::Unknown, 0i32, 1i32),
    };
    let (ac, sr, ch, sf) = match a {
        Some(i) => match s[i] {
            StreamParams::Audio { codec, sample_rate, channels, sample_format } =>
                (Some(codec), sample_rate, channels, sample_format),
            _ => (None, 0u32, 0u32, SampleFormat::Unknown),
        },
        None => (None, 0u32, 0u32, SampleFormat::Unknown),
    };
    MediaInfo {
        duration_us,
        video_stream_index: match v { Some(i) => Some(i as usize), None => None },
        audio_stream_index: match a { Some(i) => Some(i as usize), None => None },
        video_codec_id: vc,
        audio_codec_id: ac,
        width: w,
        height: h,
        pixel_format: pf,
        fps_num: fnum,
        fps_den: fden,
        sample_rate: sr,
        channels: ch,
        sample_format: sf,
    }
}

proof fn lemma_first_video_bounds(s: Seq<StreamParams>)
    ensures
        first_video(s) matches Some(i) ==> 0 <= i < s.len() && s[i] is Video
            && forall|j: int| 0 <= j < i ==> !(#[trigger] s[j] is Video),
        first_video(s) is None ==> forall|j: int| 0 <= j < s.len() ==> !(#[trigger] s[j] is Video),
    decreases s.len(),
{
    if s.len() > 0 {
        let d = s.drop_last();
        lemma_first_video_bounds(d);
        assert forall|j: int| 0 <= j < d.len() implies d[j] == s[j] by {}
        if first_video(d) is None {
            assert forall|j: int| 0 <= j < s.len() - 1 implies !(#[trigger] s[j] is Video) by {
                assert(d[j] == s[j]);
            }
        } else {
            let i = first_video(d)->0;
            assert forall|j: int| 0 <= j < i implies !(#[trigger] s[j] is Video) by {
                assert(d[j] == s[j]);
            }
        }
    }
}

proof fn lemma_first_audio_bounds(s: Seq<StreamParams>)
    ensures
        first_audio(s) matches Some(i) ==> 0 <= i < s.len() && s[i] is Audio
            && forall|j: int| 0 <= j < i ==> !(#[trigger] s[j] is Audio),
        first_audio(s) is None ==> forall|j: int| 0 <= j < s.len() ==> !(#[trigger] s[j] is Audio),
    decreases s.len(),
{
    if s.len() > 0 {
        let d = s.drop_last();
        lemma_first_audio_bounds(d);
        assert forall|j: int| 0 <= j < d.len() implies d[j] == s[j] by {}
        if first_audio(d) is None {
            assert forall|j: int| 0 <= j < s.len() - 1 implies !(#[trigger] s[j] is Audio) by {
                assert(d[j] == s[j]);
            }
        } else {
            let i = first_audio(d)->0;
            assert forall|j: int| 0 <= j < i implies !(#[trigger] s[j] is Audio) by {
                assert(d[j] == s[j]);
            }
        }
    }
}

/// Describes a file of duration `duration_us` from its streams: the first video
/// stream and the first audio stream are the ones played; a frame rate's
/// denominator is at least 1.
pub fn media_info_from_streams(duration_us: i64, streams: &Vec<StreamParams>) -> (r: MediaInfo)
    ensures
        r == spec_media_info(duration_us, streams@),
{
    let mut v: Option<usize> = None;
    let mut a: Option<usize> = None;
    let mut i: usize = 0;
    while i < streams.len()
        invariant
            i <= streams@.len(),
            v == match first_video(streams@.take(i as int)) { Some(j) => Some(j as usize), None => None::<usize> },
            a == match first_audio(streams@.take(i as int)) { Some(j) => Some(j as usize), None => None::<usize> },
        decreases streams@.len() - i,
    {
        let ghost t = streams@.take(i as int + 1);
        assert(t.drop_last() =~= streams@.take(i as int));
        assert(t.last() == streams@[i as int]);
        proof {
            lemma_first_video_bounds(streams@.take(i as int));
            lemma_first_audio_bounds(streams@.take(i as int));
        }
        match streams[i] {
            StreamParams::Video { .. } => {
                if v.is_none() {
                    v = Some(i);
                }
            },
            StreamParams::Audio { .. } => {
                if a.is_none() {
                    a = Some(i);
                }
            },
            StreamParams::Other => {},
        }
        i = i + 1;
    }
    assert(streams@.take(i as int) =~= streams@);
    proof {
        lemma_first_video_bounds(streams@);
        lemma_first_audio_bounds(streams@);
    }
    let mut info = MediaInfo {
        duration_us,
        video_stream_index: v,
        audio_stream_index: a,
        video_codec_id: None,
        audio_codec_id: None,
        width: 0,
        height: 0,
        pixel_format: PixelFormat::Unknown,
        fps_num: 0,
        fps_den: 1,
        sample_rate: 0,
        channels: 0,
        sample_format: SampleFormat::Unknown,
    };
    match v {
        Some(vi) => match streams[vi] {
            StreamParams::Video { codec, width, height, pixel_format, fps_num, fps_den } => {
                info.video_codec_id = Some(codec);
                info.width = width;
                info.height = height;
                info.pixel_format = pixel_format;
                info.fps_num = fps_num;
                info.fps_den = if fps_den < 1 { 1 } else { fps_den };
            },
            _ => {},
        },
        None => {},
    }
    match a {
        Some(ai) => match streams[ai] {
            StreamParams::Audio { codec, sample_rate, channels, sample_format } => {
                info.audio_codec_id = Some(codec);
                info.sample_rate = sample_rate;
                info.channels = channels;
                info.sample_format = sample_format;
            },
            _ => {},
        },
        None => {},
    }
    info
}

/// Where the demuxer sends a packet.
#[derive(Clone, Copy, Debug, PartialEq, Eq, Structural)]
pub enum PacketRoute {
    Video,
    Audio,
    Discard,
}

/// The route of a packet of stream `stream_index`: the video decoder for the
/// played video stream, else the audio decoder for the played audio stream,
/// else nowhere.
pub open spec fn spec_route(info: MediaInfo, stream_index: usize) -> PacketRoute {
    if info.video_stream_index == Some(stream_index) {
        PacketRoute::Video
    } else if info.audio_stream_index == Some(stream_index) {
        PacketRoute::Audio
    } else {
        PacketRoute::Discard
    }
}

/// The route of a packet of stream `stream_index` (see `spec_route`).
pub fn route_packet(info: &MediaInfo, stream_index: usize) -> (r: PacketRoute)
    ensures
        r == spec_route(*info, stream_index),
{
    match info.video_stream_index {
        Some(v) => if v == stream_index {
            return PacketRoute::Video;
        },
        None => {},
    }
    match info.audio_stream_index {
        Some(a) => if a == stream_index {
            return PacketRoute::Audio;
        },
        None => {},
    }
    PacketRoute::Discard
}

/// An empty packet: the marker that the demuxer queues after a seek.
pub fn seek_marker() -> (p: Packet)
    ensures
        p.data@.len() == 0,
        p.stream_index == 0,
        p.pts_us == 0,
        p.dts_us == 0,
        !p.is_key,
{
    Packet { data: Vec::new(), stream_index: 0, pts_us: 0, dts_us: 0, is_key: false }
}

/// Whether a packet is a seek marker (an empty packet), which decoders skip.
pub fn is_seek_marker(p: &Packet) -> (r: bool)
    ensures
        r == (p.data@.len() == 0),
{
    p.data.len() == 0
}

/// The number of planes that a decoded frame of format `f` carries.
pub open spec fn spec_plane_count(f: PixelFormat) -> usize {
    match f {
        PixelFormat::Yuv420p => 3,
        PixelFormat::Nv12 => 2,
        _ => 1,
    }
}

/// The number of planes that a decoded frame of format `f` carries.
pub fn plane_count(f: PixelFormat) -> (r: usize)
    ensures
        r == spec_plane_count(f),
{
    match f {
        PixelFormat::Yuv420p => 3,
        PixelFormat::Nv12 => 2,
        _ => 1,
    }
}

/// The time base that a decoder uses for its packets: the codec's own where
/// both its terms are positive, else 1/90000.
pub fn packet_time_base(num: i32, den: i32) -> (r: (i32, i32))
    ensures
        r == if num > 0 && den > 0 { (num, den) } else { (1i32, 90000i32) },
{
    if num > 0 && den > 0 {
        (num, den)
    } else {
        (1, 90000)
    }
}

/// Integer division rounded toward zero, as Rust divides integers.
pub open spec fn trunc_div(a: int, b: int) -> int {
    if b == 0 {
        0
    } else if (a >= 0) == (b > 0) {
        let q = (if a >= 0 { a } else { -a }) / (if b > 0 { b } else { -b });
        q
    } else {
        let q = (if a >= 0 { a } else { -a }) / (if b > 0 { b } else { -b });
        -q
    }
}

fn trunc_div_i128(a: i128, b: i128) -> (r: i128)
    requires
        b != 0,
        a > i128::MIN,
        b > i128::MIN,
    ensures
        r == trunc_div(a as int, b as int),
{
    let ua: i128 = if a >= 0 { a } else { -a };
    let ub: i128 = if b > 0 { b } else { -b };
    let q = ua / ub;
    if (a >= 0) == (b > 0) {
        q
    } else {
        -q
    }
}

/// `ts` ticks of time base `num / den` in microseconds, rounded toward zero;
/// `None` where `den` is 0 or the value does not fit in `i64`.
pub open spec fn spec_ticks_to_micros(ts: i64, num: i32, den: i32) -> Option<i64> {
    if den == 0 {
        None
    } else {
        let v = trunc_div(ts * num * 1_000_000, den as int);
        if i64::MIN <= v && v <= i64::MAX { Some(v as i64) } else { None }
    }
}

/// `ts` ticks of time base `num / den` in microseconds (see
/// `spec_ticks_to_micros`).
pub fn ticks_to_micros(ts: i64, num: i32, den: i32) -> (r: Option<i64>)
    ensures
        r == spec_ticks_to_micros(ts, num, den),
{
    if den == 0 {
        return None;
    }
    assert(-19_807_040_628_566_084_398_385_987_584 <= ts as int * num as int <= 19_807_040_628_566_084_398_385_987_584) by (nonlinear_arith)
        requires
            -9_223_372_036_854_775_808 <= ts as int <= 9_223_372_036_854_775_807,
            -2_147_483_648 <= num as int <= 2_147_483_647,
    ;
    let p: i128 = ts as i128 * num as i128;
    let v = trunc_div_i128(p * 1_000_000, den as i128);
    if v >= i64::MIN as i128 && v <= i64::MAX as i128 {
        Some(v as i64)
    } else {
        None
    }
}

/// `us` microseconds in ticks of time base `num / den`, rounded toward zero
/// and saturated to `i64`; `None` where `num` or `den` is 0.
pub open spec fn spec_micros_to_ticks(us: i64, num: i32, den: i32) -> Option<i64> {
    if num == 0 || den == 0 {
        None
    } else {
        let v = trunc_div(us * den, num * 1_000_000);
        Some(if v > i64::MAX { i64::MAX } else if v < i64::MIN { i64::MIN } else { v as i64 })
    }
}

/// `us` microseconds in ticks of time base `num / den` (see
/// `spec_micros_to_ticks`).
pub fn micros_to_ticks(us: i64, num: i32, den: i32) -> (r: Option<i64>)
    ensures
        r == spec_micros_to_ticks(us, num, den),
{
    if num == 0 || den == 0 {
        return None;
    }
    assert(-19_807_040_628_566_084_398_385_987_584 <= us as int * den as int <= 19_807_040_628_566_084_398_385_987_584) by (nonlinear_arith)
        requires
            -9_223_372_036_854_775_808 <= us as int <= 9_223_372_036_854_775_807,
            -2_147_483_648 <= den as int <= 2_147_483_647,
    ;
    let p: i128 = us as i128 * den as i128;
    let v = trunc_div_i128(p, num as i128 * 1_000_000);
    if v > i64::MAX as i128 {
        Some(i64::MAX)
    } else if v < i64::MIN as i128 {
        Some(i64::MIN)
    } else {
        Some(v as i64)
    }
}

/// The `Debug` text of an optional video codec, as a stream description names
/// it: `None`, or `Some(` the codec's name `)`.
pub open spec fn spec_video_codec_label(c: Option<VideoCodecId>) -> Seq<char> {
    match c {
        None => "None"@,
        Some(id) => "Some("@ + match id {
            VideoCodecId::H264 => "H264"@,
            VideoCodecId::H265 => "H265"@,
            VideoCodecId::Vp9 => "Vp9"@,
            VideoCodecId::Av1 => "Av1"@,
            VideoCodecId::Unknown => "Unknown"@,
        } + ")"@,
    }
}

/// The `Debug` text of an optional audio codec: `None`, or `Some(` the codec's
/// name `)`.
pub open spec fn spec_audio_codec_label(c: Option<AudioCodecId>) -> Seq<char> {
    match c {
        None => "None"@,
        Some(id) => "Some("@ + match id {
            AudioCodecId::Aac => "Aac"@,
            AudioCodecId::Mp3 => "Mp3"@,
            AudioCodecId::Opus => "Opus"@,
            AudioCodecId::Flac => "Flac"@,
            AudioCodecId::Unknown => "Unknown"@,
        } + ")"@,
    }
}

/// The `Debug` text of an optional video codec (see `spec_video_codec_label`).
pub fn video_codec_label(c: Option<VideoCodecId>) -> (r: String)
    ensures
        r@ == spec_video_codec_label(c),
{
    match c {
        None => String::from_str("None"),
        Some(id) => {
            let mut s = String::from_str("Some(");
            let name: &str = match id {
                VideoCodecId::H264 => "H264",
                VideoCodecId::H265 => "H265",
                VideoCodecId::Vp9 => "Vp9",
                VideoCodecId::Av1 => "Av1",
                VideoCodecId::Unknown => "Unknown",
            };
            s.append(name);
            s.append(")");
            s
        },
    }
}

/// The `Debug` text of an optional audio codec (see `spec_audio_codec_label`).
pub fn audio_codec_label(c: Option<AudioCodecId>) -> (r: String)
    ensures
        r@ == spec_audio_codec_label(c),
{
    match c {
        None => String::from_str("None"),
        Some(id) => {
            let mut s = String::from_str("Some(");
            let name: &str = match id {
                AudioCodecId::Aac => "Aac",
                AudioCodecId::Mp3 => "Mp3",
                AudioCodecId::Opus => "Opus",
                AudioCodecId::Flac => "Flac",
                AudioCodecId::Unknown => "Unknown",
            };
            s.append(name);
            s.append(")");
            s
        },
    }
}

/// `ts` ticks of time base `num / den` are `ts * num / den` seconds: the
/// result `v`, in microseconds, is that quotient rounded toward zero. With
/// `p = ts * num * 1_000_000`, `|v| * |den| <= |p| < (|v| + 1) * |den|`, and `v`
/// is not of the opposite sign to `p / den`. The result is missing only where
/// `den` is 0 or the quotient does not fit in `i64`.
pub proof fn lemma_ticks_to_micros_is_quotient(ts: i64, num: i32, den: i32)
    ensures
        den == 0 ==> spec_ticks_to_micros(ts, num, den) is None,
        den != 0 ==> ({
            let p = ts * num * 1_000_000;
            let ap = if p >= 0 { p } else { -p };
            let ad = if den > 0 { den as int } else { -(den as int) };
            match spec_ticks_to_micros(ts, num, den) {
                Some(v) => {
                    let av = if v >= 0 { v as int } else { -(v as int) };
                    &&& av * ad <= ap
                    &&& ap < (av + 1) * ad
                    &&& v > 0 ==> (p > 0) == (den > 0)
                    &&& v < 0 ==> (p > 0) != (den > 0)
                },
                None => ap / ad > i64::MAX,
            }
        }),
{
    if den != 0 {
        let p = ts * num * 1_000_000;
        let ap = if p >= 0 { p } else { -p };
        let ad = if den > 0 { den as int } else { -(den as int) };
        let q = ap / ad;
        assert(q * ad <= ap && ap < (q + 1) * ad) by (nonlinear_arith)
            requires
                ad > 0,
                ap >= 0,
                q == ap / ad,
        ;
        assert(q >= 0) by (nonlinear_arith)
            requires
                ad > 0,
                ap >= 0,
                q == ap / ad,
        ;
        assert(trunc_div(p, den as int) == if (p >= 0) == (den > 0) { q } else { -q });
    }
}

} // verus!
