//! Audio and video codecs, as their codec strings describe them.

use std::str::FromStr;
use vstd::prelude::*;
use vstd::string::*;

verus! {

/// What identifies a codec.
pub struct CodecView {
    /// The codec string, such as `opus` or `avc1.64001f`.
    pub mime: Seq<char>,
    /// Every parameter of the codec, written out. Two codecs are equal when this is.
    pub detail: Seq<char>,
}

/// An audio codec.
#[derive(Debug, PartialEq, Eq)]
pub struct AudioCodec {
    /// The codec string, such as `opus` or `mp4a.40.2`.
    pub mime: String,
    /// Every parameter of the codec, written out. Two codecs are equal when this is.
    pub detail: String,
}

impl View for AudioCodec {
    type V = CodecView;

    open spec fn view(&self) -> CodecView {
        CodecView { mime: self.mime@, detail: self.detail@ }
    }
}

impl Clone for AudioCodec {
    fn clone(&self) -> (copy: Self)
        ensures
            copy@ == self@,
    {
        AudioCodec { mime: self.mime.clone(), detail: self.detail.clone() }
    }
}

/// A video codec.
#[derive(Debug, PartialEq, Eq)]
pub struct VideoCodec {
    /// The codec string, such as `vp8` or `avc1.64001f`.
    pub mime: String,
    /// Every parameter of the codec, written out. Two codecs are equal when this is.
    pub detail: String,
}

impl View for VideoCodec {
    type V = CodecView;

    open spec fn view(&self) -> CodecView {
        CodecView { mime: self.mime@, detail: self.detail@ }
    }
}

impl Clone for VideoCodec {
    fn clone(&self) -> (copy: Self)
        ensures
            copy@ == self@,
    {
        VideoCodec { mime: self.mime.clone(), detail: self.detail.clone() }
    }
}

/// What `hang::catalog::AudioCodec::from_str` makes of a codec string: the codec, by its
/// `Display` and `Debug` texts, or else the `Display` text of the error.
pub uninterp spec fn audio_codec_of(text: Seq<char>) -> Result<CodecView, Seq<char>>;

/// What `hang::catalog::VideoCodec::from_str` makes of a codec string: the codec, by its
/// `Display` and `Debug` texts, or else the `Display` text of the error.
pub uninterp spec fn video_codec_of(text: Seq<char>) -> Result<CodecView, Seq<char>>;

/// `text` is an audio codec string with parameters, which the parser looks into.
pub open spec fn has_audio_parameters(text: Seq<char>) -> bool {
    "mp4a.40."@.is_prefix_of(text)
}

/// `text` is a video codec string with parameters, which the parser looks into.
pub open spec fn has_video_parameters(text: Seq<char>) -> bool {
    ||| "avc1."@.is_prefix_of(text)
    ||| "avc3."@.is_prefix_of(text)
    ||| "hvc1."@.is_prefix_of(text)
    ||| "hev1."@.is_prefix_of(text)
    ||| "vp09."@.is_prefix_of(text)
    ||| "av01."@.is_prefix_of(text)
}

/// `hang::catalog::AudioCodec::from_str`: the codec that `text` describes, or why there is none.
/// The result depends on `text` alone. Any string without parameters is taken as it is.
#[verifier::external_body]
pub(crate) fn audio_codec_from_str(text: &str) -> (codec: Result<AudioCodec, String>)
    ensures
        match codec {
            Ok(c) => audio_codec_of(text@) == Ok::<CodecView, Seq<char>>(c@),
            Err(e) => audio_codec_of(text@) == Err::<CodecView, Seq<char>>(e@),
        },
        !has_audio_parameters(text@) ==> codec is Ok && codec.unwrap().mime@ == text@,
{
    match hang::catalog::AudioCodec::from_str(text) {
        Ok(c) => Ok(AudioCodec { mime: c.to_string(), detail: format!("{c:?}") }),
        Err(err) => Err(err.to_string()),
    }
}

/// `hang::catalog::VideoCodec::from_str`: the codec that `text` describes, or why there is none.
/// The result depends on `text` alone. Any string without parameters is taken as it is. It cuts
/// the second component of an H.264 string in three, by bytes, and panics where a cut falls inside
/// a character.
#[verifier::external_body]
pub(crate) fn video_codec_from_str(text: &str) -> (codec: Result<VideoCodec, String>)
    requires
        !cuts_a_character(text.spec_bytes()),
    ensures
        match codec {
            Ok(c) => video_codec_of(text@) == Ok::<CodecView, Seq<char>>(c@),
            Err(e) => video_codec_of(text@) == Err::<CodecView, Seq<char>>(e@),
        },
        !has_video_parameters(text@) ==> codec is Ok && codec.unwrap().mime@ == text@,
{
    match hang::catalog::VideoCodec::from_str(text) {
        Ok(c) => Ok(VideoCodec { mime: c.to_string(), detail: format!("{c:?}") }),
        Err(err) => Err(err.to_string()),
    }
}

/// `byte` continues a character that an earlier byte started.
pub open spec fn continues_a_character(byte: u8) -> bool {
    0x80 <= byte < 0xc0
}

/// `byte` is an ASCII hexadecimal digit.
pub open spec fn is_hex_digit(byte: u8) -> bool {
    ||| 0x30 <= byte <= 0x39
    ||| 0x41 <= byte <= 0x46
    ||| 0x61 <= byte <= 0x66
}

/// The two bytes parse as a hexadecimal number: two digits, or a digit after a plus sign.
pub open spec fn is_hex_pair(high: u8, low: u8) -> bool {
    (is_hex_digit(high) || high == 0x2b) && is_hex_digit(low)
}

/// `text` starts with `avc1.` or `avc3.`.
pub open spec fn is_h264(text: Seq<u8>) -> bool {
    &&& text.len() >= 5
    &&& text[0] == 0x61
    &&& text[1] == 0x76
    &&& text[2] == 0x63
    &&& (text[3] == 0x31 || text[3] == 0x33)
    &&& text[4] == 0x2e
}

/// The component of `text` from its sixth byte on is six bytes long: it ends there, or a dot
/// follows.
pub open spec fn has_six_byte_component(text: Seq<u8>) -> bool {
    &&& text.len() >= 11
    &&& text.len() == 11 || text[11] == 0x2e
    &&& forall|i: int| 5 <= i < 11 ==> #[trigger] text[i] != 0x2e
}

/// Cutting the H.264 parameters of `text` into three pairs of bytes, each taken only if the one
/// before is a number, cuts a character in two.
pub open spec fn cuts_a_character(text: Seq<u8>) -> bool {
    &&& is_h264(text)
    &&& has_six_byte_component(text)
    &&& {
        ||| continues_a_character(text[7])
        ||| is_hex_pair(text[5], text[6]) && continues_a_character(text[9])
    }
}

fn hex_digit(byte: u8) -> (yes: bool)
    ensures
        yes == is_hex_digit(byte),
{
    (0x30 <= byte && byte <= 0x39) || (0x41 <= byte && byte <= 0x46) || (0x61 <= byte && byte
        <= 0x66)
}

/// Whether parsing `text` as a video codec would cut a character in two.
pub fn splits_a_character(text: &str) -> (splits: bool)
    ensures
        splits == cuts_a_character(text.spec_bytes()),
{
    let b = text.as_bytes();
    let n: usize = b.len();
    if n < 11 || b[0] != 0x61 || b[1] != 0x76 || b[2] != 0x63 || !(b[3] == 0x31 || b[3] == 0x33)
        || b[4] != 0x2e {
        return false;
    }
    if n > 11 && b[11] != 0x2e {
        return false;
    }
    let mut i: usize = 5;
    while i < 11
        invariant
            5 <= i <= 11 <= n,
            n == b@.len(),
            b@ == text.spec_bytes(),
            forall|j: int| 5 <= j < i ==> #[trigger] b@[j] != 0x2e,
        decreases 11 - i,
    {
        if b[i] == 0x2e {
            return false;
        }
        i = i + 1;
    }
    if 0x80 <= b[7] && b[7] < 0xc0 {
        return true;
    }
    (hex_digit(b[5]) || b[5] == 0x2b) && hex_digit(b[6]) && 0x80 <= b[9] && b[9] < 0xc0
}

} // verus!
