use vstd::prelude::*;

verus! {

use crate::progress::is_digit_spec;
use crate::tv::TVOptions;

/// The command-line configuration of a run, built once at process start and
/// passed explicitly to whatever needs it. The surrounding program parses
/// the actual command line into this.
pub struct Args {
    pub all_streams: bool,
    pub crf: u8,
    pub crop: Option<CropFilter>,
    pub no_deinterlace: bool,
    pub force_deinterlace: bool,
    pub force_reencode_video: bool,
    pub copy_video: bool,
    pub reencode_audio: bool,
    pub audio_language: String,
    pub subtitle_language: String,
    pub reencode_subs: bool,
    pub encoder: VideoEncoder,
    pub preset: VideoEncoderPreset,
    pub no_hwaccel: bool,
    pub simulate: bool,
    pub print_commands: bool,
    pub tune: Option<Libx264Tune>,
    pub path: String,
    pub output_path: Option<String>,
    pub tv_mode: bool,
    pub statefile: String,
    pub parallel: Option<Option<usize>>,
    pub default_audio_language: Option<String>,
    pub nnedi_weights: String,
    pub overwrite: bool,
}

/// Whether a configuration is consistent: the hardware encoder cannot have
/// hardware acceleration disabled, and takes no software tune.
pub open spec fn args_valid(args: Args) -> bool {
    args.encoder is Nvenc ==> (!args.no_hwaccel && args.tune is None)
}

/// Check a configuration; the surrounding program refuses to run on `false`.
pub fn validate_args(args: &Args) -> (ok: bool)
    ensures
        ok == args_valid(*args),
{
    match args.encoder {
        VideoEncoder::Nvenc => !args.no_hwaccel && args.tune.is_none(),
        _ => true,
    }
}

/// A video crop filter, kept in the textual form the encoder takes.
#[derive(Debug, Clone)]
pub struct CropFilter(pub String);

/// One numeric field of the crop filter together with the colon that closes
/// it: one or more digits from `j` up to the `:` at `e`.
pub open spec fn field_sep_at(s: Seq<char>, j: int, e: int) -> bool {
    &&& j < e < s.len()
    &&& s[e] == ':'
    &&& forall|k: int| j <= k < e ==> is_digit_spec(s[k])
}

/// The last numeric field: at least one digit at `j`; anything may follow.
pub open spec fn last_field_at(s: Seq<char>, j: int) -> bool {
    j < s.len() && is_digit_spec(s[j])
}

/// `fields` colon-closed numeric fields starting at `j`, then a last one.
pub open spec fn crop_fields_from(s: Seq<char>, j: int, fields: nat) -> bool
    decreases fields,
{
    if fields == 0 {
        last_field_at(s, j)
    } else {
        exists|e: int|
            #[trigger] field_sep_at(s, j, e) && crop_fields_from(s, e + 1, (fields - 1) as nat)
    }
}

/// Whether the crop pattern occurs at position `i`: the key `crop=`, then
/// four colon-separated fields of one or more digits each, the shape
/// `crop=height:width:x:y`.
pub open spec fn crop_pattern_at(s: Seq<char>, i: int) -> bool {
    &&& 0 <= i
    &&& i + 5 <= s.len()
    &&& s.subrange(i, i + 5) == "crop="@
    &&& crop_fields_from(s, i + 5, 3)
}

/// Whether the crop pattern occurs anywhere in the string.
pub open spec fn crop_matches(s: Seq<char>) -> bool {
    exists|i: int| crop_pattern_at(s, i)
}

/// A field's closing colon is forced: the digits run exactly up to it.
proof fn lemma_field_sep_unique(s: Seq<char>, j: int, e1: int, e2: int)
    requires
        field_sep_at(s, j, e1),
        field_sep_at(s, j, e2),
    ensures
        e1 == e2,
{
    if e1 < e2 {
        assert(is_digit_spec(s[e1]));
        assert(s[e1] == ':');
    }
    if e2 < e1 {
        assert(is_digit_spec(s[e2]));
        assert(s[e2] == ':');
    }
}

/// Scan one numeric field from `j`: its digits and the colon that closes
/// it. `None` exactly when no such field starts at `j`.
fn scan_digit_field(s: &str, j: usize) -> (r: Option<usize>)
    requires
        j <= s@.len(),
        s@.len() <= usize::MAX,
    ensures
        r matches Some(e) ==> field_sep_at(s@, j as int, e as int),
        r is None ==> forall|e: int| !field_sep_at(s@, j as int, e),
{
    let n = s.unicode_len();
    let mut e: usize = j;
    while e < n && is_ascii_digit(s.get_char(e))
        invariant
            j <= e <= n,
            n == s@.len(),
            forall|k: int| j <= k < e ==> is_digit_spec(s@[k]),
        decreases n - e,
    {
        e += 1;
    }
    // now e == n, or the character at e is not a digit
    if e == j {
        proof {
            assert forall|ee: int| !field_sep_at(s@, j as int, ee) by {
                if field_sep_at(s@, j as int, ee) {
                    assert(is_digit_spec(s@[j as int]));
                }
            }
        }
        return None;
    }
    if e == n {
        proof {
            assert forall|ee: int| !field_sep_at(s@, j as int, ee) by {
                if field_sep_at(s@, j as int, ee) {
                    assert(is_digit_spec(s@[ee]));
                    assert(s@[ee] == ':');
                }
            }
        }
        return None;
    }
    if s.get_char(e) == ':' {
        Some(e)
    } else {
        proof {
            assert forall|ee: int| !field_sep_at(s@, j as int, ee) by {
                if field_sep_at(s@, j as int, ee) {
                    if ee < e {
                        assert(is_digit_spec(s@[ee]));
                        assert(s@[ee] == ':');
                    } else if ee > e {
                        assert(is_digit_spec(s@[e as int]));
                    }
                }
            }
        }
        None
    }
}

fn crop_pattern_check(s: &str, i: usize) -> (r: bool)
    requires
        i + 5 <= s@.len(),
        s@.len() <= usize::MAX,
    ensures
        r == crop_pattern_at(s@, i as int),
{
    proof {
        reveal_strlit("crop=");
    }
    let key_ok = s.get_char(i) == 'c' && s.get_char(i + 1) == 'r' && s.get_char(i + 2) == 'o'
        && s.get_char(i + 3) == 'p' && s.get_char(i + 4) == '=';
    proof {
        if key_ok {
            assert(s@.subrange(i as int, i + 5) =~= "crop="@);
        } else {
            assert(s@.subrange(i as int, i + 5) != "crop="@) by {
                if s@.subrange(i as int, i + 5) == "crop="@ {
                    assert(s@[i as int] == "crop="@[0]);
                    assert(s@[i + 1] == "crop="@[1]);
                    assert(s@[i + 2] == "crop="@[2]);
                    assert(s@[i + 3] == "crop="@[3]);
                    assert(s@[i + 4] == "crop="@[4]);
                }
            }
        }
    }
    if !key_ok {
        return false;
    }
    let e1 = match scan_digit_field(s, i + 5) {
        Some(e) => e,
        None => {
            proof {
                if crop_fields_from(s@, i + 5, 3) {
                    let x1 = choose|e: int|
                        #[trigger] field_sep_at(s@, i + 5, e) && crop_fields_from(s@, e + 1, 2);
                }
            }
            return false;
        },
    };
    let e2 = match scan_digit_field(s, e1 + 1) {
        Some(e) => e,
        None => {
            proof {
                if crop_fields_from(s@, i + 5, 3) {
                    let x1 = choose|e: int|
                        #[trigger] field_sep_at(s@, i + 5, e) && crop_fields_from(s@, e + 1, 2);
                    lemma_field_sep_unique(s@, i + 5, x1, e1 as int);
                    let x2 = choose|e: int|
                        #[trigger] field_sep_at(s@, e1 + 1, e) && crop_fields_from(s@, e + 1, 1);
                }
            }
            return false;
        },
    };
    let e3 = match scan_digit_field(s, e2 + 1) {
        Some(e) => e,
        None => {
            proof {
                if crop_fields_from(s@, i + 5, 3) {
                    let x1 = choose|e: int|
                        #[trigger] field_sep_at(s@, i + 5, e) && crop_fields_from(s@, e + 1, 2);
                    lemma_field_sep_unique(s@, i + 5, x1, e1 as int);
                    let x2 = choose|e: int|
                        #[trigger] field_sep_at(s@, e1 + 1, e) && crop_fields_from(s@, e + 1, 1);
                    lemma_field_sep_unique(s@, e1 + 1, x2, e2 as int);
                    let x3 = choose|e: int|
                        #[trigger] field_sep_at(s@, e2 + 1, e) && crop_fields_from(s@, e + 1, 0);
                }
            }
            return false;
        },
    };
    let n = s.unicode_len();
    let last_ok = e3 + 1 < n && is_ascii_digit(s.get_char(e3 + 1));
    proof {
        if last_ok {
            assert(crop_fields_from(s@, e3 + 1, 0));
            assert(crop_fields_from(s@, e2 + 1, 1));
            assert(crop_fields_from(s@, e1 + 1, 2));
            assert(crop_fields_from(s@, i + 5, 3));
        } else {
            if crop_fields_from(s@, i + 5, 3) {
                let x1 = choose|e: int|
                    #[trigger] field_sep_at(s@, i + 5, e) && crop_fields_from(s@, e + 1, 2);
                lemma_field_sep_unique(s@, i + 5, x1, e1 as int);
                let x2 = choose|e: int|
                    #[trigger] field_sep_at(s@, e1 + 1, e) && crop_fields_from(s@, e + 1, 1);
                lemma_field_sep_unique(s@, e1 + 1, x2, e2 as int);
                let x3 = choose|e: int|
                    #[trigger] field_sep_at(s@, e2 + 1, e) && crop_fields_from(s@, e + 1, 0);
                lemma_field_sep_unique(s@, e2 + 1, x3, e3 as int);
                assert(last_field_at(s@, e3 + 1));
            }
        }
    }
    last_ok
}

fn is_ascii_digit(c: char) -> (r: bool)
    ensures
        r == is_digit_spec(c),
{
    let u = c as u32;
    48 <= u && u <= 57
}

impl CropFilter {
    /// Accept a crop filter string when the expected pattern occurs
    /// somewhere in it; the filter text is kept as given.
    pub fn parse(input: &str) -> (r: Option<CropFilter>)
        ensures
            r is Some <==> crop_matches(input@),
            r matches Some(c) ==> c.0@ == input@,
    {
        let n = input.unicode_len();
        if n < 5 {
            proof {
                assert(forall|k: int| !crop_pattern_at(input@, k));
            }
            return None;
        }
        let mut i: usize = 0;
        while i <= n - 5
            invariant
                n == input@.len(),
                5 <= n <= usize::MAX,
                i <= n - 5 + 1,
                forall|k: int| 0 <= k < i ==> !crop_pattern_at(input@, k),
            decreases n - i,
        {
            if crop_pattern_check(input, i) {
                return Some(CropFilter(String::from_str(input)));
            }
            i += 1;
        }
        proof {
            assert(forall|k: int| crop_pattern_at(input@, k) ==> 0 <= k <= n - 5);
        }
        None
    }
}

/// The video encoder to use.
#[derive(Debug, Clone, Copy, PartialEq, Eq, Structural)]
pub enum VideoEncoder {
    Libx264,
    Libx265,
    Nvenc,
}

impl VideoEncoder {
    /// The encoder's name as the command line spells it.
    pub fn as_str(&self) -> (r: &'static str)
        ensures
            *self is Libx264 ==> r@ == "libx264"@,
            *self is Libx265 ==> r@ == "libx265"@,
            *self is Nvenc ==> r@ == "nvenc"@,
    {
        match self {
            VideoEncoder::Libx264 => "libx264",
            VideoEncoder::Libx265 => "libx265",
            VideoEncoder::Nvenc => "nvenc",
        }
    }
}

/// The speed/quality preset handed to the encoder.
#[derive(Debug, Clone, Copy, PartialEq, Eq, Structural)]
pub enum VideoEncoderPreset {
    Ultrafast,
    Superfast,
    Veryfast,
    Faster,
    Fast,
    Medium,
    Slow,
    Slower,
    Veryslow,
    Placebo,
}

impl VideoEncoderPreset {
    /// The preset's name as the command line spells it.
    pub fn as_str(&self) -> (r: &'static str)
        ensures
            *self is Ultrafast ==> r@ == "ultrafast"@,
            *self is Superfast ==> r@ == "superfast"@,
            *self is Veryfast ==> r@ == "veryfast"@,
            *self is Faster ==> r@ == "faster"@,
            *self is Fast ==> r@ == "fast"@,
            *self is Medium ==> r@ == "medium"@,
            *self is Slow ==> r@ == "slow"@,
            *self is Slower ==> r@ == "slower"@,
            *self is Veryslow ==> r@ == "veryslow"@,
            *self is Placebo ==> r@ == "placebo"@,
    {
        match self {
            VideoEncoderPreset::Ultrafast => "ultrafast",
            VideoEncoderPreset::Superfast => "superfast",
            VideoEncoderPreset::Veryfast => "veryfast",
            VideoEncoderPreset::Faster => "faster",
            VideoEncoderPreset::Fast => "fast",
            VideoEncoderPreset::Medium => "medium",
            VideoEncoderPreset::Slow => "slow",
            VideoEncoderPreset::Slower => "slower",
            VideoEncoderPreset::Veryslow => "veryslow",
            VideoEncoderPreset::Placebo => "placebo",
        }
    }
}

/// A tune profile for the software encoder.
#[derive(Debug, Clone, Copy, PartialEq, Eq, Structural)]
pub enum Libx264Tune {
    Film,
    Animation,
    Grain,
    StillImage,
    Psnr,
    Ssim,
    FastDecode,
    ZeroLatency,
}

impl Libx264Tune {
    /// The tune's name as the command line spells it.
    pub fn as_str(&self) -> (r: &'static str)
        ensures
            *self is Film ==> r@ == "film"@,
            *self is Animation ==> r@ == "animation"@,
            *self is Grain ==> r@ == "grain"@,
            *self is StillImage ==> r@ == "stillimage"@,
            *self is Psnr ==> r@ == "psnr"@,
            *self is Ssim ==> r@ == "ssim"@,
            *self is FastDecode ==> r@ == "fastdecode"@,
            *self is ZeroLatency ==> r@ == "zerolatency"@,
    {
        match self {
            Libx264Tune::Film => "film",
            Libx264Tune::Animation => "animation",
            Libx264Tune::Grain => "grain",
            Libx264Tune::StillImage => "stillimage",
            Libx264Tune::Psnr => "psnr",
            Libx264Tune::Ssim => "ssim",
            Libx264Tune::FastDecode => "fastdecode",
            Libx264Tune::ZeroLatency => "zerolatency",
        }
    }
}

/// Split a show's naming options into their parts.
pub fn transpose_state(x: Option<TVOptions>) -> (r: (Option<String>, Option<u32>, Option<u32>))
    ensures
        x matches Some(tv) ==> r == (Some(tv.title), Some(tv.season), Some(tv.episode)),
        x is None ==> r == (None::<String>, None::<u32>, None::<u32>),
{
    match x {
        Some(tv) => (Some(tv.title), Some(tv.season), Some(tv.episode)),
        None => (None, None, None),
    }
}

} // verus!
